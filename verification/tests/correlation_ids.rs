use driver_ring::correlation::{CorrelationGenerator, CORRELATION_BASE};

#[test]
fn many_generated_ids_are_all_distinct() {
    let mut generator = CorrelationGenerator::new();
    let mut seen = Vec::new();
    for _ in 0..1000 {
        let id = generator.fresh_id();
        assert!(!seen.contains(&id));
        seen.push(id);
    }
    assert_eq!(seen.len(), 1000);
}

#[test]
fn ids_start_at_the_reserved_base_and_increase() {
    assert_eq!(CORRELATION_BASE, 0x1000);
    let mut generator = CorrelationGenerator::new();
    let a = generator.fresh_id();
    let b = generator.fresh_id();
    let c = generator.fresh_id();
    assert_eq!(a, CORRELATION_BASE);
    assert_eq!(b, CORRELATION_BASE + 1);
    assert_eq!(c, CORRELATION_BASE + 2);
}
