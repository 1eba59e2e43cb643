use driver_ring::error::Error;
use driver_ring::shm::SharedBufferRegion;

#[test]
fn round_trip_restores_every_byte() {
    let mut region = SharedBufferRegion::new(4096, 0x8000_0000, 0);
    let payload: Vec<u8> = (0..=255u8).cycle().take(512).collect();
    region.write_at(128, &payload).unwrap();
    let back = region.read_at(128, 512).unwrap();
    assert_eq!(back, payload);
}

#[test]
fn read_of_eight_kib_from_four_kib_region_is_rejected() {
    let region = SharedBufferRegion::new(4096, 0x8000_0000, 0);
    assert_eq!(region.read_at(0, 8192).unwrap_err(), Error::InvalidArgs);
}

#[test]
fn oversize_write_is_rejected_without_truncation() {
    let mut region = SharedBufferRegion::new(16, 0, 0);
    let payload = vec![7u8; 17];
    assert_eq!(region.write_at(0, &payload), Err(Error::InvalidArgs));
    // Nothing was written.
    assert_eq!(region.read_at(0, 16).unwrap(), vec![0u8; 16]);
}

#[test]
fn write_past_the_end_is_rejected() {
    let mut region = SharedBufferRegion::new(16, 0, 0);
    let payload = vec![7u8; 8];
    assert_eq!(region.write_at(9, &payload), Err(Error::InvalidArgs));
    assert_eq!(region.write_at(8, &payload), Ok(()));
    assert_eq!(region.read_at(8, 8).unwrap(), payload);
}

#[test]
fn writes_leave_other_bytes_alone() {
    let mut region = SharedBufferRegion::new(8, 0, 0);
    region.write_at(0, &vec![1, 2, 3, 4, 5, 6, 7, 8]).unwrap();
    region.write_at(2, &vec![9, 9]).unwrap();
    assert_eq!(region.read_at(0, 8).unwrap(), vec![1, 2, 9, 9, 5, 6, 7, 8]);
}

#[test]
fn region_reports_its_addresses() {
    let region = SharedBufferRegion::new(64, 0xABCD_0000, 0x1_0000);
    assert_eq!(region.size_bytes(), 64);
    assert_eq!(region.client_vaddr_value(), 0xABCD_0000);
    assert_eq!(region.paddr_value(), 0x1_0000);
    for i in 0..64 {
        assert_eq!(region.byte_at(i), 0);
    }
}
