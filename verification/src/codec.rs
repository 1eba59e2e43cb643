//! The wire layout of the ring region: the byte shape of the header and
//! of each entry, little-endian throughout, with fixed field order and
//! entry sizes. What a process writes into the shared region at these
//! offsets is exactly what the remote process reads back.
//!
//! Submission entry, 64 bytes: opcode at 0, three zero bytes, flags at 4,
//! offset at 8, address at 16, correlation id at 24, length at 32, zero
//! padding to 64. Completion entry, 16 bytes: correlation id at 0, result
//! at 8, flags at 12. Header, 64 bytes: the two capacities, the four
//! indices, the two entry sizes, zero padding to 64.

use vstd::prelude::*;
use vstd::bytes::{
    lemma_auto_spec_u32_to_from_le_bytes, lemma_auto_spec_u64_to_from_le_bytes,
    spec_u32_from_le_bytes, spec_u32_to_le_bytes, spec_u64_from_le_bytes, spec_u64_to_le_bytes,
    u32_from_le_bytes, u32_to_le_bytes, u64_from_le_bytes, u64_to_le_bytes,
};
use vstd::slice::slice_subrange;
use crate::error::Error;
use crate::ring::{Cqe, IoRing, Sqe, CQE_SIZE, HEADER_SIZE, SQE_SIZE};

verus! {

/// `n` zero bytes.
pub open spec fn zero_bytes(n: nat) -> Seq<u8> {
    Seq::new(n, |i: int| 0u8)
}

/// The 64 wire bytes of one submission entry.
pub open spec fn sqe_bytes(e: Sqe) -> Seq<u8> {
    seq![e.opcode, 0u8, 0u8, 0u8] + spec_u32_to_le_bytes(e.flags) + spec_u64_to_le_bytes(e.off)
        + spec_u64_to_le_bytes(e.addr) + spec_u64_to_le_bytes(e.user_data) + spec_u32_to_le_bytes(
        e.len,
    ) + zero_bytes(28)
}

/// The 16 wire bytes of one completion entry.
pub open spec fn cqe_bytes(e: Cqe) -> Seq<u8> {
    spec_u64_to_le_bytes(e.user_data) + spec_u32_to_le_bytes(e.res as u32) + spec_u32_to_le_bytes(
        e.flags,
    )
}

/// The 64 wire bytes of the ring header for the given geometry.
pub open spec fn header_bytes(
    sq_capacity: u32,
    cq_capacity: u32,
    sq_producer: u64,
    sq_consumer: u64,
    cq_producer: u64,
    cq_consumer: u64,
) -> Seq<u8> {
    spec_u32_to_le_bytes(sq_capacity) + spec_u32_to_le_bytes(cq_capacity) + spec_u64_to_le_bytes(
        sq_producer,
    ) + spec_u64_to_le_bytes(sq_consumer) + spec_u64_to_le_bytes(cq_producer)
        + spec_u64_to_le_bytes(cq_consumer) + spec_u32_to_le_bytes(SQE_SIZE as u32)
        + spec_u32_to_le_bytes(CQE_SIZE as u32) + zero_bytes(16)
}

/// Appends `n` zero bytes.
fn push_zeros(out: &mut Vec<u8>, n: usize)
    ensures
        final(out)@ == old(out)@ + zero_bytes(n as nat),
{
    let mut i: usize = 0;
    while i < n
        invariant
            i <= n,
            out@.len() == old(out)@.len() + i as nat,
            out@ == old(out)@ + zero_bytes(i as nat),
        decreases n - i,
    {
        let ghost before = out@;
        out.push(0u8);
        proof {
            assert(out@ =~= old(out)@ + zero_bytes((i + 1) as nat));
        }
        i = i + 1;
    }
}

/// Encodes one submission entry into its 64 wire bytes.
pub fn encode_sqe(e: &Sqe) -> (r: Vec<u8>)
    ensures
        r@ == sqe_bytes(*e),
        r@.len() == SQE_SIZE,
{
    proof {
        lemma_auto_spec_u32_to_from_le_bytes();
        lemma_auto_spec_u64_to_from_le_bytes();
    }
    let mut out: Vec<u8> = Vec::new();
    out.push(e.opcode);
    out.push(0u8);
    out.push(0u8);
    out.push(0u8);
    let mut piece: Vec<u8> = u32_to_le_bytes(e.flags);
    out.append(&mut piece);
    let mut piece: Vec<u8> = u64_to_le_bytes(e.off);
    out.append(&mut piece);
    let mut piece: Vec<u8> = u64_to_le_bytes(e.addr);
    out.append(&mut piece);
    let mut piece: Vec<u8> = u64_to_le_bytes(e.user_data);
    out.append(&mut piece);
    let mut piece: Vec<u8> = u32_to_le_bytes(e.len);
    out.append(&mut piece);
    push_zeros(&mut out, 28);
    proof {
        assert(out@ =~= sqe_bytes(*e));
    }
    out
}

/// The submission entry a run of 64 wire bytes carries.
pub open spec fn sqe_of_bytes(s: Seq<u8>) -> Sqe {
    Sqe {
        opcode: s[0],
        flags: spec_u32_from_le_bytes(s.subrange(4, 8)),
        off: spec_u64_from_le_bytes(s.subrange(8, 16)),
        addr: spec_u64_from_le_bytes(s.subrange(16, 24)),
        user_data: spec_u64_from_le_bytes(s.subrange(24, 32)),
        len: spec_u32_from_le_bytes(s.subrange(32, 36)),
    }
}

/// Decodes one submission entry; rejects exactly the byte runs that are
/// not entry-sized.
pub fn decode_sqe(bytes: &Vec<u8>) -> (r: Result<Sqe, Error>)
    ensures
        bytes@.len() != SQE_SIZE ==> r == Err::<Sqe, Error>(Error::InvalidArgs),
        bytes@.len() == SQE_SIZE ==> r == Ok::<Sqe, Error>(sqe_of_bytes(bytes@)),
{
    if bytes.len() != 64 {
        return Err(Error::InvalidArgs);
    }
    let s = bytes.as_slice();
    let opcode: u8 = bytes[0];
    let flags: u32 = u32_from_le_bytes(slice_subrange(s, 4, 8));
    let off: u64 = u64_from_le_bytes(slice_subrange(s, 8, 16));
    let addr: u64 = u64_from_le_bytes(slice_subrange(s, 16, 24));
    let user_data: u64 = u64_from_le_bytes(slice_subrange(s, 24, 32));
    let len: u32 = u32_from_le_bytes(slice_subrange(s, 32, 36));
    Ok(Sqe { opcode, flags, off, addr, user_data, len })
}

/// Round trip: decoding what was encoded restores the entry exactly.
pub proof fn lemma_sqe_round_trip(e: Sqe)
    ensures
        sqe_bytes(e).len() == SQE_SIZE,
        sqe_of_bytes(sqe_bytes(e)) == e,
{
    lemma_auto_spec_u32_to_from_le_bytes();
    lemma_auto_spec_u64_to_from_le_bytes();
    let s = sqe_bytes(e);
    assert(s.subrange(4, 8) =~= spec_u32_to_le_bytes(e.flags));
    assert(s.subrange(8, 16) =~= spec_u64_to_le_bytes(e.off));
    assert(s.subrange(16, 24) =~= spec_u64_to_le_bytes(e.addr));
    assert(s.subrange(24, 32) =~= spec_u64_to_le_bytes(e.user_data));
    assert(s.subrange(32, 36) =~= spec_u32_to_le_bytes(e.len));
}

/// Encodes one completion entry into its 16 wire bytes.
pub fn encode_cqe(e: &Cqe) -> (r: Vec<u8>)
    ensures
        r@ == cqe_bytes(*e),
        r@.len() == CQE_SIZE,
{
    proof {
        lemma_auto_spec_u32_to_from_le_bytes();
        lemma_auto_spec_u64_to_from_le_bytes();
    }
    let mut out: Vec<u8> = u64_to_le_bytes(e.user_data);
    let mut piece: Vec<u8> = u32_to_le_bytes(e.res as u32);
    out.append(&mut piece);
    let mut piece: Vec<u8> = u32_to_le_bytes(e.flags);
    out.append(&mut piece);
    proof {
        assert(out@ =~= cqe_bytes(*e));
    }
    out
}

/// The completion entry a run of 16 wire bytes carries.
pub open spec fn cqe_of_bytes(s: Seq<u8>) -> Cqe {
    Cqe {
        user_data: spec_u64_from_le_bytes(s.subrange(0, 8)),
        res: spec_u32_from_le_bytes(s.subrange(8, 12)) as i32,
        flags: spec_u32_from_le_bytes(s.subrange(12, 16)),
    }
}

/// Decodes one completion entry; rejects exactly the byte runs that are
/// not entry-sized.
pub fn decode_cqe(bytes: &Vec<u8>) -> (r: Result<Cqe, Error>)
    ensures
        bytes@.len() != CQE_SIZE ==> r == Err::<Cqe, Error>(Error::InvalidArgs),
        bytes@.len() == CQE_SIZE ==> r == Ok::<Cqe, Error>(cqe_of_bytes(bytes@)),
{
    if bytes.len() != 16 {
        return Err(Error::InvalidArgs);
    }
    let s = bytes.as_slice();
    let user_data: u64 = u64_from_le_bytes(slice_subrange(s, 0, 8));
    let res: i32 = u32_from_le_bytes(slice_subrange(s, 8, 12)) as i32;
    let flags: u32 = u32_from_le_bytes(slice_subrange(s, 12, 16));
    Ok(Cqe { user_data, res, flags })
}

/// Round trip: decoding what was encoded restores the entry exactly.
pub proof fn lemma_cqe_round_trip(e: Cqe)
    ensures
        cqe_bytes(e).len() == CQE_SIZE,
        cqe_of_bytes(cqe_bytes(e)) == e,
{
    lemma_auto_spec_u32_to_from_le_bytes();
    lemma_auto_spec_u64_to_from_le_bytes();
    let s = cqe_bytes(e);
    assert(s.subrange(0, 8) =~= spec_u64_to_le_bytes(e.user_data));
    assert(s.subrange(8, 12) =~= spec_u32_to_le_bytes(e.res as u32));
    assert(s.subrange(12, 16) =~= spec_u32_to_le_bytes(e.flags));
    let res_val = e.res;
    assert(res_val as u32 as i32 == res_val) by (bit_vector);
}

/// Encodes the ring header of `ring` into its 64 wire bytes.
pub fn encode_ring_header(ring: &IoRing) -> (r: Vec<u8>)
    ensures
        r@ == header_bytes(
            ring.sq().capacity(),
            ring.cq().capacity(),
            ring.sq().producer_index(),
            ring.sq().consumer_index(),
            ring.cq().producer_index(),
            ring.cq().consumer_index(),
        ),
        r@.len() == HEADER_SIZE,
{
    proof {
        lemma_auto_spec_u32_to_from_le_bytes();
        lemma_auto_spec_u64_to_from_le_bytes();
    }
    let (sq_cap, sq_prod, sq_cons) = ring.sq_indices();
    let (cq_cap, cq_prod, cq_cons) = ring.cq_indices();
    let mut out: Vec<u8> = u32_to_le_bytes(sq_cap);
    let mut piece: Vec<u8> = u32_to_le_bytes(cq_cap);
    out.append(&mut piece);
    let mut piece: Vec<u8> = u64_to_le_bytes(sq_prod);
    out.append(&mut piece);
    let mut piece: Vec<u8> = u64_to_le_bytes(sq_cons);
    out.append(&mut piece);
    let mut piece: Vec<u8> = u64_to_le_bytes(cq_prod);
    out.append(&mut piece);
    let mut piece: Vec<u8> = u64_to_le_bytes(cq_cons);
    out.append(&mut piece);
    let mut piece: Vec<u8> = u32_to_le_bytes(64u32);
    out.append(&mut piece);
    let mut piece: Vec<u8> = u32_to_le_bytes(16u32);
    out.append(&mut piece);
    push_zeros(&mut out, 16);
    proof {
        assert(out@ =~= header_bytes(
            ring.sq().capacity(),
            ring.cq().capacity(),
            ring.sq().producer_index(),
            ring.sq().consumer_index(),
            ring.cq().producer_index(),
            ring.cq().consumer_index(),
        ));
    }
    out
}

/// The wire bytes of a list of 64-bit values, each little-endian, in
/// order.
pub open spec fn u64s_bytes(s: Seq<u64>) -> Seq<u8>
    decreases s.len(),
{
    if s.len() == 0 {
        Seq::empty()
    } else {
        spec_u64_to_le_bytes(s[0]) + u64s_bytes(s.drop_first())
    }
}

/// Appending one value extends the wire bytes by its eight bytes.
pub proof fn lemma_u64s_bytes_push(s: Seq<u64>, x: u64)
    ensures
        u64s_bytes(s.push(x)) == u64s_bytes(s) + spec_u64_to_le_bytes(x),
    decreases s.len(),
{
    lemma_auto_spec_u64_to_from_le_bytes();
    if s.len() == 0 {
        assert(s.push(x)[0] == x);
        assert(s.push(x).drop_first() =~= Seq::<u64>::empty());
        assert(u64s_bytes(Seq::<u64>::empty()) =~= Seq::<u8>::empty());
        assert(u64s_bytes(s.push(x)) =~= u64s_bytes(s) + spec_u64_to_le_bytes(x));
    } else {
        assert(s.push(x)[0] == s[0]);
        assert(s.push(x).drop_first() =~= s.drop_first().push(x));
        lemma_u64s_bytes_push(s.drop_first(), x);
        assert(u64s_bytes(s.push(x)) =~= u64s_bytes(s) + spec_u64_to_le_bytes(x));
    }
}

/// Encodes a list of 64-bit values as a little-endian count followed by
/// the values, the shape in which scalar lists travel through the inline
/// message buffer.
pub fn encode_u64_list(values: &Vec<u64>) -> (r: Vec<u8>)
    requires
        values@.len() <= u32::MAX,
    ensures
        r@ == spec_u32_to_le_bytes(values@.len() as u32) + u64s_bytes(values@),
{
    let mut out: Vec<u8> = u32_to_le_bytes(values.len() as u32);
    let ghost prefix = out@;
    let mut i: usize = 0;
    while i < values.len()
        invariant
            i <= values@.len(),
            out@ == prefix + u64s_bytes(values@.subrange(0, i as int)),
        decreases values@.len() - i,
    {
        let mut piece: Vec<u8> = u64_to_le_bytes(values[i]);
        out.append(&mut piece);
        proof {
            assert(values@.subrange(0, i + 1) =~= values@.subrange(0, i as int).push(
                values@[i as int],
            ));
            lemma_u64s_bytes_push(values@.subrange(0, i as int), values@[i as int]);
            assert(out@ =~= prefix + u64s_bytes(values@.subrange(0, i + 1)));
        }
        i = i + 1;
    }
    proof {
        assert(values@.subrange(0, values@.len() as int) =~= values@);
    }
    out
}

/// Decodes a count-prefixed list of 64-bit values; rejects exactly the
/// byte runs whose length does not match their count.
pub fn decode_u64_list(bytes: &Vec<u8>) -> (r: Result<Vec<u64>, Error>)
    ensures
        bytes@.len() >= 4 && bytes@.len() == 4 + 8 * (spec_u32_from_le_bytes(
            bytes@.subrange(0, 4),
        ) as nat) ==> r is Ok,
        match r {
            Ok(v) => {
                &&& bytes@.len() == 4 + 8 * v@.len()
                &&& v@.len() == spec_u32_from_le_bytes(bytes@.subrange(0, 4))
                &&& forall|k: int|
                    0 <= k < v@.len() ==> v@[k] == spec_u64_from_le_bytes(
                        bytes@.subrange(4 + 8 * k, 12 + 8 * k),
                    )
            },
            Err(e) => e == Error::InvalidArgs,
        },
    {
        if bytes.len() < 4 {
            return Err(Error::InvalidArgs);
        }
        let s = bytes.as_slice();
        let count: u32 = u32_from_le_bytes(slice_subrange(s, 0, 4));
        proof {
            vstd::arithmetic::div_mod::lemma_fundamental_div_mod((usize::MAX - 4) as int, 8);
        }
        if count as usize > (usize::MAX - 4) / 8 {
            return Err(Error::InvalidArgs);
        }
        let expected: usize = 4 + (count as usize) * 8;
        if bytes.len() != expected {
            return Err(Error::InvalidArgs);
        }
        let mut out: Vec<u64> = Vec::new();
        let mut i: usize = 0;
        while i < count as usize
            invariant
                i <= count as usize,
                4 + 8 * (count as int) <= usize::MAX as int,
                bytes@.len() == 4 + 8 * (count as nat),
                out@.len() == i as nat,
                forall|k: int|
                    0 <= k < i ==> out@[k] == spec_u64_from_le_bytes(
                        bytes@.subrange(4 + 8 * k, 12 + 8 * k),
                    ),
            decreases count as usize - i,
        {
            let start: usize = 4 + i * 8;
            let piece = slice_subrange(bytes.as_slice(), start, start + 8);
            let x: u64 = u64_from_le_bytes(piece);
            out.push(x);
            i = i + 1;
        }
        Ok(out)
    }

} // verus!
