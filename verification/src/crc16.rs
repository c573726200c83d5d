//! CRC-16/XMODEM: polynomial 0x1021, register initialised to zero, no
//! reflection, computed here over arbitrary byte sequences.

use vstd::prelude::*;

verus! {

/// One shift step of the CRC register: shift left one bit, folding the
/// polynomial 0x1021 back in whenever the top bit falls out.
pub open spec fn crc16_step(crc: u16) -> u16 {
    if crc & 0x8000 != 0 {
        (crc << 1) ^ 0x1021
    } else {
        crc << 1
    }
}

/// The CRC register after `n` shift steps.
pub open spec fn crc16_steps(crc: u16, n: nat) -> u16
    decreases n,
{
    if n == 0 {
        crc
    } else {
        crc16_step(crc16_steps(crc, (n - 1) as nat))
    }
}

/// Folding one input byte into the register: the byte is xor-ed into the
/// high half, then eight shift steps are run.
pub open spec fn crc16_push_byte(crc: u16, b: u8) -> u16 {
    crc16_steps(crc ^ ((b as u16) << 8), 8)
}

/// The CRC-16/XMODEM checksum of a byte sequence, bytes folded in from
/// first to last, starting from a zero register.
pub open spec fn crc16_spec(s: Seq<u8>) -> u16
    decreases s.len(),
{
    if s.len() == 0 {
        0
    } else {
        crc16_push_byte(crc16_spec(s.drop_last()), s.last())
    }
}

/// Calculate the checksum of a byte slice.
pub fn crc16(arr: &[u8]) -> (crc: u16)
    ensures
        crc == crc16_spec(arr@),
{
    let mut crc: u16 = 0;
    let mut i: usize = 0;
    while i < arr.len()
        invariant
            i <= arr@.len(),
            crc == crc16_spec(arr@.take(i as int)),
        decreases arr@.len() - i,
    {
        let data: u16 = arr[i] as u16;
        crc = crc ^ (data << 8);
        let ghost entry = crc;
        let mut j: usize = 0;
        while j < 8
            invariant
                j <= 8,
                crc == crc16_steps(entry, j as nat),
        decreases 8 - j,
        {
            if (crc & 0x8000) != 0 {
                crc = (crc << 1) ^ 0x1021;
            } else {
                crc = crc << 1;
            }
            j = j + 1;
        }
        proof {
            assert(arr@.take(i + 1).drop_last() =~= arr@.take(i as int));
            assert(arr@.take(i + 1).last() == arr@[i as int]);
        }
        i = i + 1;
    }
    proof {
        assert(arr@.take(arr@.len() as int) =~= arr@);
    }
    crc
}

/// Two equal-length byte sequences combined bitwise with xor.
pub open spec fn xor_bytes(p: Seq<u8>, q: Seq<u8>) -> Seq<u8> {
    Seq::new(p.len(), |i: int| p[i] ^ q[i])
}

/// One shift step distributes over xor of registers.
proof fn lemma_step_linear(a: u16, b: u16)
    ensures
        crc16_step(a ^ b) == crc16_step(a) ^ crc16_step(b),
{
    assert(crc16_step(a ^ b) == crc16_step(a) ^ crc16_step(b)) by (bit_vector);
}

/// One shift step never turns a non-zero register into zero: the
/// polynomial has its low bit set, so the xor cannot cancel the shift.
proof fn lemma_step_nonzero(a: u16)
    requires
        a != 0,
    ensures
        crc16_step(a) != 0,
{
    assert(crc16_step(a) != 0) by (bit_vector)
        requires
            a != 0,
    ;
}

/// Any number of shift steps distributes over xor of registers.
proof fn lemma_steps_linear(a: u16, b: u16, n: nat)
    ensures
        crc16_steps(a ^ b, n) == crc16_steps(a, n) ^ crc16_steps(b, n),
    decreases n,
{
    if n != 0 {
        lemma_steps_linear(a, b, (n - 1) as nat);
        lemma_step_linear(crc16_steps(a, (n - 1) as nat), crc16_steps(b, (n - 1) as nat));
    }
}

/// Any number of shift steps keeps a non-zero register non-zero.
proof fn lemma_steps_nonzero(a: u16, n: nat)
    requires
        a != 0,
    ensures
        crc16_steps(a, n) != 0,
    decreases n,
{
    if n != 0 {
        lemma_steps_nonzero(a, (n - 1) as nat);
        lemma_step_nonzero(crc16_steps(a, (n - 1) as nat));
    }
}

/// Xor of a byte with itself vanishes.
proof fn lemma_xor_self(x: u8)
    ensures
        x ^ x == 0,
{
    assert(x ^ x == 0) by (bit_vector);
}

/// Xor-ing a flipped byte against the original recovers the flipped bit.
proof fn lemma_xor_recover(x: u8, k: u8)
    ensures
        x ^ (x ^ (1u8 << k)) == 1u8 << k,
{
    assert(x ^ (x ^ (1u8 << k)) == 1u8 << k) by (bit_vector);
}

/// A single bit inside a byte is a non-zero byte.
proof fn lemma_bit_nonzero(k: u8)
    requires
        k < 8,
    ensures
        1u8 << k != 0,
{
    assert(1u8 << k != 0) by (bit_vector)
        requires
            k < 8,
    ;
}

/// Xor-ing a non-zero byte into the high half of a zero register leaves
/// it non-zero.
proof fn lemma_high_inject(b: u8)
    requires
        b != 0,
    ensures
        0u16 ^ ((b as u16) << 8) != 0,
{
    assert(0u16 ^ ((b as u16) << 8) != 0) by (bit_vector)
        requires
            b != 0,
    ;
}

/// Xor-ing a zero byte into the high half changes nothing.
proof fn lemma_high_zero(c: u16)
    ensures
        c ^ ((0u8 as u16) << 8) == c,
{
    assert(c ^ ((0u8 as u16) << 8) == c) by (bit_vector);
}

/// Xor of zero registers is zero.
proof fn lemma_xor_zero_zero()
    ensures
        0u16 ^ 0u16 == 0u16,
{
    assert(0u16 ^ 0u16 == 0u16) by (bit_vector);
}

/// Registers whose xor is non-zero are distinct.
proof fn lemma_xor_distinct(c1: u16, c2: u16, d: u16)
    requires
        c1 ^ c2 == d,
        d != 0,
    ensures
        c2 != c1,
{
    assert(c1 ^ c2 == d && d != 0 ==> c2 != c1) by (bit_vector);
}

/// Folding in a byte distributes over xor of registers and bytes.
proof fn lemma_push_byte_linear(a: u16, b: u16, x: u8, y: u8)
    ensures
        crc16_push_byte(a ^ b, x ^ y) == crc16_push_byte(a, x) ^ crc16_push_byte(b, y),
{
    assert((a ^ b) ^ (((x ^ y) as u16) << 8) == (a ^ ((x as u16) << 8)) ^ (b ^ ((y as u16)
        << 8))) by (bit_vector);
    lemma_steps_linear(a ^ ((x as u16) << 8), b ^ ((y as u16) << 8), 8);
}

/// The checksum of the bitwise xor of two equal-length sequences is the
/// xor of their checksums: the whole computation is linear over xor.
proof fn lemma_crc16_linear(p: Seq<u8>, q: Seq<u8>)
    requires
        p.len() == q.len(),
    ensures
        crc16_spec(xor_bytes(p, q)) == crc16_spec(p) ^ crc16_spec(q),
    decreases p.len(),
{
    let e = xor_bytes(p, q);
    if p.len() == 0 {
        assert(e.len() == 0);
        lemma_xor_zero_zero();
    } else {
        lemma_crc16_linear(p.drop_last(), q.drop_last());
        assert(e.drop_last() =~= xor_bytes(p.drop_last(), q.drop_last()));
        assert(e.last() == p.last() ^ q.last());
        lemma_push_byte_linear(
            crc16_spec(p.drop_last()),
            crc16_spec(q.drop_last()),
            p.last(),
            q.last(),
        );
    }
}

/// A zero register stays zero under any number of shift steps.
proof fn lemma_steps_zero(n: nat)
    ensures
        crc16_steps(0, n) == 0,
    decreases n,
{
    if n != 0 {
        lemma_steps_zero((n - 1) as nat);
        assert(crc16_step(0) == 0) by (bit_vector);
    }
}

/// The checksum of an all-zero sequence is zero.
proof fn lemma_crc16_zeros(p: Seq<u8>)
    requires
        forall|j: int| 0 <= j < p.len() ==> p[j] == 0,
    ensures
        crc16_spec(p) == 0,
    decreases p.len(),
{
    if p.len() != 0 {
        lemma_crc16_zeros(p.drop_last());
        assert(0u16 ^ ((0u8 as u16) << 8) == 0) by (bit_vector);
        lemma_steps_zero(8);
    }
}

/// A sequence that is zero everywhere except for one non-zero byte has a
/// non-zero checksum.
proof fn lemma_crc16_one_nonzero(p: Seq<u8>, i: int)
    requires
        0 <= i < p.len(),
        p[i] != 0,
        forall|j: int| 0 <= j < p.len() && j != i ==> p[j] == 0,
    ensures
        crc16_spec(p) != 0,
    decreases p.len(),
{
    let prev = crc16_spec(p.drop_last());
    let b = p.last();
    if i == p.len() - 1 {
        lemma_crc16_zeros(p.drop_last());
        lemma_high_inject(b);
        lemma_steps_nonzero(0 ^ ((b as u16) << 8), 8);
    } else {
        lemma_crc16_one_nonzero(p.drop_last(), i);
        assert(b == 0);
        lemma_high_zero(prev);
        lemma_steps_nonzero(prev ^ ((b as u16) << 8), 8);
    }
}

/// Single-bit error detection: flipping any one bit of any one byte of a
/// sequence always changes its checksum.
pub proof fn lemma_crc16_detects_bit_flip(p: Seq<u8>, i: int, k: u8)
    requires
        0 <= i < p.len(),
        k < 8,
    ensures
        crc16_spec(p.update(i, p[i] ^ (1u8 << k))) != crc16_spec(p),
{
    let p2 = p.update(i, p[i] ^ (1u8 << k));
    let e = xor_bytes(p, p2);
    lemma_xor_recover(p[i], k);
    lemma_bit_nonzero(k);
    assert(e[i] == 1u8 << k);
    assert forall|j: int| 0 <= j < e.len() && j != i implies e[j] == 0 by {
        lemma_xor_self(p[j]);
    }
    lemma_crc16_one_nonzero(e, i);
    lemma_crc16_linear(p, p2);
    lemma_xor_distinct(crc16_spec(p), crc16_spec(p2), crc16_spec(e));
}

} // verus!
