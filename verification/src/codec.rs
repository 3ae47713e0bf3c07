//! Little-endian integer and fixed-array reading and writing over byte buffers.
use vstd::prelude::*;
use vstd::bytes::{spec_u64_from_le_bytes, spec_u64_to_le_bytes, lemma_auto_spec_u64_to_from_le_bytes};

verus! {

/// The eight little-endian bytes of a signed 64-bit value (two's complement).
pub open spec fn spec_i64_to_le_bytes(x: i64) -> Seq<u8> {
    spec_u64_to_le_bytes(x as u64)
}

/// The signed 64-bit value whose little-endian bytes are `s`.
pub open spec fn spec_i64_from_le_bytes(s: Seq<u8>) -> i64 {
    spec_u64_from_le_bytes(s) as i64
}

/// The eight little-endian bytes of a `u64` always decode back to it, and eight bytes
/// always encode back from their decoding.
pub proof fn lemma_u64_le_roundtrip(x: u64, s: Seq<u8>)
    ensures
        spec_u64_to_le_bytes(x).len() == 8,
        spec_u64_from_le_bytes(spec_u64_to_le_bytes(x)) == x,
        s.len() == 8 ==> spec_u64_to_le_bytes(spec_u64_from_le_bytes(s)) == s,
{
    lemma_auto_spec_u64_to_from_le_bytes();
    if s.len() == 8 {
        assert(spec_u64_to_le_bytes(spec_u64_from_le_bytes(s)) == s);
    }
}

proof fn lemma_i64_u64_casts(x: i64, u: u64)
    ensures
        (x as u64) as i64 == x,
        (u as i64) as u64 == u,
{
    assert((x as u64) as i64 == x) by (bit_vector);
    assert((u as i64) as u64 == u) by (bit_vector);
}

/// The same two facts for `i64`.
pub proof fn lemma_i64_le_roundtrip(x: i64, s: Seq<u8>)
    ensures
        spec_i64_to_le_bytes(x).len() == 8,
        spec_i64_from_le_bytes(spec_i64_to_le_bytes(x)) == x,
        s.len() == 8 ==> spec_i64_to_le_bytes(spec_i64_from_le_bytes(s)) == s,
{
    lemma_u64_le_roundtrip(x as u64, s);
    lemma_i64_u64_casts(x, spec_u64_from_le_bytes(s));
}

/// Appends every byte of `bytes` to `out`.
pub fn push_all(out: &mut Vec<u8>, bytes: &[u8])
    ensures
        final(out)@ == old(out)@ + bytes@,
{
    let mut i: usize = 0;
    while i < bytes.len()
        invariant
            i <= bytes@.len(),
            out@ == old(out)@ + bytes@.subrange(0, i as int),
        decreases bytes@.len() - i,
    {
        out.push(bytes[i]);
        i = i + 1;
        assert(out@ =~= old(out)@ + bytes@.subrange(0, i as int));
    }
    assert(bytes@.subrange(0, i as int) =~= bytes@);
}

/// Appends the little-endian bytes of `x` to `out`.
pub fn push_u64_le(out: &mut Vec<u8>, x: u64)
    ensures
        final(out)@ == old(out)@ + spec_u64_to_le_bytes(x),
{
    let bytes = vstd::bytes::u64_to_le_bytes(x);
    push_all(out, bytes.as_slice());
}

/// Appends the little-endian bytes of `x` to `out`.
pub fn push_i64_le(out: &mut Vec<u8>, x: i64)
    ensures
        final(out)@ == old(out)@ + spec_i64_to_le_bytes(x),
{
    push_u64_le(out, x as u64);
}

/// Reads the `u64` whose little-endian bytes start at `at`.
pub fn read_u64_le(data: &[u8], at: usize) -> (x: u64)
    requires
        at + 8 <= data@.len(),
    ensures
        x == spec_u64_from_le_bytes(data@.subrange(at as int, at + 8)),
{
    let mut chunk: Vec<u8> = Vec::with_capacity(8);
    let mut i: usize = 0;
    while i < 8
        invariant
            i <= 8,
            at + 8 <= data.len(),
            chunk@ == data@.subrange(at as int, at + i),
        decreases 8 - i,
    {
        chunk.push(data[at + i]);
        i = i + 1;
        assert(chunk@ =~= data@.subrange(at as int, at + i));
    }
    vstd::bytes::u64_from_le_bytes(chunk.as_slice())
}

/// Reads the `i64` whose little-endian bytes start at `at`.
pub fn read_i64_le(data: &[u8], at: usize) -> (x: i64)
    requires
        at + 8 <= data@.len(),
    ensures
        x == spec_i64_from_le_bytes(data@.subrange(at as int, at + 8)),
{
    read_u64_le(data, at) as i64
}

/// Copies the 32 bytes that start at `at`.
pub fn read_array32(data: &[u8], at: usize) -> (a: [u8; 32])
    requires
        at + 32 <= data@.len(),
    ensures
        a@ == data@.subrange(at as int, at + 32),
{
    let mut a = [0u8; 32];
    let mut i: usize = 0;
    while i < 32
        invariant
            i <= 32,
            at + 32 <= data.len(),
            a@.len() == 32,
            forall|j: int| 0 <= j < i ==> a@[j] == data@[at + j],
        decreases 32 - i,
    {
        a[i] = data[at + i];
        i = i + 1;
    }
    assert(a@ =~= data@.subrange(at as int, at + 32));
    a
}

/// Copies the 64 bytes that start at `at`.
pub fn read_array64(data: &[u8], at: usize) -> (a: [u8; 64])
    requires
        at + 64 <= data@.len(),
    ensures
        a@ == data@.subrange(at as int, at + 64),
{
    let mut a = [0u8; 64];
    let mut i: usize = 0;
    while i < 64
        invariant
            i <= 64,
            at + 64 <= data.len(),
            a@.len() == 64,
            forall|j: int| 0 <= j < i ==> a@[j] == data@[at + j],
        decreases 64 - i,
    {
        a[i] = data[at + i];
        i = i + 1;
    }
    assert(a@ =~= data@.subrange(at as int, at + 64));
    a
}

} // verus!
