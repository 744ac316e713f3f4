use vstd::prelude::*;
use vstd::bytes::{
    lemma_auto_spec_u64_to_from_le_bytes, spec_u64_from_le_bytes, spec_u64_to_le_bytes,
    u64_from_le_bytes, u64_to_le_bytes,
};
use vstd::slice::slice_subrange;

verus! {

/// The little-endian `u64` stored at byte offset `at`.
pub open spec fn u64_at(data: Seq<u8>, at: int) -> u64 {
    spec_u64_from_le_bytes(data.subrange(at, at + 8))
}

/// The little-endian `i64` stored at byte offset `at` (two's complement).
pub open spec fn i64_at(data: Seq<u8>, at: int) -> i64 {
    u64_at(data, at) as i64
}

/// The 32-byte address stored at byte offset `at`.
pub open spec fn address_at(data: Seq<u8>, at: int) -> Seq<u8> {
    data.subrange(at, at + 32)
}

/// `data` with the bytes from offset `at` on replaced by `bytes`.
pub open spec fn with_bytes_at(data: Seq<u8>, at: int, bytes: Seq<u8>) -> Seq<u8> {
    data.take(at) + bytes + data.skip(at + bytes.len())
}

/// `data` with the little-endian encoding of `v` written at offset `at`.
pub open spec fn with_u64_at(data: Seq<u8>, at: int, v: u64) -> Seq<u8> {
    with_bytes_at(data, at, spec_u64_to_le_bytes(v))
}

/// `data` with the two's complement little-endian encoding of `v` written at offset `at`.
pub open spec fn with_i64_at(data: Seq<u8>, at: int, v: i64) -> Seq<u8> {
    with_u64_at(data, at, v as u64)
}

/// Writing `bytes` at `at` keeps the length, puts `bytes` there, and keeps
/// every byte outside of it.
pub proof fn lemma_with_bytes_at(data: Seq<u8>, at: int, bytes: Seq<u8>)
    requires
        0 <= at,
        at + bytes.len() <= data.len(),
    ensures
        with_bytes_at(data, at, bytes).len() == data.len(),
        with_bytes_at(data, at, bytes).subrange(at, at + bytes.len()) == bytes,
        forall|i: int|
            0 <= i < data.len() && !(at <= i < at + bytes.len()) ==> #[trigger] with_bytes_at(
                data,
                at,
                bytes,
            )[i] == data[i],
        forall|i: int|
            at <= i < at + bytes.len() ==> #[trigger] with_bytes_at(data, at, bytes)[i] == bytes[i
                - at],
{
    let w = with_bytes_at(data, at, bytes);
    assert(w.subrange(at, at + bytes.len()) =~= bytes);
}

/// Reading a `u64` back where one was written gives it back.
pub proof fn lemma_u64_read_after_write(data: Seq<u8>, at: int, v: u64)
    requires
        0 <= at,
        at + 8 <= data.len(),
    ensures
        with_u64_at(data, at, v).len() == data.len(),
        u64_at(with_u64_at(data, at, v), at) == v,
{
    lemma_auto_spec_u64_to_from_le_bytes();
    lemma_with_bytes_at(data, at, spec_u64_to_le_bytes(v));
}

/// An `i64` taken as the `u64` with the same bits, and back, is itself.
pub proof fn lemma_i64_bits_roundtrip(v: i64)
    ensures
        ((v as u64) as i64) == v,
{
    assert(((v as u64) as i64) == v) by (bit_vector);
}

/// Reads the little-endian `u64` at offset `at`.
pub fn read_u64(data: &[u8], at: usize) -> (v: u64)
    requires
        at + 8 <= data@.len(),
    ensures
        v == u64_at(data@, at as int),
{
    let len = data.len();
    assert(len == data@.len());
    u64_from_le_bytes(slice_subrange(data, at, at + 8))
}

/// Reads the little-endian two's complement `i64` at offset `at`.
pub fn read_i64(data: &[u8], at: usize) -> (v: i64)
    requires
        at + 8 <= data@.len(),
    ensures
        v == i64_at(data@, at as int),
{
    read_u64(data, at) as i64
}

/// Reads the 32-byte address at offset `at`.
pub fn read_address(data: &[u8], at: usize) -> (a: [u8; 32])
    requires
        at + 32 <= data@.len(),
    ensures
        a@ == address_at(data@, at as int),
{
    let len = data.len();
    let mut a = [0u8; 32];
    for i in 0..32usize
        invariant
            len == data@.len(),
            at + 32 <= data@.len(),
            a@.len() == 32,
            forall|j: int| 0 <= j < i ==> a@[j] == data@[at + j],
    {
        a[i] = data[at + i];
    }
    assert(a@ =~= address_at(data@, at as int));
    a
}

/// Overwrites the bytes from offset `at` on with `bytes`.
pub fn write_bytes(data: &mut [u8], at: usize, bytes: &[u8])
    requires
        at + bytes@.len() <= old(data)@.len(),
    ensures
        final(data)@ == with_bytes_at(old(data)@, at as int, bytes@),
{
    let n = bytes.len();
    let len = data.len();
    for i in 0..n
        invariant
            n == bytes@.len(),
            len == data@.len(),
            at + n <= data@.len(),
            data@.len() == old(data)@.len(),
            forall|j: int|
                0 <= j < data@.len() && !(at <= j < at + i) ==> data@[j] == old(data)@[j],
            forall|j: int| at <= j < at + i ==> data@[j] == bytes@[j - at],
    {
        data[at + i] = bytes[i];
    }
    proof {
        lemma_with_bytes_at(old(data)@, at as int, bytes@);
        assert(data@ =~= with_bytes_at(old(data)@, at as int, bytes@));
    }
}

/// Writes `v` in little-endian order at offset `at`.
pub fn write_u64(data: &mut [u8], at: usize, v: u64)
    requires
        at + 8 <= old(data)@.len(),
    ensures
        final(data)@ == with_u64_at(old(data)@, at as int, v),
{
    let encoded = u64_to_le_bytes(v);
    write_bytes(data, at, encoded.as_slice());
}

/// Writes `v` in little-endian two's complement at offset `at`.
pub fn write_i64(data: &mut [u8], at: usize, v: i64)
    requires
        at + 8 <= old(data)@.len(),
    ensures
        final(data)@ == with_i64_at(old(data)@, at as int, v),
{
    write_u64(data, at, v as u64);
}

/// Whether two addresses are the same.
pub fn same_address(a: &[u8; 32], b: &[u8; 32]) -> (same: bool)
    ensures
        same == (a@ == b@),
{
    let mut i: usize = 0;
    while i < 32
        invariant
            i <= 32,
            a@.len() == 32,
            b@.len() == 32,
            forall|j: int| 0 <= j < i ==> a@[j] == b@[j],
        decreases 32 - i,
    {
        if a[i] != b[i] {
            return false;
        }
        i = i + 1;
    }
    assert(a@ =~= b@);
    true
}

} // verus!
