use vstd::prelude::*;

use crate::state::Pubkey;

verus! {

/// The little-endian 16-bit integer at `off`.
pub open spec fn le_u16(s: Seq<u8>, off: int) -> int {
    s[off] + s[off + 1] * 256
}

/// The little-endian 32-bit integer at `off`.
pub open spec fn le_u32(s: Seq<u8>, off: int) -> int {
    le_u16(s, off) + le_u16(s, off + 2) * 65536
}

/// The little-endian 64-bit integer at `off`.
pub open spec fn le_u64(s: Seq<u8>, off: int) -> int {
    le_u32(s, off) + le_u32(s, off + 4) * 4294967296
}

/// The little-endian 128-bit integer at `off`.
pub open spec fn le_u128(s: Seq<u8>, off: int) -> int {
    le_u64(s, off) + le_u64(s, off + 8) * 18446744073709551616
}

/// Whether `k` is the address stored at `off`.
pub open spec fn key_at(k: Pubkey, s: Seq<u8>, off: int) -> bool {
    k.0@ == s.subrange(off, off + 32)
}

pub fn read_u8(data: &[u8], off: usize) -> (r: u8)
    requires
        off + 1 <= data.len(),
    ensures
        r == data@[off as int],
{
    data[off]
}

pub fn read_u16(data: &[u8], off: usize) -> (r: u16)
    requires
        off + 2 <= data.len(),
    ensures
        r == le_u16(data@, off as int),
{
    data[off] as u16 + data[off + 1] as u16 * 256
}

pub fn read_u32(data: &[u8], off: usize) -> (r: u32)
    requires
        off + 4 <= data.len(),
    ensures
        r == le_u32(data@, off as int),
{
    read_u16(data, off) as u32 + read_u16(data, off + 2) as u32 * 65536
}

pub fn read_u64(data: &[u8], off: usize) -> (r: u64)
    requires
        off + 8 <= data.len(),
    ensures
        r == le_u64(data@, off as int),
{
    read_u32(data, off) as u64 + read_u32(data, off + 4) as u64 * 4294967296
}

pub fn read_u128(data: &[u8], off: usize) -> (r: u128)
    requires
        off + 16 <= data.len(),
    ensures
        r == le_u128(data@, off as int),
{
    read_u64(data, off) as u128 + read_u64(data, off + 8) as u128 * 18446744073709551616
}

/// The `N` bytes at `off`.
pub fn read_bytes<const N: usize>(data: &[u8], off: usize) -> (r: [u8; N])
    requires
        off + N <= data.len(),
    ensures
        r@ == data@.subrange(off as int, off + N),
{
    let mut a = [0u8; N];
    let mut i: usize = 0;
    while i < N
        invariant
            i <= N,
            off + N <= data.len(),
            a@.len() == N,
            forall|k: int| 0 <= k < i ==> a@[k] == data@[off + k],
        decreases N - i,
    {
        a[i] = data[off + i];
        i = i + 1;
    }
    proof {
        assert(a@ =~= data@.subrange(off as int, off + N));
    }
    a
}

/// The address at `off`.
pub fn read_key(data: &[u8], off: usize) -> (r: Pubkey)
    requires
        off + 32 <= data.len(),
    ensures
        key_at(r, data@, off as int),
{
    Pubkey(read_bytes::<32>(data, off))
}

} // verus!
