//! Little-endian field access inside byte buffers.
//!
//! Every on-disk record of the crate is decoded and encoded through these
//! helpers, field by field at fixed offsets, so no record layout ever depends
//! on in-memory representation or alignment.

use vstd::prelude::*;

verus! {

/// The 16-bit little-endian value stored at offset `i` of `b`.
pub open spec fn le16(b: Seq<u8>, i: int) -> u16 {
    (b[i] as u16) | ((b[i + 1] as u16) << 8)
}

/// The 32-bit little-endian value stored at offset `i` of `b`.
pub open spec fn le32(b: Seq<u8>, i: int) -> u32 {
    (b[i] as u32) | ((b[i + 1] as u32) << 8) | ((b[i + 2] as u32) << 16) | ((b[i + 3] as u32)
        << 24)
}

/// Reads the 16-bit little-endian value at offset `i` of `data`.
pub fn read_u16_le(data: &Vec<u8>, i: usize) -> (r: u16)
    requires
        i + 2 <= data@.len(),
    ensures
        r == le16(data@, i as int),
{
    proof {
        assert(data@.len() == data.len());
    }
    (data[i] as u16) | ((data[i + 1] as u16) << 8u16)
}

/// Reads the 32-bit little-endian value at offset `i` of `data`.
pub fn read_u32_le(data: &Vec<u8>, i: usize) -> (r: u32)
    requires
        i + 4 <= data@.len(),
    ensures
        r == le32(data@, i as int),
{
    proof {
        assert(data@.len() == data.len());
    }
    (data[i] as u32) | ((data[i + 1] as u32) << 8u32) | ((data[i + 2] as u32) << 16u32) | ((data[i
        + 3] as u32) << 24u32)
}

/// Stores `v` at offset `i` of `data` as a 16-bit little-endian value; all
/// other bytes keep their value.
pub fn write_u16_le(data: &mut Vec<u8>, i: usize, v: u16)
    requires
        i + 2 <= old(data)@.len(),
    ensures
        final(data)@.len() == old(data)@.len(),
        le16(final(data)@, i as int) == v,
        forall|j: int|
            0 <= j < final(data)@.len() && !(i <= j < i + 2) ==> final(data)@[j] == old(data)@[j],
{
    proof {
        assert(old(data)@.len() == old(data).len());
    }
    let b0: u8 = (v & 0xFF) as u8;
    let b1: u8 = ((v >> 8u16) & 0xFF) as u8;
    data.set(i, b0);
    data.set(i + 1, b1);
    proof {
        assert(((v & 0xFF) as u8) as u16 | ((((v >> 8u16) & 0xFF) as u8) as u16) << 8 == v)
            by (bit_vector);
    }
}

/// Stores `v` at offset `i` of `data` as a 32-bit little-endian value; all
/// other bytes keep their value.
pub fn write_u32_le(data: &mut Vec<u8>, i: usize, v: u32)
    requires
        i + 4 <= old(data)@.len(),
    ensures
        final(data)@.len() == old(data)@.len(),
        le32(final(data)@, i as int) == v,
        forall|j: int|
            0 <= j < final(data)@.len() && !(i <= j < i + 4) ==> final(data)@[j] == old(data)@[j],
{
    proof {
        assert(old(data)@.len() == old(data).len());
    }
    let b0: u8 = (v & 0xFF) as u8;
    let b1: u8 = ((v >> 8u32) & 0xFF) as u8;
    let b2: u8 = ((v >> 16u32) & 0xFF) as u8;
    let b3: u8 = ((v >> 24u32) & 0xFF) as u8;
    data.set(i, b0);
    data.set(i + 1, b1);
    data.set(i + 2, b2);
    data.set(i + 3, b3);
    proof {
        assert(((v & 0xFF) as u8) as u32 | ((((v >> 8u32) & 0xFF) as u8) as u32) << 8 | ((((v
            >> 16u32) & 0xFF) as u8) as u32) << 16 | ((((v >> 24u32) & 0xFF) as u8) as u32) << 24
            == v) by (bit_vector);
    }
}

/// A fresh buffer of `n` zero bytes.
pub fn zero_buffer(n: usize) -> (r: Vec<u8>)
    ensures
        r@.len() == n,
        forall|j: int| 0 <= j < n ==> r@[j] == 0u8,
{
    let mut r: Vec<u8> = Vec::new();
    let mut k: usize = 0;
    while k < n
        invariant
            k <= n,
            r@.len() == k,
            forall|j: int| 0 <= j < k ==> r@[j] == 0u8,
        decreases n - k,
    {
        r.push(0u8);
        k = k + 1;
    }
    r
}

/// A copy of `len` bytes of `src` starting at `start`.
pub fn copy_range(src: &Vec<u8>, start: usize, len: usize) -> (r: Vec<u8>)
    requires
        start + len <= src@.len(),
    ensures
        r@ == src@.subrange(start as int, start as int + len as int),
{
    proof {
        assert(src@.len() == src.len());
    }
    let mut r: Vec<u8> = Vec::new();
    let mut k: usize = 0;
    while k < len
        invariant
            k <= len,
            start + len <= src@.len(),
            src@.len() <= usize::MAX,
            r@.len() == k,
            forall|j: int| 0 <= j < k ==> r@[j] == src@[start + j],
        decreases len - k,
    {
        r.push(src[start + k]);
        k = k + 1;
    }
    proof {
        assert(r@ =~= src@.subrange(start as int, start as int + len as int));
    }
    r
}

/// Overwrites `dst` at offset `at` with the whole of `src`; all other bytes
/// keep their value.
pub fn copy_into(dst: &mut Vec<u8>, at: usize, src: &Vec<u8>)
    requires
        at + src@.len() <= old(dst)@.len(),
    ensures
        final(dst)@.len() == old(dst)@.len(),
        forall|j: int|
            0 <= j < final(dst)@.len() && !(at <= j < at + src@.len()) ==> final(dst)@[j] == old(
                dst,
            )@[j],
        forall|j: int| at <= j < at + src@.len() ==> final(dst)@[j] == src@[j - at],
{
    proof {
        assert(old(dst)@.len() == old(dst).len());
    }
    let n: usize = src.len();
    let mut k: usize = 0;
    while k < n
        invariant
            k <= n,
            n == src@.len(),
            at + n <= dst@.len(),
            dst@.len() == old(dst)@.len(),
            dst@.len() <= usize::MAX,
            forall|j: int| 0 <= j < dst@.len() && !(at <= j < at + n) ==> dst@[j] == old(dst)@[j],
            forall|j: int| at <= j < at + k ==> dst@[j] == src@[j - at],
        decreases n - k,
    {
        dst.set(at + k, src[k]);
        k = k + 1;
    }
}

} // verus!
