//! Fixed-size little-endian record encoding.
//!
//! Every record encodes its fields in declaration order (integers little
//! endian, an `Option` as a presence byte followed by its value, an enum as
//! its variant number followed by its fields) and is then zero-padded to the
//! record's declared size. Decoding asks for exactly that size and ignores
//! the padding.
use crate::error::NftCanvasError;
use vstd::prelude::*;

verus! {

/// A record type with a fixed-size byte encoding.
pub trait Packable: Sized {
    /// The declared size of an encoded record.
    spec fn spec_packed_size() -> nat;

    /// The padded encoding of a record.
    spec fn spec_packed(&self) -> Seq<u8>;

    /// The record that a byte string decodes to, if any.
    spec fn spec_unpacked(data: Seq<u8>) -> Option<Self>;

    fn packed_size() -> (r: usize)
        ensures
            r == Self::spec_packed_size(),
    ;

    fn unpack(data: &[u8]) -> (r: Result<Self, NftCanvasError>)
        ensures
            match r {
                Ok(v) => Self::spec_unpacked(data@) == Some(v),
                Err(e) => Self::spec_unpacked(data@) is None && e == NftCanvasError::FailedToUnpackData,
            },
    ;

    fn pack(&self) -> (r: Vec<u8>)
        ensures
            r@ == self.spec_packed(),
            r@.len() == Self::spec_packed_size(),
    ;

    fn pack_into(&self, data: &mut [u8]) -> (r: Result<(), NftCanvasError>)
        ensures
            old(data)@.len() == Self::spec_packed_size() ==> r is Ok && final(data)@
                == self.spec_packed(),
            old(data)@.len() != Self::spec_packed_size() ==> r == Err::<(), NftCanvasError>(
                NftCanvasError::FailedToPackData,
            ) && final(data)@ == old(data)@,
    ;
}

/// The four little-endian bytes of a `u32`.
pub open spec fn u32_le(v: u32) -> Seq<u8> {
    seq![v as u8, (v >> 8u32) as u8, (v >> 16u32) as u8, (v >> 24u32) as u8]
}

/// The eight little-endian bytes of a `u64`.
pub open spec fn u64_le(v: u64) -> Seq<u8> {
    seq![
        v as u8,
        (v >> 8u64) as u8,
        (v >> 16u64) as u8,
        (v >> 24u64) as u8,
        (v >> 32u64) as u8,
        (v >> 40u64) as u8,
        (v >> 48u64) as u8,
        (v >> 56u64) as u8,
    ]
}

/// The `u32` whose little-endian bytes start at `i`.
pub open spec fn u32_at(s: Seq<u8>, i: int) -> u32 {
    (s[i] as u32) | ((s[i + 1] as u32) << 8u32) | ((s[i + 2] as u32) << 16u32) | ((s[i + 3] as u32)
        << 24u32)
}

/// The `u64` whose little-endian bytes start at `i`.
pub open spec fn u64_at(s: Seq<u8>, i: int) -> u64 {
    (s[i] as u64) | ((s[i + 1] as u64) << 8u64) | ((s[i + 2] as u64) << 16u64) | ((s[i + 3] as u64)
        << 24u64) | ((s[i + 4] as u64) << 32u64) | ((s[i + 5] as u64) << 40u64) | ((s[i + 6] as u64)
        << 48u64) | ((s[i + 7] as u64) << 56u64)
}

/// `s` followed by zeros up to length `n`.
pub open spec fn padded(s: Seq<u8>, n: nat) -> Seq<u8> {
    s + Seq::new((n - s.len()) as nat, |_i: int| 0u8)
}

/// Decoding the bytes of a `u32` gives it back.
pub proof fn lemma_u32_round_trip(v: u32, s: Seq<u8>, i: int)
    requires
        0 <= i,
        i + 4 <= s.len(),
        s.subrange(i, i + 4) == u32_le(v),
    ensures
        u32_at(s, i) == v,
{
    assert(s[i] == u32_le(v)[0]);
    assert(s[i + 1] == u32_le(v)[1]);
    assert(s[i + 2] == u32_le(v)[2]);
    assert(s[i + 3] == u32_le(v)[3]);
    let (b0, b1, b2, b3) = (s[i], s[i + 1], s[i + 2], s[i + 3]);
    assert(b0 == v as u8 && b1 == (v >> 8u32) as u8 && b2 == (v >> 16u32) as u8 && b3 == (v
        >> 24u32) as u8 ==> (b0 as u32) | ((b1 as u32) << 8u32) | ((b2 as u32) << 16u32) | ((
    b3 as u32) << 24u32) == v) by (bit_vector);
}

/// Decoding the bytes of a `u64` gives it back.
pub proof fn lemma_u64_round_trip(v: u64, s: Seq<u8>, i: int)
    requires
        0 <= i,
        i + 8 <= s.len(),
        s.subrange(i, i + 8) == u64_le(v),
    ensures
        u64_at(s, i) == v,
{
    assert forall|k: int| 0 <= k < 8 implies s[i + k] == u64_le(v)[k] by {
        assert(s.subrange(i, i + 8)[k] == s[i + k]);
    }
    let (b0, b1, b2, b3) = (s[i], s[i + 1], s[i + 2], s[i + 3]);
    let (b4, b5, b6, b7) = (s[i + 4], s[i + 5], s[i + 6], s[i + 7]);
    assert(s[i] == u64_le(v)[0]);
    assert(s[i + 7] == u64_le(v)[7]);
    assert(b0 == v as u8 && b1 == (v >> 8u64) as u8 && b2 == (v >> 16u64) as u8 && b3 == (v
        >> 24u64) as u8 && b4 == (v >> 32u64) as u8 && b5 == (v >> 40u64) as u8 && b6 == (v
        >> 48u64) as u8 && b7 == (v >> 56u64) as u8 ==> (b0 as u64) | ((b1 as u64) << 8u64) | ((
    b2 as u64) << 16u64) | ((b3 as u64) << 24u64) | ((b4 as u64) << 32u64) | ((b5 as u64)
        << 40u64) | ((b6 as u64) << 48u64) | ((b7 as u64) << 56u64) == v) by (bit_vector);
}

pub fn push_u32(out: &mut Vec<u8>, v: u32)
    ensures
        final(out)@ == old(out)@ + u32_le(v),
{
    out.push(v as u8);
    out.push((v >> 8u32) as u8);
    out.push((v >> 16u32) as u8);
    out.push((v >> 24u32) as u8);
    assert(final(out)@ =~= old(out)@ + u32_le(v));
}

pub fn push_u64(out: &mut Vec<u8>, v: u64)
    ensures
        final(out)@ == old(out)@ + u64_le(v),
{
    out.push(v as u8);
    out.push((v >> 8u64) as u8);
    out.push((v >> 16u64) as u8);
    out.push((v >> 24u64) as u8);
    out.push((v >> 32u64) as u8);
    out.push((v >> 40u64) as u8);
    out.push((v >> 48u64) as u8);
    out.push((v >> 56u64) as u8);
    assert(final(out)@ =~= old(out)@ + u64_le(v));
}

pub fn push_bytes(out: &mut Vec<u8>, bytes: &[u8])
    ensures
        final(out)@ == old(out)@ + bytes@,
{
    let mut i: usize = 0;
    while i < bytes.len()
        invariant
            0 <= i <= bytes@.len(),
            out@ == old(out)@ + bytes@.subrange(0, i as int),
        decreases bytes@.len() - i,
    {
        out.push(bytes[i]);
        i = i + 1;
        assert(out@ =~= old(out)@ + bytes@.subrange(0, i as int));
    }
    assert(bytes@.subrange(0, i as int) =~= bytes@);
}

/// Appends zeros to `out` until it is `n` bytes long.
pub fn pad_to(out: &mut Vec<u8>, n: usize)
    requires
        old(out)@.len() <= n,
    ensures
        final(out)@ == padded(old(out)@, n as nat),
{
    let ghost start = out@;
    while out.len() < n
        invariant
            start.len() <= out@.len() <= n,
            out@ == padded(start, out@.len()),
        decreases n - out@.len(),
    {
        out.push(0u8);
        assert(out@ =~= padded(start, out@.len()));
    }
}

pub fn read_u32(data: &[u8], i: usize) -> (r: u32)
    requires
        i + 4 <= data@.len(),
    ensures
        r == u32_at(data@, i as int),
{
    (data[i] as u32) | ((data[i + 1] as u32) << 8u32) | ((data[i + 2] as u32) << 16u32) | ((
    data[i + 3] as u32) << 24u32)
}

pub fn read_u64(data: &[u8], i: usize) -> (r: u64)
    requires
        i + 8 <= data@.len(),
    ensures
        r == u64_at(data@, i as int),
{
    (data[i] as u64) | ((data[i + 1] as u64) << 8u64) | ((data[i + 2] as u64) << 16u64) | ((
    data[i + 3] as u64) << 24u64) | ((data[i + 4] as u64) << 32u64) | ((data[i + 5] as u64)
        << 40u64) | ((data[i + 6] as u64) << 48u64) | ((data[i + 7] as u64) << 56u64)
}

/// Copies `src` over `dst`, which has the same length.
pub fn copy_bytes(dst: &mut [u8], src: &Vec<u8>)
    requires
        old(dst)@.len() == src@.len(),
    ensures
        final(dst)@ == src@,
{
    let mut i: usize = 0;
    while i < src.len()
        invariant
            0 <= i <= src@.len(),
            dst@.len() == src@.len(),
            forall|j: int| 0 <= j < i ==> dst@[j] == src@[j],
        decreases src@.len() - i,
    {
        dst[i] = src[i];
        i = i + 1;
    }
    assert(dst@ =~= src@);
}

} // verus!
