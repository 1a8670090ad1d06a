//! Little-endian fixed-width integer encoding, the byte-level foundation of
//! the pre-digest codec and of the vote payloads.

use vstd::prelude::*;

verus! {

/// The four bytes of `x`, least significant first.
pub open spec fn u32_le_bytes(x: u32) -> Seq<u8> {
    seq![
        (x & 0xff) as u8,
        ((x >> 8) & 0xff) as u8,
        ((x >> 16) & 0xff) as u8,
        ((x >> 24) & 0xff) as u8,
    ]
}

/// The eight bytes of `x`, least significant first.
pub open spec fn u64_le_bytes(x: u64) -> Seq<u8> {
    seq![
        (x & 0xff) as u8,
        ((x >> 8) & 0xff) as u8,
        ((x >> 16) & 0xff) as u8,
        ((x >> 24) & 0xff) as u8,
        ((x >> 32) & 0xff) as u8,
        ((x >> 40) & 0xff) as u8,
        ((x >> 48) & 0xff) as u8,
        ((x >> 56) & 0xff) as u8,
    ]
}

/// The integer whose little-endian bytes are `s`.
pub open spec fn u32_from_le(s: Seq<u8>) -> u32
    recommends
        s.len() == 4,
{
    (s[0] as u32) | ((s[1] as u32) << 8) | ((s[2] as u32) << 16) | ((s[3] as u32) << 24)
}

/// The integer whose little-endian bytes are `s`.
pub open spec fn u64_from_le(s: Seq<u8>) -> u64
    recommends
        s.len() == 8,
{
    (s[0] as u64) | ((s[1] as u64) << 8) | ((s[2] as u64) << 16) | ((s[3] as u64) << 24)
        | ((s[4] as u64) << 32) | ((s[5] as u64) << 40) | ((s[6] as u64) << 48)
        | ((s[7] as u64) << 56)
}

/// Reading back the four little-endian bytes of `x` yields `x`.
pub proof fn lemma_u32_le_round_trip(x: u32)
    ensures
        u32_from_le(u32_le_bytes(x)) == x,
{
    assert(((x & 0xff) as u8 as u32) | (((x >> 8) & 0xff) as u8 as u32) << 8
        | (((x >> 16) & 0xff) as u8 as u32) << 16 | (((x >> 24) & 0xff) as u8 as u32) << 24
        == x) by (bit_vector);
}

/// Reading back the eight little-endian bytes of `x` yields `x`.
pub proof fn lemma_u64_le_round_trip(x: u64)
    ensures
        u64_from_le(u64_le_bytes(x)) == x,
{
    assert(((x & 0xff) as u8 as u64) | (((x >> 8) & 0xff) as u8 as u64) << 8
        | (((x >> 16) & 0xff) as u8 as u64) << 16 | (((x >> 24) & 0xff) as u8 as u64) << 24
        | (((x >> 32) & 0xff) as u8 as u64) << 32 | (((x >> 40) & 0xff) as u8 as u64) << 40
        | (((x >> 48) & 0xff) as u8 as u64) << 48 | (((x >> 56) & 0xff) as u8 as u64) << 56
        == x) by (bit_vector);
}

/// Appends the four little-endian bytes of `x` to `out`.
pub fn push_u32_le(out: &mut Vec<u8>, x: u32)
    ensures
        final(out)@ == old(out)@ + u32_le_bytes(x),
{
    proof {
        assert(x & 0xff < 256 && (x >> 8) & 0xff < 256 && (x >> 16) & 0xff < 256
            && (x >> 24) & 0xff < 256) by (bit_vector);
    }
    out.push((x & 0xff) as u8);
    out.push(((x >> 8) & 0xff) as u8);
    out.push(((x >> 16) & 0xff) as u8);
    out.push(((x >> 24) & 0xff) as u8);
    assert(out@ =~= old(out)@ + u32_le_bytes(x));
}

/// Appends the eight little-endian bytes of `x` to `out`.
pub fn push_u64_le(out: &mut Vec<u8>, x: u64)
    ensures
        final(out)@ == old(out)@ + u64_le_bytes(x),
{
    proof {
        assert(x & 0xff < 256 && (x >> 8) & 0xff < 256 && (x >> 16) & 0xff < 256
            && (x >> 24) & 0xff < 256 && (x >> 32) & 0xff < 256 && (x >> 40) & 0xff < 256
            && (x >> 48) & 0xff < 256 && (x >> 56) & 0xff < 256) by (bit_vector);
    }
    out.push((x & 0xff) as u8);
    out.push(((x >> 8) & 0xff) as u8);
    out.push(((x >> 16) & 0xff) as u8);
    out.push(((x >> 24) & 0xff) as u8);
    out.push(((x >> 32) & 0xff) as u8);
    out.push(((x >> 40) & 0xff) as u8);
    out.push(((x >> 48) & 0xff) as u8);
    out.push(((x >> 56) & 0xff) as u8);
    assert(out@ =~= old(out)@ + u64_le_bytes(x));
}

/// Reads the four little-endian bytes starting at `off`.
pub fn read_u32_le(s: &Vec<u8>, off: usize) -> (r: u32)
    requires
        off + 4 <= s@.len(),
    ensures
        r == u32_from_le(s@.subrange(off as int, off as int + 4)),
{
    let n: usize = s.len();
    assert(off + 4 <= n);
    let r = (s[off] as u32) | ((s[off + 1] as u32) << 8) | ((s[off + 2] as u32) << 16)
        | ((s[off + 3] as u32) << 24);
    proof {
        let sub = s@.subrange(off as int, off as int + 4);
        assert(sub[0] == s@[off as int] && sub[1] == s@[off as int + 1]
            && sub[2] == s@[off as int + 2] && sub[3] == s@[off as int + 3]);
    }
    r
}

/// Reads the eight little-endian bytes starting at `off`.
pub fn read_u64_le(s: &Vec<u8>, off: usize) -> (r: u64)
    requires
        off + 8 <= s@.len(),
    ensures
        r == u64_from_le(s@.subrange(off as int, off as int + 8)),
{
    let n: usize = s.len();
    assert(off + 8 <= n);
    let r = (s[off] as u64) | ((s[off + 1] as u64) << 8) | ((s[off + 2] as u64) << 16)
        | ((s[off + 3] as u64) << 24) | ((s[off + 4] as u64) << 32)
        | ((s[off + 5] as u64) << 40) | ((s[off + 6] as u64) << 48)
        | ((s[off + 7] as u64) << 56);
    proof {
        let sub = s@.subrange(off as int, off as int + 8);
        assert(sub[0] == s@[off as int] && sub[1] == s@[off as int + 1]
            && sub[2] == s@[off as int + 2] && sub[3] == s@[off as int + 3]
            && sub[4] == s@[off as int + 4] && sub[5] == s@[off as int + 5]
            && sub[6] == s@[off as int + 6] && sub[7] == s@[off as int + 7]);
    }
    r
}

/// Compares two byte strings by content.
pub fn bytes_equal(a: &Vec<u8>, b: &Vec<u8>) -> (r: bool)
    ensures
        r == (a@ == b@),
{
    if a.len() != b.len() {
        return false;
    }
    let mut i: usize = 0;
    while i < a.len()
        invariant
            a@.len() == b@.len(),
            i <= a@.len(),
            forall|j: int| 0 <= j < i ==> a@[j] == b@[j],
        decreases a@.len() - i,
    {
        if a[i] != b[i] {
            return false;
        }
        i = i + 1;
    }
    assert(a@ =~= b@);
    true
}

/// Appends all of `src` to `out`.
pub fn append_bytes(out: &mut Vec<u8>, src: &Vec<u8>)
    ensures
        final(out)@ == old(out)@ + src@,
{
    let mut i: usize = 0;
    while i < src.len()
        invariant
            i <= src@.len(),
            out@ == old(out)@ + src@.subrange(0, i as int),
        decreases src@.len() - i,
    {
        out.push(src[i]);
        i = i + 1;
        assert(out@ =~= old(out)@ + src@.subrange(0, i as int));
    }
    assert(out@ =~= old(out)@ + src@);
}

/// Copies `len` bytes of `s` starting at `start` into a fresh vector.
pub fn copy_range(s: &Vec<u8>, start: usize, len: usize) -> (r: Vec<u8>)
    requires
        start + len <= s@.len(),
    ensures
        r@ == s@.subrange(start as int, start as int + len as int),
{
    let n: usize = s.len();
    assert(start + len <= n);
    let mut r: Vec<u8> = Vec::new();
    let mut i: usize = 0;
    while i < len
        invariant
            start + len <= s@.len(),
            s@.len() <= usize::MAX,
            i <= len,
            r@ == s@.subrange(start as int, start as int + i as int),
        decreases len - i,
    {
        r.push(s[start + i]);
        i = i + 1;
        assert(r@ =~= s@.subrange(start as int, start as int + i as int));
    }
    r
}

} // verus!
