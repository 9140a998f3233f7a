//! Small verified helpers on byte vectors.

use vstd::prelude::*;

verus! {

/// Every byte of the sequence is zero.
pub open spec fn spec_all_zero(s: Seq<u8>) -> bool {
    forall|i: int| 0 <= i < s.len() ==> s[i] == 0
}

/// The eight big-endian bytes of a 64-bit integer.
pub open spec fn spec_u64_be(x: u64) -> Seq<u8> {
    seq![
        (x >> 56) as u8,
        (x >> 48) as u8,
        (x >> 40) as u8,
        (x >> 32) as u8,
        (x >> 24) as u8,
        (x >> 16) as u8,
        (x >> 8) as u8,
        x as u8,
    ]
}

/// The eight little-endian bytes of a 64-bit integer.
pub open spec fn spec_u64_le(x: u64) -> Seq<u8> {
    seq![
        x as u8,
        (x >> 8) as u8,
        (x >> 16) as u8,
        (x >> 24) as u8,
        (x >> 32) as u8,
        (x >> 40) as u8,
        (x >> 48) as u8,
        (x >> 56) as u8,
    ]
}

/// Whether the whole vector is zero bytes.
pub fn all_zero(v: &Vec<u8>) -> (r: bool)
    ensures
        r == spec_all_zero(v@),
{
    let n = v.len();
    let mut i: usize = 0;
    while i < n
        invariant
            i <= n,
            n == v@.len(),
            forall|j: int| 0 <= j < i ==> v@[j] == 0,
        decreases n - i,
    {
        if v[i] != 0 {
            return false;
        }
        i = i + 1;
    }
    true
}

/// Whether two byte vectors hold the same bytes.
pub fn bytes_eq(a: &Vec<u8>, b: &Vec<u8>) -> (r: bool)
    ensures
        r == (a@ == b@),
{
    let n = a.len();
    if n != b.len() {
        return false;
    }
    let mut i: usize = 0;
    while i < n
        invariant
            i <= n,
            n == a@.len() == b@.len(),
            forall|j: int| 0 <= j < i ==> a@[j] == b@[j],
        decreases n - i,
    {
        if a[i] != b[i] {
            return false;
        }
        i = i + 1;
    }
    proof {
        assert(a@ =~= b@);
    }
    true
}

/// Append the bytes of `src` to `out`.
pub fn bytes_extend(out: &mut Vec<u8>, src: &Vec<u8>)
    ensures
        final(out)@ == old(out)@ + src@,
{
    let n = src.len();
    let mut i: usize = 0;
    while i < n
        invariant
            i <= n,
            n == src@.len(),
            out@ =~= old(out)@ + src@.subrange(0, i as int),
        decreases n - i,
    {
        out.push(src[i]);
        proof {
            assert(out@ =~= old(out)@ + src@.subrange(0, i + 1));
        }
        i = i + 1;
    }
    proof {
        assert(out@ =~= old(out)@ + src@);
    }
}

/// Copy a byte vector.
pub fn bytes_clone(v: &Vec<u8>) -> (r: Vec<u8>)
    ensures
        r@ == v@,
{
    let r = bytes_range(v, 0, v.len());
    proof {
        assert(r@ =~= v@);
    }
    r
}

/// Copy the byte range `[from, to)` out of a vector.
pub fn bytes_range(v: &Vec<u8>, from: usize, to: usize) -> (r: Vec<u8>)
    requires
        from <= to <= v@.len(),
    ensures
        r@ == v@.subrange(from as int, to as int),
{
    let mut r: Vec<u8> = Vec::new();
    let mut i: usize = from;
    while i < to
        invariant
            from <= i <= to <= v@.len(),
            r@ =~= v@.subrange(from as int, i as int),
        decreases to - i,
    {
        r.push(v[i]);
        proof {
            assert(r@ =~= v@.subrange(from as int, i + 1));
        }
        i = i + 1;
    }
    proof {
        assert(r@ =~= v@.subrange(from as int, to as int));
    }
    r
}

/// Append the eight big-endian bytes of `x` to `out`.
pub fn push_u64_be(out: &mut Vec<u8>, x: u64)
    ensures
        final(out)@ == old(out)@ + spec_u64_be(x),
{
    out.push((x >> 56) as u8);
    out.push((x >> 48) as u8);
    out.push((x >> 40) as u8);
    out.push((x >> 32) as u8);
    out.push((x >> 24) as u8);
    out.push((x >> 16) as u8);
    out.push((x >> 8) as u8);
    out.push(x as u8);
    proof {
        assert(out@ =~= old(out)@ + spec_u64_be(x));
    }
}

/// Append the eight little-endian bytes of `x` to `out`.
pub fn push_u64_le(out: &mut Vec<u8>, x: u64)
    ensures
        final(out)@ == old(out)@ + spec_u64_le(x),
{
    out.push(x as u8);
    out.push((x >> 8) as u8);
    out.push((x >> 16) as u8);
    out.push((x >> 24) as u8);
    out.push((x >> 32) as u8);
    out.push((x >> 40) as u8);
    out.push((x >> 48) as u8);
    out.push((x >> 56) as u8);
    proof {
        assert(out@ =~= old(out)@ + spec_u64_le(x));
    }
}

/// Read back the little-endian 64-bit integer at `at` in `v`.
pub fn read_u64_le(v: &Vec<u8>, at: usize) -> (x: u64)
    requires
        at + 8 <= v@.len(),
    ensures
        spec_u64_le(x) == v@.subrange(at as int, at + 8),
{
    let n = v.len();
    assert(at + 8 <= n);
    let x: u64 = (v[at] as u64) | ((v[at + 1] as u64) << 8) | ((v[at + 2] as u64) << 16) | ((v[at
        + 3] as u64) << 24) | ((v[at + 4] as u64) << 32) | ((v[at + 5] as u64) << 40) | ((v[at
        + 6] as u64) << 48) | ((v[at + 7] as u64) << 56);
    proof {
        let b0 = v@[at as int];
        let b1 = v@[at + 1];
        let b2 = v@[at + 2];
        let b3 = v@[at + 3];
        let b4 = v@[at + 4];
        let b5 = v@[at + 5];
        let b6 = v@[at + 6];
        let b7 = v@[at + 7];
        lemma_u64_le_bytes(b0, b1, b2, b3, b4, b5, b6, b7);
        assert(spec_u64_le(x) =~= v@.subrange(at as int, at + 8));
    }
    x
}

/// Reading eight bytes as a little-endian integer and serializing it again
/// gives back the same bytes.
proof fn lemma_u64_le_bytes(b0: u8, b1: u8, b2: u8, b3: u8, b4: u8, b5: u8, b6: u8, b7: u8)
    ensures
        ({
            let y = (b0 as u64) | ((b1 as u64) << 8) | ((b2 as u64) << 16) | ((b3 as u64) << 24)
                | ((b4 as u64) << 32) | ((b5 as u64) << 40) | ((b6 as u64) << 48) | ((
            b7 as u64) << 56);
            y as u8 == b0 && (y >> 8) as u8 == b1 && (y >> 16) as u8 == b2 && (y >> 24) as u8 == b3
                && (y >> 32) as u8 == b4 && (y >> 40) as u8 == b5 && (y >> 48) as u8 == b6 && (y
                >> 56) as u8 == b7
        }),
{
    assert(({
        let y = (b0 as u64) | ((b1 as u64) << 8) | ((b2 as u64) << 16) | ((b3 as u64) << 24) | ((
        b4 as u64) << 32) | ((b5 as u64) << 40) | ((b6 as u64) << 48) | ((b7 as u64) << 56);
        y as u8 == b0 && (y >> 8) as u8 == b1 && (y >> 16) as u8 == b2 && (y >> 24) as u8 == b3
            && (y >> 32) as u8 == b4 && (y >> 40) as u8 == b5 && (y >> 48) as u8 == b6 && (y
            >> 56) as u8 == b7
    })) by (bit_vector);
}

/// The little-endian encoding is injective: equal byte strings decode to
/// the same integer.
pub proof fn lemma_u64_le_injective(x: u64, y: u64)
    requires
        spec_u64_le(x) == spec_u64_le(y),
    ensures
        x == y,
{
    assert(spec_u64_le(x)[0] == spec_u64_le(y)[0] && spec_u64_le(x)[1] == spec_u64_le(y)[1]
        && spec_u64_le(x)[2] == spec_u64_le(y)[2] && spec_u64_le(x)[3] == spec_u64_le(y)[3]
        && spec_u64_le(x)[4] == spec_u64_le(y)[4] && spec_u64_le(x)[5] == spec_u64_le(y)[5]
        && spec_u64_le(x)[6] == spec_u64_le(y)[6] && spec_u64_le(x)[7] == spec_u64_le(y)[7]);
    assert(x as u8 == y as u8 && (x >> 8) as u8 == (y >> 8) as u8 && (x >> 16) as u8 == (y
        >> 16) as u8 && (x >> 24) as u8 == (y >> 24) as u8 && (x >> 32) as u8 == (y >> 32) as u8
        && (x >> 40) as u8 == (y >> 40) as u8 && (x >> 48) as u8 == (y >> 48) as u8 && (x
        >> 56) as u8 == (y >> 56) as u8 ==> x == y) by (bit_vector);
}

} // verus!
