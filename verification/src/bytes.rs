//! Little-endian encoding of integers and byte-buffer helpers shared by the binary writers.

use vstd::prelude::*;

verus! {

/// The bit pattern of an IEEE-754 single-precision value (what `f32::to_bits` returns).
///
/// Its little-endian bytes are the little-endian bytes of the float itself.
pub type FloatBits = u32;

/// Four little-endian bytes of `v` taken modulo 2^32 (what `(v as u32).to_le_bytes()` gives).
#[verifier::opaque]
pub open spec fn u32_le(v: int) -> Seq<u8> {
    let w = v % 0x1_0000_0000;
    seq![
        (w % 256) as u8,
        ((w / 256) % 256) as u8,
        ((w / 0x1_0000) % 256) as u8,
        ((w / 0x100_0000) % 256) as u8,
    ]
}

/// The two little-endian bytes of `v`.
pub open spec fn u16_le(v: int) -> Seq<u8> {
    seq![(v % 256) as u8, ((v / 256) % 256) as u8]
}

/// Reads the unsigned 32-bit little-endian number stored at `off` in `s`.
pub open spec fn read_u32_le(s: Seq<u8>, off: int) -> int {
    s[off] as int + 256 * s[off + 1] as int + 0x1_0000 * s[off + 2] as int + 0x100_0000 * s[off + 3] as int
}

/// Concatenation of the little-endian encodings of all values of `vals`.
pub open spec fn u32s_le(vals: Seq<u32>) -> Seq<u8>
    decreases vals.len(),
{
    if vals.len() == 0 {
        Seq::empty()
    } else {
        u32s_le(vals.drop_last()) + u32_le(vals.last() as int)
    }
}

/// Number of bytes that bring a length of `n` to the next multiple of four.
pub open spec fn pad4(n: int) -> int {
    (4 - n % 4) % 4
}

/// `n` bytes, each equal to `b`.
pub open spec fn fill(b: u8, n: int) -> Seq<u8> {
    Seq::new(n as nat, |i: int| b)
}

/// Every encoding is four bytes long.
pub broadcast proof fn lemma_u32_le_len(v: int)
    ensures
        #[trigger] u32_le(v).len() == 4,
{
    reveal(u32_le);
}

/// Decoding what [`u32_le`] wrote gives the value back, modulo 2^32.
pub proof fn lemma_read_u32_le(v: int, pre: Seq<u8>, post: Seq<u8>)
    ensures
        read_u32_le(pre + u32_le(v) + post, pre.len() as int) == v % 0x1_0000_0000,
{
    reveal(u32_le);
    let s = pre + u32_le(v) + post;
    let o = pre.len() as int;
    let w = v % 0x1_0000_0000;
    assert(s[o] == (w % 256) as u8);
    assert(s[o + 1] == ((w / 256) % 256) as u8);
    assert(s[o + 2] == ((w / 0x1_0000) % 256) as u8);
    assert(s[o + 3] == ((w / 0x100_0000) % 256) as u8);
    assert(0 <= w < 0x1_0000_0000);
    assert(w % 256 + 256 * ((w / 256) % 256) + 0x1_0000 * ((w / 0x1_0000) % 256) + 0x100_0000 * ((
    w / 0x100_0000) % 256) == w) by (nonlinear_arith)
        requires
            0 <= w < 0x1_0000_0000,
    ;
}

/// Appends the four little-endian bytes of `v`.
pub fn push_u32_le(out: &mut Vec<u8>, v: u32)
    ensures
        final(out)@ == old(out)@ + u32_le(v as int),
{
    reveal(u32_le);
    out.push((v % 256) as u8);
    out.push(((v / 256) % 256) as u8);
    out.push(((v / 0x1_0000) % 256) as u8);
    out.push(((v / 0x100_0000) % 256) as u8);
    assert(final(out)@ =~= old(out)@ + u32_le(v as int));
}

/// Appends the two little-endian bytes of `v`.
pub fn push_u16_le(out: &mut Vec<u8>, v: u16)
    ensures
        final(out)@ == old(out)@ + u16_le(v as int),
{
    out.push((v % 256) as u8);
    out.push(((v / 256) % 256) as u8);
    assert(final(out)@ =~= old(out)@ + u16_le(v as int));
}

/// Appends every byte of `data`.
pub fn append_bytes(out: &mut Vec<u8>, data: &[u8])
    ensures
        final(out)@ == old(out)@ + data@,
{
    let ghost start = out@;
    let mut i: usize = 0;
    while i < data.len()
        invariant
            i <= data@.len(),
            out@ == start + data@.subrange(0, i as int),
        decreases data@.len() - i,
    {
        out.push(data[i]);
        i = i + 1;
        assert(out@ =~= start + data@.subrange(0, i as int));
    }
    assert(data@.subrange(0, i as int) =~= data@);
}

/// Appends `n` copies of the byte `b`.
pub fn append_fill(out: &mut Vec<u8>, b: u8, n: usize)
    ensures
        final(out)@ == old(out)@ + fill(b, n as int),
{
    let ghost start = out@;
    let mut i: usize = 0;
    while i < n
        invariant
            i <= n,
            out@ == start + fill(b, i as int),
        decreases n - i,
    {
        out.push(b);
        i = i + 1;
        assert(out@ =~= start + fill(b, i as int));
    }
}

/// Appends the little-endian encodings of all `vals`, in order.
pub fn append_u32s_le(out: &mut Vec<u8>, vals: &[u32])
    ensures
        final(out)@ == old(out)@ + u32s_le(vals@),
{
    let ghost start = out@;
    let mut i: usize = 0;
    while i < vals.len()
        invariant
            i <= vals@.len(),
            out@ == start + u32s_le(vals@.subrange(0, i as int)),
        decreases vals@.len() - i,
    {
        push_u32_le(out, vals[i]);
        i = i + 1;
        assert(vals@.subrange(0, i as int).drop_last() =~= vals@.subrange(0, i - 1));
        assert(out@ =~= start + u32s_le(vals@.subrange(0, i as int)));
    }
    assert(vals@.subrange(0, i as int) =~= vals@);
}

/// The number of padding bytes that makes `len` a multiple of four.
pub fn padding_for(len: usize) -> (p: usize)
    ensures
        p as int == pad4(len as int),
        p < 4,
        (len + p) % 4 == 0,
{
    (4 - len % 4) % 4
}

/// The values of a sequence of arrays, array after array.
pub open spec fn flatten<const N: usize>(s: Seq<[u32; N]>) -> Seq<u32>
    decreases s.len(),
{
    if s.len() == 0 {
        Seq::empty()
    } else {
        flatten(s.drop_last()) + s.last()@
    }
}

/// Encoding a concatenation encodes each part in turn.
pub proof fn lemma_u32s_le_append(a: Seq<u32>, b: Seq<u32>)
    ensures
        u32s_le(a + b) == u32s_le(a) + u32s_le(b),
    decreases b.len(),
{
    if b.len() == 0 {
        assert(a + b =~= a);
        assert(u32s_le(a) + u32s_le(b) =~= u32s_le(a));
    } else {
        lemma_u32s_le_append(a, b.drop_last());
        assert((a + b).drop_last() =~= a + b.drop_last());
        assert((a + b).last() == b.last());
        assert(u32s_le(a + b) =~= u32s_le(a) + u32s_le(b));
    }
}

/// Appends the little-endian encodings of the values of all arrays of `vals`, array after
/// array.
pub fn append_arrays_le<const N: usize>(out: &mut Vec<u8>, vals: &[[u32; N]])
    ensures
        final(out)@ == old(out)@ + u32s_le(flatten(vals@)),
{
    let ghost start = out@;
    let mut i: usize = 0;
    while i < vals.len()
        invariant
            i <= vals@.len(),
            out@ == start + u32s_le(flatten(vals@.subrange(0, i as int))),
        decreases vals@.len() - i,
    {
        let arr: &[u32; N] = &vals[i];
        let ghost before = out@;
        let mut j: usize = 0;
        while j < N
            invariant
                j <= N,
                arr@.len() == N,
                out@ == before + u32s_le(arr@.subrange(0, j as int)),
            decreases N - j,
        {
            push_u32_le(out, arr[j]);
            j = j + 1;
            assert(arr@.subrange(0, j as int).drop_last() =~= arr@.subrange(0, j - 1));
            assert(out@ =~= before + u32s_le(arr@.subrange(0, j as int)));
        }
        assert(arr@.subrange(0, j as int) =~= arr@);
        let ghost prefix = vals@.subrange(0, i as int);
        i = i + 1;
        proof {
            assert(vals@.subrange(0, i as int).drop_last() =~= prefix);
            assert(flatten(vals@.subrange(0, i as int)) == flatten(prefix) + arr@);
            lemma_u32s_le_append(flatten(prefix), arr@);
        }
        assert(out@ =~= start + u32s_le(flatten(vals@.subrange(0, i as int))));
    }
    assert(vals@.subrange(0, i as int) =~= vals@);
}

/// Each value is encoded in four bytes.
pub proof fn lemma_u32s_le_len(vals: Seq<u32>)
    ensures
        u32s_le(vals).len() == 4 * vals.len(),
    decreases vals.len(),
{
    broadcast use lemma_u32_le_len;

    if vals.len() > 0 {
        lemma_u32s_le_len(vals.drop_last());
    }
}

/// Flattening `s` gives `N` values per array.
pub proof fn lemma_flatten_len<const N: usize>(s: Seq<[u32; N]>)
    ensures
        flatten(s).len() == N * s.len(),
    decreases s.len(),
{
    if s.len() > 0 {
        lemma_flatten_len(s.drop_last());
        let k = s.len() as int;
        assert(N * (k - 1) + N == N * k) by (nonlinear_arith);
    }
}

} // verus!
