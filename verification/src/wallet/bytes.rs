//! Little-endian integers and fixed-width fields inside a byte string.

use vstd::prelude::*;

verus! {

/// The four bytes of `x`, least significant first.
pub open spec fn le_bytes(x: u32) -> Seq<u8> {
    seq![
        (x % 256) as u8,
        ((x / 256) % 256) as u8,
        ((x / 65536) % 256) as u8,
        (x / 16777216) as u8,
    ]
}

/// The number whose little-endian bytes are the first four of `b`.
pub open spec fn le_value(b: Seq<u8>) -> int
    recommends
        b.len() >= 4,
{
    b[0] + 256 * b[1] + 65536 * b[2] + 16777216 * b[3]
}

/// Reading back the bytes of a number gives the number.
pub proof fn lemma_le_value_of_bytes(x: u32)
    ensures
        le_bytes(x).len() == 4,
        le_value(le_bytes(x)) == x,
{
}

/// Writing out the number read from four bytes gives those bytes.
pub proof fn lemma_le_bytes_of_value(b: Seq<u8>)
    requires
        b.len() == 4,
    ensures
        0 <= le_value(b) <= u32::MAX,
        le_bytes(le_value(b) as u32) == b,
{
    assert(le_bytes(le_value(b) as u32) =~= b);
}

/// Writes `x` as four bytes, least significant first.
pub fn u32_to_le(x: u32) -> (out: [u8; 4])
    ensures
        out@ == le_bytes(x),
{
    let out: [u8; 4] = [
        (x % 256) as u8,
        ((x / 256) % 256) as u8,
        ((x / 65536) % 256) as u8,
        (x / 16777216) as u8,
    ];
    assert(out@ =~= le_bytes(x));
    out
}

/// Reads the little-endian number that stands at `at` in `data`.
pub fn u32_from_le(data: &[u8], at: usize) -> (x: u32)
    requires
        at + 4 <= data@.len(),
    ensures
        x == le_value(data@.subrange(at as int, at + 4)),
{
    let b0: u32 = data[at] as u32;
    let b1: u32 = data[at + 1] as u32;
    let b2: u32 = data[at + 2] as u32;
    let b3: u32 = data[at + 3] as u32;
    b0 + 256 * b1 + 65536 * b2 + 16777216 * b3
}

/// Copies the `N` bytes that stand at `at` in `data` into an array.
pub fn take_array<const N: usize>(data: &[u8], at: usize) -> (out: [u8; N])
    requires
        at + N <= data@.len(),
    ensures
        out@ == data@.subrange(at as int, at + N),
{
    let len: usize = data.len();
    let mut out: [u8; N] = [0u8; N];
    let mut i: usize = 0;
    while i < N
        invariant
            i <= N,
            at + N <= len,
            len == data@.len(),
            out@.len() == N,
            forall|j: int| 0 <= j < i ==> out@[j] == data@[at + j],
        decreases N - i,
    {
        out[i] = data[at + i];
        i += 1;
    }
    out
}

/// Appends the bytes of `src` to `dst`.
pub fn append(dst: &mut Vec<u8>, src: &[u8])
    ensures
        final(dst)@ == old(dst)@ + src@,
{
    let mut i: usize = 0;
    while i < src.len()
        invariant
            i <= src@.len(),
            dst@ == old(dst)@ + src@.subrange(0, i as int),
        decreases src@.len() - i,
    {
        dst.push(src[i]);
        i += 1;
    }
}

/// A copy of the bytes of `data` from `from` to its end.
pub fn tail(data: &[u8], from: usize) -> (out: Vec<u8>)
    requires
        from <= data@.len(),
    ensures
        out@ == data@.subrange(from as int, data@.len() as int),
{
    let mut out: Vec<u8> = Vec::new();
    let mut i: usize = from;
    while i < data.len()
        invariant
            from <= i <= data@.len(),
            out@ == data@.subrange(from as int, i as int),
        decreases data@.len() - i,
    {
        out.push(data[i]);
        i += 1;
    }
    out
}

/// A copy of the bytes of `data`.
pub fn copy_of(data: &[u8]) -> (out: Vec<u8>)
    ensures
        out@ == data@,
{
    tail(data, 0)
}

} // verus!
