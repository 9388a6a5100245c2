//! Reading, writing and comparing fixed-size fields of byte buffers.
use vstd::prelude::*;

verus! {

/// Copies `src` into `output` from position `at`, leaving every other byte.
pub fn write_at(output: &mut [u8], at: usize, src: &[u8])
    requires
        at + src@.len() <= old(output)@.len(),
    ensures
        final(output)@ == old(output)@.take(at as int) + src@ + old(output)@.skip(at + src@.len()),
{
    let n = output.len();
    let mut i: usize = 0;
    while i < src.len()
        invariant
            n == output@.len(),
            0 <= i <= src@.len(),
            at + src@.len() <= output@.len(),
            output@.len() == old(output)@.len(),
            forall|j: int|
                0 <= j < output@.len() ==> #[trigger] output@[j] == if at <= j < at + i {
                    src@[j - at]
                } else {
                    old(output)@[j]
                },
        decreases src@.len() - i,
    {
        output[at + i] = src[i];
        i += 1;
    }
    assert(output@ =~= old(output)@.take(at as int) + src@ + old(output)@.skip(at + src@.len()));
}

/// The `N` bytes of `input` from position `at`.
pub fn read_array<const N: usize>(input: &[u8], at: usize) -> (r: [u8; N])
    requires
        at + N <= input@.len(),
    ensures
        r@ == input@.subrange(at as int, at + N),
{
    let mut r: [u8; N] = [0u8; N];
    let n = input.len();
    let mut i: usize = 0;
    while i < N
        invariant
            n == input@.len(),
            0 <= i <= N,
            at + N <= input@.len(),
            r@.len() == N,
            forall|j: int| 0 <= j < i ==> #[trigger] r@[j] == input@[at + j],
        decreases N - i,
    {
        r[i] = input[at + i];
        i += 1;
    }
    assert(r@ =~= input@.subrange(at as int, at + N));
    r
}

/// Appends the bytes of `src` to `v`.
pub fn push_bytes(v: &mut Vec<u8>, src: &[u8])
    ensures
        final(v)@ == old(v)@ + src@,
{
    let mut i: usize = 0;
    while i < src.len()
        invariant
            0 <= i <= src@.len(),
            v@ == old(v)@ + src@.take(i as int),
        decreases src@.len() - i,
    {
        v.push(src[i]);
        assert(src@.take(i + 1) =~= src@.take(i as int).push(src@[i as int]));
        i += 1;
    }
    assert(src@.take(src@.len() as int) =~= src@);
}

/// Compares two addresses byte by byte.
pub fn same_address(a: &[u8; 32], b: &[u8; 32]) -> (r: bool)
    ensures
        r == (a@ == b@),
{
    let mut i: usize = 0;
    while i < 32
        invariant
            0 <= i <= 32,
            a@.len() == 32,
            b@.len() == 32,
            forall|j: int| 0 <= j < i ==> a@[j] == b@[j],
        decreases 32 - i,
    {
        if a[i] != b[i] {
            return false;
        }
        i += 1;
    }
    assert(a@ =~= b@);
    true
}

} // verus!
