use vstd::prelude::*;

verus! {

/// Appends `src[lo..hi]` to `out`.
pub(crate) fn push_range(out: &mut Vec<u8>, src: &[u8], lo: usize, hi: usize)
    requires
        lo <= hi <= src@.len(),
    ensures
        final(out)@ == old(out)@ + src@.subrange(lo as int, hi as int),
{
    let ghost start = out@;
    let mut i: usize = lo;
    while i < hi
        invariant
            lo <= i <= hi <= src@.len(),
            out@ == start + src@.subrange(lo as int, i as int),
        decreases hi - i,
    {
        out.push(src[i]);
        i = i + 1;
        assert(out@ =~= start + src@.subrange(lo as int, i as int));
    }
}

/// Whether `a[alo..alo + n]` and `b[blo..blo + n]` hold the same bytes.
pub(crate) fn ranges_equal(a: &[u8], alo: usize, b: &[u8], blo: usize, n: usize) -> (r: bool)
    requires
        alo + n <= a@.len(),
        blo + n <= b@.len(),
    ensures
        r == (a@.subrange(alo as int, alo + n) == b@.subrange(blo as int, blo + n)),
{
    let alen = a.len();
    let blen = b.len();
    let mut i: usize = 0;
    while i < n
        invariant
            i <= n,
            a@.len() == alen,
            b@.len() == blen,
            alo + n <= a@.len(),
            blo + n <= b@.len(),
            a@.subrange(alo as int, alo + i) == b@.subrange(blo as int, blo + i),
        decreases n - i,
    {
        if a[alo + i] != b[blo + i] {
            assert(a@.subrange(alo as int, alo + n)[i as int] != b@.subrange(blo as int, blo + n)[i as int]);
            return false;
        }
        i = i + 1;
        assert(a@.subrange(alo as int, alo + i) =~= b@.subrange(blo as int, blo + i));
    }
    true
}

} // verus!
