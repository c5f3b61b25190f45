use vstd::prelude::*;

verus! {

/// The characters with the Unicode `White_Space` property.
pub open spec fn is_white_space(c: char) -> bool {
    c == '\t' || c == '\n' || c == '\u{0B}' || c == '\u{0C}' || c == '\r' || c == ' ' || c
        == '\u{85}' || c == '\u{A0}' || c == '\u{1680}' || ('\u{2000}' <= c && c <= '\u{200A}')
        || c == '\u{2028}' || c == '\u{2029}' || c == '\u{202F}' || c == '\u{205F}' || c
        == '\u{3000}'
}

/// Whether a character has the Unicode `White_Space` property.
fn char_is_whitespace(c: char) -> (r: bool)
    ensures
        r == is_white_space(c),
{
    c == '\t' || c == '\n' || c == '\u{0B}' || c == '\u{0C}' || c == '\r' || c == ' ' || c
        == '\u{85}' || c == '\u{A0}' || c == '\u{1680}' || ('\u{2000}' <= c && c <= '\u{200A}')
        || c == '\u{2028}' || c == '\u{2029}' || c == '\u{202F}' || c == '\u{205F}' || c
        == '\u{3000}'
}

/// Text without its leading white space.
pub open spec fn trim_start_ws(s: Seq<char>) -> Seq<char>
    decreases s.len(),
{
    if s.len() > 0 && is_white_space(s[0]) {
        trim_start_ws(s.subrange(1, s.len() as int))
    } else {
        s
    }
}

/// Text without its trailing white space.
pub open spec fn trim_end_ws(s: Seq<char>) -> Seq<char>
    decreases s.len(),
{
    if s.len() > 0 && is_white_space(s.last()) {
        trim_end_ws(s.drop_last())
    } else {
        s
    }
}

/// Text without white space at either end.
pub open spec fn trimmed(s: Seq<char>) -> Seq<char> {
    trim_end_ws(trim_start_ws(s))
}

/// The pieces of a text between commas, in order; a text without commas is
/// one piece, and an empty text is one empty piece.
pub open spec fn split_commas(s: Seq<char>) -> Seq<Seq<char>>
    decreases s.len(),
{
    if s.len() == 0 {
        seq![Seq::empty()]
    } else {
        let prev = split_commas(s.drop_last());
        if s.last() == ',' {
            prev.push(Seq::empty())
        } else {
            prev.update(prev.len() - 1, prev.last().push(s.last()))
        }
    }
}

/// The owner addresses of a comma-separated list, each trimmed.
pub open spec fn owner_texts(s: Seq<char>) -> Seq<Seq<char>> {
    split_commas(s).map_values(|p: Seq<char>| trimmed(p))
}

/// The piece `text[lo..hi]` with white space at either end removed.
fn trimmed_piece(text: &str, lo: usize, hi: usize) -> (r: String)
    requires
        lo <= hi <= text@.len(),
    ensures
        r@ == trimmed(text@.subrange(lo as int, hi as int)),
{
    let mut a: usize = lo;
    while a < hi && char_is_whitespace(text.get_char(a))
        invariant
            lo <= a <= hi <= text@.len(),
            trim_start_ws(text@.subrange(lo as int, hi as int)) == trim_start_ws(
                text@.subrange(a as int, hi as int),
            ),
        decreases hi - a,
    {
        assert(text@.subrange(a as int, hi as int).subrange(1, (hi - a) as int) =~= text@.subrange(
            a + 1,
            hi as int,
        ));
        a = a + 1;
    }
    let mut b: usize = hi;
    while b > a && char_is_whitespace(text.get_char(b - 1))
        invariant
            lo <= a <= b <= hi <= text@.len(),
            a < hi ==> !is_white_space(text@[a as int]),
            trim_start_ws(text@.subrange(lo as int, hi as int)) == text@.subrange(a as int, hi as int),
            trim_end_ws(text@.subrange(a as int, hi as int)) == trim_end_ws(
                text@.subrange(a as int, b as int),
            ),
        decreases b - a,
    {
        assert(text@.subrange(a as int, b as int).drop_last() =~= text@.subrange(
            a as int,
            b - 1,
        ));
        b = b - 1;
    }
    String::from_str(text.substring_char(a, b))
}

/// Splits a comma-separated list of owner addresses, trimming white space
/// around each.
pub fn parse_owner_list(owners: &str) -> (r: Vec<String>)
    ensures
        r@.map_values(|s: String| s@) == owner_texts(owners@),
{
    let n = owners.unicode_len();
    let mut out: Vec<String> = Vec::new();
    let ghost mut pieces: Seq<Seq<char>> = Seq::empty();
    let mut start: usize = 0;
    let mut i: usize = 0;
    assert(owners@.subrange(0, 0) =~= Seq::<char>::empty());
    assert(pieces.push(owners@.subrange(0, 0)) =~= seq![Seq::<char>::empty()]);
    while i < n
        invariant
            n == owners@.len(),
            start <= i <= n,
            split_commas(owners@.subrange(0, i as int)) == pieces.push(
                owners@.subrange(start as int, i as int),
            ),
            out@.len() == pieces.len(),
            out@.map_values(|s: String| s@) == pieces.map_values(|p: Seq<char>| trimmed(p)),
        decreases n - i,
    {
        let c = owners.get_char(i);
        assert(owners@.subrange(0, i + 1).drop_last() =~= owners@.subrange(0, i as int));
        if c == ',' {
            let piece = trimmed_piece(owners, start, i);
            let ghost old_out = out@;
            out.push(piece);
            proof {
                let old_pieces = pieces;
                pieces = pieces.push(owners@.subrange(start as int, i as int));
                assert(owners@.subrange((i + 1) as int, (i + 1) as int) =~= Seq::<char>::empty());
                assert forall|k: int| 0 <= k < out@.len() implies (#[trigger] out@[k])@
                    == trimmed(pieces[k]) by {
                    if k < old_out.len() {
                        assert(old_out.map_values(|s: String| s@)[k] == old_pieces.map_values(
                            |p: Seq<char>| trimmed(p),
                        )[k]);
                    }
                }
                assert(out@.map_values(|s: String| s@) =~= pieces.map_values(|p: Seq<char>| trimmed(p)));
            }
            start = i + 1;
        } else {
            proof {
                assert(owners@.subrange(start as int, i + 1) =~= owners@.subrange(
                    start as int,
                    i as int,
                ).push(c));
                assert(pieces.push(owners@.subrange(start as int, i as int)).update(
                    pieces.len() as int,
                    owners@.subrange(start as int, i + 1),
                ) =~= pieces.push(owners@.subrange(start as int, i + 1)));
            }
        }
        i = i + 1;
    }
    let last = trimmed_piece(owners, start, n);
    let ghost old_out = out@;
    out.push(last);
    proof {
        assert(owners@.subrange(0, n as int) =~= owners@);
        let all = pieces.push(owners@.subrange(start as int, n as int));
        assert forall|k: int| 0 <= k < out@.len() implies (#[trigger] out@[k])@
            == trimmed(all[k]) by {
            if k < old_out.len() {
                assert(old_out.map_values(|s: String| s@)[k] == pieces.map_values(
                    |p: Seq<char>| trimmed(p),
                )[k]);
            }
        }
        assert(out@.map_values(|s: String| s@) =~= all.map_values(|p: Seq<char>| trimmed(p)));
    }
    out
}

} // verus!
