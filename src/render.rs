use vstd::prelude::*;

verus! {

/// `s` with every trailing `c` removed.
pub open spec fn strip_trailing(s: Seq<char>, c: char) -> Seq<char>
    decreases s.len(),
{
    if s.len() > 0 && s.last() == c {
        strip_trailing(s.drop_last(), c)
    } else {
        s
    }
}

/// How a number written with a fixed count of decimals is shown: trailing
/// zeros dropped, then a trailing decimal point, and `0` if nothing is left.
pub open spec fn shown(s: Seq<char>) -> Seq<char> {
    let t = strip_trailing(strip_trailing(s, '0'), '.');
    if t.len() == 0 {
        seq!['0']
    } else {
        t
    }
}

/// The length of `strip_trailing(s, c)`, found from the end of `s`.
fn kept_length(s: &str, c: char, from: usize) -> (r: usize)
    requires
        from <= s@.len(),
    ensures
        r <= from,
        s@.subrange(0, r as int) == strip_trailing(s@.subrange(0, from as int), c),
{
    let mut end: usize = from;
    while end > 0 && s.get_char(end - 1) == c
        invariant
            end <= from <= s@.len(),
            strip_trailing(s@.subrange(0, end as int), c) == strip_trailing(
                s@.subrange(0, from as int),
                c,
            ),
        decreases end,
    {
        assert(s@.subrange(0, end as int).drop_last() =~= s@.subrange(0, end - 1));
        end = end - 1;
    }
    end
}

/// Shows a number written with a fixed count of decimals (as `{:.6}` writes
/// it) without its trailing zeros or a bare trailing point.
pub fn trim_fixed_point(text: &str) -> (r: String)
    ensures
        r@ == shown(text@),
{
    let n = text.unicode_len();
    assert(text@.subrange(0, n as int) =~= text@);
    let a = kept_length(text, '0', n);
    let b = kept_length(text, '.', a);
    if b == 0 {
        proof {
            reveal_strlit("0");
        }
        String::from_str("0")
    } else {
        String::from_str(text.substring_char(0, b))
    }
}

} // verus!
