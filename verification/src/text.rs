//! Small verified text utilities shared by the manifest checks, the error
//! messages and the path planner: decimal rendering of numbers, the
//! slash-to-hyphen substitution used for grant-cycle descriptors, and
//! splitting an identifier group on a separator character.

use vstd::prelude::*;
use vstd::string::StrSliceExecFns;
use vstd::string::StringExecFns;

verus! {

/// The decimal digit character for a value below ten.
pub open spec fn digit_char(d: nat) -> char {
    if d == 0 {
        '0'
    } else if d == 1 {
        '1'
    } else if d == 2 {
        '2'
    } else if d == 3 {
        '3'
    } else if d == 4 {
        '4'
    } else if d == 5 {
        '5'
    } else if d == 6 {
        '6'
    } else if d == 7 {
        '7'
    } else if d == 8 {
        '8'
    } else {
        '9'
    }
}

/// The usual decimal rendering of a natural number, without sign or padding.
pub open spec fn dec_str(n: nat) -> Seq<char>
    decreases n,
{
    if n < 10 {
        seq![digit_char(n)]
    } else {
        dec_str(n / 10) + seq![digit_char(n % 10)]
    }
}

fn digit_str(d: usize) -> (r: &'static str)
    requires
        d < 10,
    ensures
        r@ == seq![digit_char(d as nat)],
{
    proof {
        reveal_strlit("0");
        reveal_strlit("1");
        reveal_strlit("2");
        reveal_strlit("3");
        reveal_strlit("4");
        reveal_strlit("5");
        reveal_strlit("6");
        reveal_strlit("7");
        reveal_strlit("8");
        reveal_strlit("9");
    }
    let r: &'static str = match d {
        0 => "0",
        1 => "1",
        2 => "2",
        3 => "3",
        4 => "4",
        5 => "5",
        6 => "6",
        7 => "7",
        8 => "8",
        _ => "9",
    };
    proof {
        assert(r@ =~= seq![digit_char(d as nat)]);
    }
    r
}

/// Renders a number in decimal, exactly as `dec_str` describes.
pub fn usize_to_dec_string(n: usize) -> (r: String)
    ensures
        r@ == dec_str(n as nat),
    decreases n,
{
    if n < 10 {
        String::from_str(digit_str(n))
    } else {
        let mut s = usize_to_dec_string(n / 10);
        s.append(digit_str(n % 10));
        s
    }
}

/// Decimal renderings of a sequence of numbers, separated by ", ".
pub open spec fn dec_list_str(ns: Seq<usize>) -> Seq<char>
    decreases ns.len(),
{
    if ns.len() == 0 {
        Seq::empty()
    } else if ns.len() == 1 {
        dec_str(ns[0] as nat)
    } else {
        dec_list_str(ns.drop_last()) + ", "@ + dec_str(ns.last() as nat)
    }
}

/// Renders a list of numbers the way the diagnostics print index lists:
/// bracketed, comma-separated decimals.
pub fn usizes_to_list_string(ns: &Vec<usize>) -> (r: String)
    ensures
        r@ == "["@ + dec_list_str(ns@) + "]"@,
{
    let mut s = String::from_str("[");
    let mut i: usize = 0;
    while i < ns.len()
        invariant
            i <= ns.len(),
            s@ == "["@ + dec_list_str(ns@.take(i as int)),
        decreases ns.len() - i,
    {
        if i > 0 {
            s.append(", ");
        }
        let d = usize_to_dec_string(ns[i]);
        s.append(d.as_str());
        proof {
            assert(ns@.take(i + 1 as int).drop_last() =~= ns@.take(i as int));
            assert(ns@.take(i + 1 as int).last() == ns@[i as int]);
            if i == 0 {
                assert(s@ =~= "["@ + dec_list_str(ns@.take(i + 1 as int)));
            }
        }
        i = i + 1;
    }
    proof {
        assert(ns@.take(ns@.len() as int) =~= ns@);
    }
    s.append("]");
    s
}

/// `s` with every `/` replaced by `-`; the other characters are untouched.
pub open spec fn slashes_to_hyphens(s: Seq<char>) -> Seq<char> {
    Seq::new(s.len(), |i: int| if s[i] == '/' { '-' } else { s[i] })
}

/// Replaces every `/` in `s` with `-`, as `slashes_to_hyphens` describes.
pub fn replace_slashes(s: &str) -> (r: String)
    ensures
        r@ == slashes_to_hyphens(s@),
{
    let n = s.unicode_len();
    let mut out = String::new();
    let mut i: usize = 0;
    while i < n
        invariant
            i <= n,
            n == s@.len(),
            out@ =~= slashes_to_hyphens(s@).take(i as int),
        decreases n - i,
    {
        let c = s.get_char(i);
        if c == '/' {
            proof {
                reveal_strlit("-");
            }
            out.append("-");
        } else {
            let piece = s.substring_char(i, i + 1);
            out.append(piece);
        }
        proof {
            assert(out@ =~= slashes_to_hyphens(s@).take(i + 1 as int));
        }
        i = i + 1;
    }
    proof {
        assert(slashes_to_hyphens(s@).take(n as int) =~= slashes_to_hyphens(s@));
    }
    out
}

/// How a field value splits on a separator character: the pieces between the
/// separators, in order.  An input without the separator is one piece, so the
/// result is never empty; an empty input is one empty piece.
pub open spec fn split_on(s: Seq<char>, sep: char) -> Seq<Seq<char>>
    decreases s.len(),
{
    if s.len() == 0 {
        seq![Seq::<char>::empty()]
    } else if s.last() == sep {
        split_on(s.drop_last(), sep).push(Seq::<char>::empty())
    } else {
        let rest = split_on(s.drop_last(), sep);
        rest.update(rest.len() - 1, rest.last().push(s.last()))
    }
}

/// A split always yields at least one piece.
pub proof fn lemma_split_on_nonempty(s: Seq<char>, sep: char)
    ensures
        split_on(s, sep).len() >= 1,
    decreases s.len(),
{
    if s.len() != 0 {
        lemma_split_on_nonempty(s.drop_last(), sep);
    }
}

/// Splits `s` on the separator, exactly as `split_on` describes.
pub fn split_char(s: &str, sep: char) -> (r: Vec<String>)
    ensures
        r.deep_view() == split_on(s@, sep),
        r.len() >= 1,
{
    let n = s.unicode_len();
    let mut pieces: Vec<String> = Vec::new();
    let mut cur = String::new();
    let mut i: usize = 0;
    while i < n
        invariant
            i <= n,
            n == s@.len(),
            pieces.deep_view().push(cur@) =~~= split_on(s@.take(i as int), sep),
        decreases n - i,
    {
        let c = s.get_char(i);
        proof {
            assert(s@.take(i + 1 as int).drop_last() =~= s@.take(i as int));
            assert(s@.take(i + 1 as int).last() == s@[i as int]);
            lemma_split_on_nonempty(s@.take(i as int), sep);
        }
        if c == sep {
            pieces.push(cur);
            cur = String::new();
            proof {
                assert(pieces.deep_view().push(cur@) =~~= split_on(
                    s@.take(i + 1 as int),
                    sep,
                ));
            }
        } else {
            let piece = s.substring_char(i, i + 1);
            cur.append(piece);
            proof {
                assert(pieces.deep_view().push(cur@) =~~= split_on(
                    s@.take(i + 1 as int),
                    sep,
                ));
            }
        }
        i = i + 1;
    }
    proof {
        assert(s@.take(n as int) =~= s@);
        lemma_split_on_nonempty(s@, sep);
    }
    pieces.push(cur);
    proof {
        assert(pieces.deep_view() =~~= split_on(s@, sep));
    }
    pieces
}

} // verus!
