//! Verified text building blocks for shader generation: rendering numbers
//! in decimal and splicing generated fragments into a template at marker
//! strings.
use vstd::prelude::*;
use vstd::string::*;

verus! {

/// The decimal digit character for a value below ten.
pub open spec fn digit_char(d: nat) -> char {
    if d == 0 {
        '0'
    } else if d == 1 {
        '1'
    } else if d == 2 {
        '2'
    } else if d == 3 {
        '3'
    } else if d == 4 {
        '4'
    } else if d == 5 {
        '5'
    } else if d == 6 {
        '6'
    } else if d == 7 {
        '7'
    } else if d == 8 {
        '8'
    } else {
        '9'
    }
}

/// The decimal rendering of `n`, most significant digit first, with no
/// leading zeroes (a single `'0'` for zero).
pub open spec fn dec_chars(n: nat) -> Seq<char>
    decreases n,
{
    if n < 10 {
        seq![digit_char(n)]
    } else {
        dec_chars(n / 10) + seq![digit_char(n % 10)]
    }
}

/// The one-character string for a single decimal digit.
fn digit_str(d: u64) -> (r: &'static str)
    requires
        d < 10,
    ensures
        r@ =~= seq![digit_char(d as nat)],
{
    let s: &'static str = match d {
        0 => "0",
        1 => "1",
        2 => "2",
        3 => "3",
        4 => "4",
        5 => "5",
        6 => "6",
        7 => "7",
        8 => "8",
        _ => "9",
    };
    proof {
        reveal_strlit("0");
        reveal_strlit("1");
        reveal_strlit("2");
        reveal_strlit("3");
        reveal_strlit("4");
        reveal_strlit("5");
        reveal_strlit("6");
        reveal_strlit("7");
        reveal_strlit("8");
        reveal_strlit("9");
    }
    s
}

/// Render `n` in decimal.
pub fn decimal_string(n: u64) -> (r: String)
    ensures
        r@ == dec_chars(n as nat),
    decreases n,
{
    if n < 10 {
        String::from_str(digit_str(n))
    } else {
        let mut s = decimal_string(n / 10);
        s.append(digit_str(n % 10));
        s
    }
}

/// `s` with every (leftmost-first, non-overlapping) occurrence of `pat`
/// replaced by `to`; a tail shorter than `pat` is kept as it is.
pub open spec fn replace_chars(s: Seq<char>, pat: Seq<char>, to: Seq<char>) -> Seq<char>
    decreases s.len(),
{
    if pat.len() == 0 || s.len() < pat.len() {
        s
    } else if s.subrange(0, pat.len() as int) == pat {
        to + replace_chars(s.skip(pat.len() as int), pat, to)
    } else {
        seq![s[0]] + replace_chars(s.skip(1), pat, to)
    }
}

/// Whether `pat` occurs in `s` at offset `i`, by character comparison.
fn matches_at(s: &str, pat: &str, i: usize) -> (r: bool)
    requires
        i + pat@.len() <= s@.len(),
        i + pat@.len() <= usize::MAX,
    ensures
        r <==> s@.subrange(i as int, i as int + pat@.len() as int) == pat@,
{
    let pat_len = pat.unicode_len();
    let mut j: usize = 0;
    while j < pat_len
        invariant
            j <= pat_len,
            pat_len == pat@.len(),
            i + pat_len <= s@.len(),
            forall|k: int| 0 <= k < j ==> s@[i + k] == pat@[k],
        decreases pat_len - j,
    {
        if s.get_char(i + j) != pat.get_char(j) {
            proof {
                assert(s@.subrange(i as int, i as int + pat@.len() as int)[j as int] != pat@[
                    j as int]);
            }
            return false;
        }
        j = j + 1;
    }
    proof {
        assert(s@.subrange(i as int, i as int + pat@.len() as int) =~= pat@);
    }
    true
}

/// Replace every (leftmost-first, non-overlapping) occurrence of `pat` in
/// `s` by `to`.
pub fn replace_str(s: &str, pat: &str, to: &str) -> (r: String)
    requires
        pat@.len() > 0,
    ensures
        r@ == replace_chars(s@, pat@, to@),
{
    let s_len = s.unicode_len();
    let pat_len = pat.unicode_len();
    let mut out = String::new();
    let mut i: usize = 0;
    proof {
        assert(s@.skip(0) =~= s@);
        assert(out@ + replace_chars(s@, pat@, to@) =~= replace_chars(s@, pat@, to@));
    }
    while i < s_len
        invariant
            i <= s_len,
            s_len == s@.len(),
            pat_len == pat@.len(),
            pat_len > 0,
            out@ + replace_chars(s@.skip(i as int), pat@, to@) == replace_chars(s@, pat@, to@),
        decreases s_len - i,
    {
        let ghost tail = s@.skip(i as int);
        if pat_len <= s_len - i && matches_at(s, pat, i) {
            proof {
                assert(tail.subrange(0, pat@.len() as int) =~= s@.subrange(
                    i as int,
                    i as int + pat@.len() as int,
                ));
                assert(tail.skip(pat@.len() as int) =~= s@.skip(i as int + pat@.len() as int));
                assert((out@ + to@) + replace_chars(
                    s@.skip(i as int + pat@.len() as int),
                    pat@,
                    to@,
                ) =~= out@ + (to@ + replace_chars(tail.skip(pat@.len() as int), pat@, to@)));
            }
            out.append(to);
            i = i + pat_len;
        } else if pat_len <= s_len - i {
            proof {
                assert(tail.subrange(0, pat@.len() as int) =~= s@.subrange(
                    i as int,
                    i as int + pat@.len() as int,
                ));
                assert(tail.skip(1) =~= s@.skip(i as int + 1));
                assert(tail[0] == s@[i as int]);
            }
            let ch = s.substring_char(i, i + 1);
            proof {
                assert((out@ + ch@) + replace_chars(s@.skip(i as int + 1), pat@, to@) =~= out@ + (
                seq![tail[0]] + replace_chars(tail.skip(1), pat@, to@)));
            }
            out.append(ch);
            i = i + 1;
        } else {
            // The tail is shorter than the pattern: it is kept unchanged.
            let rest = s.substring_char(i, s_len);
            proof {
                assert(tail.len() < pat@.len());
                assert(replace_chars(tail, pat@, to@) == tail);
                assert(rest@ =~= tail);
            }
            out.append(rest);
            i = s_len;
        }
    }
    proof {
        assert(s@.skip(i as int) =~= Seq::<char>::empty());
        assert(replace_chars(Seq::<char>::empty(), pat@, to@) =~= Seq::<char>::empty());
        assert(out@ + Seq::<char>::empty() =~= out@);
    }
    out
}

} // verus!
