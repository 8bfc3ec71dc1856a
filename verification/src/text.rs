//! Verified text helpers: whitespace trimming, blank tests, and decimal
//! formatting used to build recording file names.

use vstd::prelude::*;

verus! {

use vstd::string::StrSliceExecFns;
use vstd::string::StringExecFns;

/// Whether `c` has the Unicode `White_Space` property — the set of
/// characters a whitespace trim removes.
pub open spec fn is_wspace_char(c: char) -> bool {
    c == ' ' || c == '\t' || c == '\n' || c == '\r' || c == '\u{000B}' || c == '\u{000C}'
        || c == '\u{0085}' || c == '\u{00A0}' || c == '\u{1680}' || c == '\u{2000}'
        || c == '\u{2001}' || c == '\u{2002}' || c == '\u{2003}' || c == '\u{2004}'
        || c == '\u{2005}' || c == '\u{2006}' || c == '\u{2007}' || c == '\u{2008}'
        || c == '\u{2009}' || c == '\u{200A}' || c == '\u{2028}' || c == '\u{2029}'
        || c == '\u{202F}' || c == '\u{205F}' || c == '\u{3000}'
}

/// Whether `s` holds no visible character at all.
pub open spec fn is_blank_text(s: Seq<char>) -> bool {
    forall|i: int| 0 <= i < s.len() ==> is_wspace_char(s[i])
}

/// `s` with leading whitespace removed.
pub open spec fn trim_start_text(s: Seq<char>) -> Seq<char>
    decreases s.len(),
{
    if s.len() == 0 {
        s
    } else if is_wspace_char(s[0]) {
        trim_start_text(s.drop_first())
    } else {
        s
    }
}

/// `s` with trailing whitespace removed.
pub open spec fn trim_end_text(s: Seq<char>) -> Seq<char>
    decreases s.len(),
{
    if s.len() == 0 {
        s
    } else if is_wspace_char(s.last()) {
        trim_end_text(s.drop_last())
    } else {
        s
    }
}

/// `s` with leading and trailing whitespace removed.
pub open spec fn trim_text(s: Seq<char>) -> Seq<char> {
    trim_end_text(trim_start_text(s))
}

pub fn is_wspace(c: char) -> (r: bool)
    ensures
        r == is_wspace_char(c),
{
    c == ' ' || c == '\t' || c == '\n' || c == '\r' || c == '\u{000B}' || c == '\u{000C}'
        || c == '\u{0085}' || c == '\u{00A0}' || c == '\u{1680}' || c == '\u{2000}'
        || c == '\u{2001}' || c == '\u{2002}' || c == '\u{2003}' || c == '\u{2004}'
        || c == '\u{2005}' || c == '\u{2006}' || c == '\u{2007}' || c == '\u{2008}'
        || c == '\u{2009}' || c == '\u{200A}' || c == '\u{2028}' || c == '\u{2029}'
        || c == '\u{202F}' || c == '\u{205F}' || c == '\u{3000}'
}

/// Whether `s` trims to nothing.
pub fn str_is_blank(s: &str) -> (r: bool)
    ensures
        r == is_blank_text(s@),
{
    let n = s.unicode_len();
    let mut i: usize = 0;
    while i < n
        invariant
            0 <= i <= n == s@.len(),
            forall|j: int| 0 <= j < i ==> is_wspace_char(s@[j]),
        ensures
            i == n || !is_wspace_char(s@[i as int]),
            forall|j: int| 0 <= j < i ==> is_wspace_char(s@[j]),
        decreases n - i,
    {
        if !is_wspace(s.get_char(i)) {
            break;
        }
        i = i + 1;
    }
    i == n
}

proof fn lemma_trim_start_at(s: Seq<char>, lo: int)
    requires
        0 <= lo <= s.len(),
        forall|j: int| 0 <= j < lo ==> is_wspace_char(s[j]),
        lo < s.len() ==> !is_wspace_char(s[lo]),
    ensures
        trim_start_text(s) == s.skip(lo),
    decreases lo,
{
    if lo == 0 {
        assert(s.skip(0) =~= s);
    } else {
        lemma_trim_start_at(s.drop_first(), lo - 1);
        assert(s.drop_first().skip(lo - 1) =~= s.skip(lo));
    }
}

proof fn lemma_trim_end_at(s: Seq<char>, hi: int)
    requires
        0 <= hi <= s.len(),
        forall|j: int| hi <= j < s.len() ==> is_wspace_char(s[j]),
        hi > 0 ==> !is_wspace_char(s[hi - 1]),
    ensures
        trim_end_text(s) == s.take(hi),
    decreases s.len() - hi,
{
    if hi == s.len() {
        if s.len() == 0 {
            assert(s.take(0) =~= s);
        } else {
            assert(s.take(hi) =~= s);
        }
    } else {
        lemma_trim_end_at(s.drop_last(), hi);
        assert(s.drop_last().take(hi) =~= s.take(hi));
    }
}

/// `s` with leading and trailing whitespace removed.
pub fn trimmed(s: &str) -> (r: &str)
    ensures
        r@ == trim_text(s@),
{
    let n = s.unicode_len();
    let mut lo: usize = 0;
    while lo < n
        invariant
            0 <= lo <= n == s@.len(),
            forall|j: int| 0 <= j < lo ==> is_wspace_char(s@[j]),
        ensures
            0 <= lo <= n == s@.len(),
            lo == n || !is_wspace_char(s@[lo as int]),
            forall|j: int| 0 <= j < lo ==> is_wspace_char(s@[j]),
        decreases n - lo,
    {
        if !is_wspace(s.get_char(lo)) {
            break;
        }
        lo = lo + 1;
    }
    proof {
        lemma_trim_start_at(s@, lo as int);
    }
    if lo == n {
        proof {
            lemma_trim_end_at(s@.skip(lo as int), 0);
            assert(s@.skip(lo as int).take(0) =~= s@.subrange(lo as int, lo as int));
        }
        return s.substring_char(lo, lo);
    }
    let mut hi: usize = n;
    while hi > lo
        invariant
            lo <= hi <= n == s@.len(),
            !is_wspace_char(s@[lo as int]),
            forall|j: int| hi <= j < n ==> is_wspace_char(s@[j]),
        ensures
            lo <= hi <= n == s@.len(),
            hi == lo || !is_wspace_char(s@[hi - 1]),
            forall|j: int| hi <= j < n ==> is_wspace_char(s@[j]),
        decreases hi,
    {
        if !is_wspace(s.get_char(hi - 1)) {
            break;
        }
        hi = hi - 1;
    }
    proof {
        // The scan cannot pass the non-blank character at `lo`.
        assert(hi > lo);
        lemma_trim_end_at(s@.skip(lo as int), hi - lo);
        assert(s@.skip(lo as int).take(hi - lo) =~= s@.subrange(lo as int, hi as int));
    }
    s.substring_char(lo, hi)
}

/// The decimal digit `d` as a character.
pub open spec fn digit_char(d: int) -> char {
    if d == 0 {
        '0'
    } else if d == 1 {
        '1'
    } else if d == 2 {
        '2'
    } else if d == 3 {
        '3'
    } else if d == 4 {
        '4'
    } else if d == 5 {
        '5'
    } else if d == 6 {
        '6'
    } else if d == 7 {
        '7'
    } else if d == 8 {
        '8'
    } else {
        '9'
    }
}

/// The decimal representation of `v`, without leading zeros.
pub open spec fn dec_rep(v: nat) -> Seq<char>
    decreases v,
{
    if v < 10 {
        seq![digit_char(v as int)]
    } else {
        dec_rep(v / 10) + seq![digit_char((v % 10) as int)]
    }
}

/// `dec_rep(v)` left-padded with zeros to at least `w` characters.
pub open spec fn zero_pad(s: Seq<char>, w: nat) -> Seq<char>
    decreases w,
{
    if s.len() >= w {
        s
    } else {
        seq!['0'] + zero_pad(s, (w - 1) as nat)
    }
}

/// The decimal representation of `v`, zero-padded to at least `w` digits.
pub open spec fn padded_dec(v: nat, w: nat) -> Seq<char> {
    zero_pad(dec_rep(v), w)
}

/// How many digits `dec_rep` produces, for the ranges the formatters need.
proof fn lemma_dec_rep_len(v: nat)
    ensures
        v < 10 ==> dec_rep(v).len() == 1,
        10 <= v < 100 ==> dec_rep(v).len() == 2,
        100 <= v < 1000 ==> dec_rep(v).len() == 3,
        v >= 1000 ==> dec_rep(v).len() >= 4,
    decreases v,
{
    if v >= 10 {
        assert(10 <= v < 100 ==> v / 10 < 10) by (nonlinear_arith);
        assert(100 <= v < 1000 ==> 10 <= v / 10 < 100) by (nonlinear_arith);
        assert(v >= 1000 ==> v / 10 >= 100) by (nonlinear_arith);
        lemma_dec_rep_len(v / 10);
    }
}

/// The padded representation is as long as the wider of width and digits.
pub proof fn lemma_zero_pad_len(s: Seq<char>, w: nat)
    ensures
        zero_pad(s, w).len() == (if s.len() >= w {
            s.len() as int
        } else {
            w as int
        }),
    decreases w,
{
    if s.len() < w {
        lemma_zero_pad_len(s, (w - 1) as nat);
    }
}

/// A value under a hundred pads to exactly two digits.
pub proof fn lemma_padded_dec_len2(v: nat)
    requires
        v < 100,
    ensures
        padded_dec(v, 2).len() == 2,
{
    lemma_dec_rep_len(v);
    lemma_zero_pad_len(dec_rep(v), 2);
}

/// Four-wide padding never yields fewer than four digits.
pub proof fn lemma_padded_dec_len4(v: nat)
    ensures
        padded_dec(v, 4).len() >= 4,
{
    lemma_dec_rep_len(v);
    lemma_zero_pad_len(dec_rep(v), 4);
}

/// The single-character string for digit `d`.
pub fn digit_str(d: u64) -> (r: &'static str)
    requires
        d < 10,
    ensures
        r@ == seq![digit_char(d as int)],
{
    if d == 0 {
        proof { reveal_strlit("0"); }
        let r = "0";
        assert(r@ =~= seq![digit_char(d as int)]);
        r
    } else if d == 1 {
        proof { reveal_strlit("1"); }
        let r = "1";
        assert(r@ =~= seq![digit_char(d as int)]);
        r
    } else if d == 2 {
        proof { reveal_strlit("2"); }
        let r = "2";
        assert(r@ =~= seq![digit_char(d as int)]);
        r
    } else if d == 3 {
        proof { reveal_strlit("3"); }
        let r = "3";
        assert(r@ =~= seq![digit_char(d as int)]);
        r
    } else if d == 4 {
        proof { reveal_strlit("4"); }
        let r = "4";
        assert(r@ =~= seq![digit_char(d as int)]);
        r
    } else if d == 5 {
        proof { reveal_strlit("5"); }
        let r = "5";
        assert(r@ =~= seq![digit_char(d as int)]);
        r
    } else if d == 6 {
        proof { reveal_strlit("6"); }
        let r = "6";
        assert(r@ =~= seq![digit_char(d as int)]);
        r
    } else if d == 7 {
        proof { reveal_strlit("7"); }
        let r = "7";
        assert(r@ =~= seq![digit_char(d as int)]);
        r
    } else if d == 8 {
        proof { reveal_strlit("8"); }
        let r = "8";
        assert(r@ =~= seq![digit_char(d as int)]);
        r
    } else {
        proof { reveal_strlit("9"); }
        let r = "9";
        assert(r@ =~= seq![digit_char(d as int)]);
        r
    }
}

/// Append the decimal representation of `v` to `out`.
pub fn append_decimal(out: &mut String, v: u64)
    ensures
        final(out)@ == old(out)@ + dec_rep(v as nat),
    decreases v,
{
    if v < 10 {
        out.append(digit_str(v));
    } else {
        append_decimal(out, v / 10);
        let ghost mid = out@;
        out.append(digit_str(v % 10));
        proof {
            assert(final(out)@ =~= old(out)@ + dec_rep(v as nat));
        }
    }
}

/// Append `v` as exactly two digits (`v < 100`).
pub fn append_padded2(out: &mut String, v: u64)
    requires
        v < 100,
    ensures
        final(out)@ == old(out)@ + padded_dec(v as nat, 2),
{
    proof {
        lemma_dec_rep_len(v as nat);
        reveal_with_fuel(zero_pad, 5);
    }
    if v < 10 {
        proof { reveal_strlit("0"); }
        out.append("0");
        let ghost mid = out@;
        append_decimal(out, v);
        proof {
            assert("0"@ =~= seq!['0']);
            assert(final(out)@ =~= old(out)@ + padded_dec(v as nat, 2));
        }
    } else {
        append_decimal(out, v);
        proof {
            assert(final(out)@ =~= old(out)@ + padded_dec(v as nat, 2));
        }
    }
}

/// Append `v` zero-padded to at least four digits.
pub fn append_padded4(out: &mut String, v: u64)
    ensures
        final(out)@ == old(out)@ + padded_dec(v as nat, 4),
{
    proof {
        lemma_dec_rep_len(v as nat);
        reveal_with_fuel(zero_pad, 5);
        reveal_strlit("000");
        reveal_strlit("00");
        reveal_strlit("0");
    }
    if v < 10 {
        out.append("000");
        append_decimal(out, v);
        proof {
            assert("000"@ =~= seq!['0', '0', '0']);
            assert(final(out)@ =~= old(out)@ + padded_dec(v as nat, 4));
        }
    } else if v < 100 {
        out.append("00");
        append_decimal(out, v);
        proof {
            assert("00"@ =~= seq!['0', '0']);
            assert(final(out)@ =~= old(out)@ + padded_dec(v as nat, 4));
        }
    } else if v < 1000 {
        out.append("0");
        append_decimal(out, v);
        proof {
            assert("0"@ =~= seq!['0']);
            assert(final(out)@ =~= old(out)@ + padded_dec(v as nat, 4));
        }
    } else {
        append_decimal(out, v);
        proof {
            assert(final(out)@ =~= old(out)@ + padded_dec(v as nat, 4));
        }
    }
}

} // verus!
