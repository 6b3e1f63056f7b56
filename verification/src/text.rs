//! Verified string utilities shared by the supervisor's decision logic:
//! ASCII whitespace trimming, equality, case-insensitive comparison and
//! search, whitespace splitting, and decimal formatting.

use vstd::prelude::*;
use vstd::string::StrSliceExecFns;

verus! {

/// ASCII whitespace, as recognised by the trimming and splitting routines.
pub open spec fn is_ws_char(c: char) -> bool {
    c == ' ' || c == '\t' || c == '\n' || c == '\r' || c == '\u{b}' || c == '\u{c}'
}

/// The sequence with leading whitespace removed.
pub open spec fn trim_front_spec(s: Seq<char>) -> Seq<char>
    decreases s.len(),
{
    if s.len() > 0 && is_ws_char(s[0]) {
        trim_front_spec(s.drop_first())
    } else {
        s
    }
}

/// The sequence with trailing whitespace removed.
pub open spec fn trim_back_spec(s: Seq<char>) -> Seq<char>
    decreases s.len(),
{
    if s.len() > 0 && is_ws_char(s[s.len() - 1]) {
        trim_back_spec(s.drop_last())
    } else {
        s
    }
}

/// The sequence with whitespace removed from both ends.
pub open spec fn trim_spec(s: Seq<char>) -> Seq<char> {
    trim_back_spec(trim_front_spec(s))
}

fn ws_char(c: char) -> (r: bool)
    ensures
        r == is_ws_char(c),
{
    c == ' ' || c == '\t' || c == '\n' || c == '\r' || c == '\u{b}' || c == '\u{c}'
}

proof fn lemma_trim_front_range(s: Seq<char>, i: int)
    requires
        0 <= i <= s.len(),
        forall|k: int| 0 <= k < i ==> is_ws_char(s[k]),
        i < s.len() ==> !is_ws_char(s[i]),
    ensures
        trim_front_spec(s) == s.subrange(i, s.len() as int),
    decreases i,
{
    if i == 0 {
        assert(trim_front_spec(s) =~= s.subrange(0, s.len() as int));
    } else {
        let t = s.drop_first();
        assert(is_ws_char(s[0]));
        assert(forall|k: int| 0 <= k < i - 1 ==> is_ws_char(t[k]));
        lemma_trim_front_range(t, i - 1);
        assert(t.subrange(i - 1, t.len() as int) =~= s.subrange(i, s.len() as int));
    }
}

proof fn lemma_trim_back_range(s: Seq<char>, j: int)
    requires
        0 <= j <= s.len(),
        forall|k: int| j <= k < s.len() ==> is_ws_char(s[k]),
        j > 0 ==> !is_ws_char(s[j - 1]),
    ensures
        trim_back_spec(s) == s.subrange(0, j),
    decreases s.len() - j,
{
    if j == s.len() {
        assert(trim_back_spec(s) =~= s.subrange(0, j));
    } else {
        let t = s.drop_last();
        assert(is_ws_char(s[s.len() - 1]));
        assert(forall|k: int| j <= k < t.len() ==> is_ws_char(t[k]));
        lemma_trim_back_range(t, j);
        assert(t.subrange(0, j) =~= s.subrange(0, j));
    }
}

/// Removes ASCII whitespace from both ends of `s`.
pub fn trim_str(s: &str) -> (r: &str)
    ensures
        r@ == trim_spec(s@),
{
    let len = s.unicode_len();
    let mut i: usize = 0;
    while i < len && ws_char(s.get_char(i))
        invariant
            0 <= i <= len,
            len == s@.len(),
            forall|k: int| 0 <= k < i ==> is_ws_char(s@[k]),
        decreases len - i,
    {
        i = i + 1;
    }
    proof {
        lemma_trim_front_range(s@, i as int);
    }
    let mut j: usize = len;
    while j > i && ws_char(s.get_char(j - 1))
        invariant
            i <= j <= len,
            len == s@.len(),
            forall|k: int| j <= k < len ==> is_ws_char(s@[k]),
        decreases j,
    {
        j = j - 1;
    }
    proof {
        let t = s@.subrange(i as int, len as int);
        assert(forall|k: int| j - i <= k < t.len() ==> is_ws_char(t[k]));
        lemma_trim_back_range(t, j - i);
        assert(t.subrange(0, j - i) =~= s@.subrange(i as int, j as int));
    }
    s.substring_char(i, j)
}

/// ASCII lowercase folding of one character; non-ASCII characters are kept.
pub open spec fn lower_char_spec(c: char) -> char {
    if 'A' <= c && c <= 'Z' {
        (((c as u8) + 32) as u8) as char
    } else {
        c
    }
}

/// Case-insensitive (ASCII) equality of two character sequences.
pub open spec fn ci_eq_seq(a: Seq<char>, b: Seq<char>) -> bool {
    a.len() == b.len() && forall|k: int|
        0 <= k < a.len() ==> lower_char_spec(a[k]) == lower_char_spec(b[k])
}

/// Whether `n` occurs in `h`, compared case-insensitively (ASCII).
pub open spec fn contains_ci_spec(h: Seq<char>, n: Seq<char>) -> bool {
    exists|i: int|
        0 <= i <= h.len() - n.len() && #[trigger] ci_eq_seq(h.subrange(i, i + n.len()), n)
}

fn lower_char(c: char) -> (r: char)
    ensures
        r == lower_char_spec(c),
{
    if 'A' <= c && c <= 'Z' {
        ((c as u8) + 32) as char
    } else {
        c
    }
}

/// Case-insensitive (ASCII) string equality.
pub fn eq_ci(a: &str, b: &str) -> (r: bool)
    ensures
        r == ci_eq_seq(a@, b@),
{
    let alen = a.unicode_len();
    let blen = b.unicode_len();
    if alen != blen {
        return false;
    }
    let mut i: usize = 0;
    while i < alen
        invariant
            0 <= i <= alen,
            alen == a@.len(),
            alen == b@.len(),
            forall|k: int| 0 <= k < i ==> lower_char_spec(a@[k]) == lower_char_spec(b@[k]),
        decreases alen - i,
    {
        if lower_char(a.get_char(i)) != lower_char(b.get_char(i)) {
            return false;
        }
        i = i + 1;
    }
    true
}

/// Case-insensitive (ASCII) substring search.
pub fn contains_ci(hay: &str, needle: &str) -> (r: bool)
    ensures
        r == contains_ci_spec(hay@, needle@),
{
    let hlen = hay.unicode_len();
    let nlen = needle.unicode_len();
    if nlen > hlen {
        return false;
    }
    let mut i: usize = 0;
    while i <= hlen - nlen
        invariant
            0 <= i,
            nlen <= hlen,
            i + nlen <= hlen + 1,
            hlen == hay@.len(),
            nlen == needle@.len(),
            forall|p: int|
                0 <= p < i ==> !(#[trigger] ci_eq_seq(hay@.subrange(p, p + nlen), needle@)),
        decreases hlen - i,
    {
        let mut j: usize = 0;
        let mut matched = true;
        while j < nlen
            invariant
                0 <= j <= nlen,
                0 <= i,
                i + nlen <= hlen,
                hlen == hay@.len(),
                nlen == needle@.len(),
                matched ==> forall|k: int|
                    0 <= k < j ==> lower_char_spec(hay@[i + k]) == lower_char_spec(needle@[k]),
                !matched ==> !ci_eq_seq(hay@.subrange(i as int, i + nlen), needle@),
            decreases nlen - j,
        {
            if lower_char(hay.get_char(i + j)) != lower_char(needle.get_char(j)) {
                proof {
                    let sub = hay@.subrange(i as int, i + nlen);
                    assert(sub[j as int] == hay@[i + j]);
                }
                matched = false;
                j = nlen;
            } else {
                j = j + 1;
            }
        }
        if matched {
            proof {
                let sub = hay@.subrange(i as int, i + nlen);
                assert(forall|k: int| 0 <= k < nlen ==> sub[k] == hay@[i + k]);
                assert(ci_eq_seq(sub, needle@));
            }
            return true;
        }
        i = i + 1;
    }
    proof {
        assert(forall|p: int|
            0 <= p <= hlen - nlen ==> !(#[trigger] ci_eq_seq(hay@.subrange(p, p + nlen),
            needle@)));
    }
    false
}

/// Length of the leading run of non-whitespace characters.
pub open spec fn token_len_spec(s: Seq<char>) -> nat
    decreases s.len(),
{
    if s.len() > 0 && !is_ws_char(s[0]) {
        1 + token_len_spec(s.drop_first())
    } else {
        0
    }
}

pub proof fn lemma_token_len_bounds(s: Seq<char>)
    ensures
        token_len_spec(s) <= s.len(),
        forall|k: int| 0 <= k < token_len_spec(s) ==> !is_ws_char(s[k]),
        token_len_spec(s) < s.len() ==> is_ws_char(s[token_len_spec(s) as int]),
    decreases s.len(),
{
    if s.len() > 0 && !is_ws_char(s[0]) {
        let t = s.drop_first();
        lemma_token_len_bounds(t);
        assert(forall|k: int| 1 <= k < token_len_spec(s) ==> s[k] == t[k - 1]);
        if token_len_spec(s) < s.len() {
            assert(s[token_len_spec(s) as int] == t[token_len_spec(t) as int]);
        }
    }
}

/// The maximal whitespace-separated tokens of `s`, in order.
pub open spec fn split_ws_spec(s: Seq<char>) -> Seq<Seq<char>>
    decreases s.len(),
{
    if s.len() == 0 {
        Seq::empty()
    } else if is_ws_char(s[0]) {
        split_ws_spec(s.drop_first())
    } else {
        proof {
            lemma_token_len_bounds(s);
        }
        let t = token_len_spec(s) as int;
        seq![s.subrange(0, t)] + split_ws_spec(s.subrange(t, s.len() as int))
    }
}

/// Splits `s` on runs of ASCII whitespace, dropping empty tokens.
pub fn split_ws(s: &str) -> (r: Vec<String>)
    ensures
        r.deep_view() == split_ws_spec(s@),
{
    let len = s.unicode_len();
    let mut out: Vec<String> = Vec::new();
    let mut i: usize = 0;
    proof {
        assert(s@.subrange(0, len as int) =~= s@);
        assert(out.deep_view() + split_ws_spec(s@) =~~= split_ws_spec(s@));
    }
    while i < len
        invariant
            0 <= i <= len,
            len == s@.len(),
            out.deep_view() + split_ws_spec(s@.subrange(i as int, len as int))
                == split_ws_spec(s@),
        decreases len - i,
    {
        let ghost pre = s@.subrange(i as int, len as int);
        if ws_char(s.get_char(i)) {
            proof {
                assert(pre[0] == s@[i as int]);
                assert(pre.drop_first() =~= s@.subrange(i + 1, len as int));
            }
            i = i + 1;
        } else {
            let mut e: usize = i + 1;
            while e < len && !ws_char(s.get_char(e))
                invariant
                    i < e <= len,
                    len == s@.len(),
                    forall|k: int| i <= k < e ==> !is_ws_char(s@[k]),
                decreases len - e,
            {
                e = e + 1;
            }
            proof {
                lemma_token_len_bounds(pre);
                assert(forall|k: int| 0 <= k < e - i ==> pre[k] == s@[i + k]);
                assert(forall|k: int| 0 <= k < e - i ==> !is_ws_char(pre[k]));
                if e < len {
                    assert(pre[e - i] == s@[e as int]);
                }
                // The scan stopped at the first whitespace character, so the
                // leading token of `pre` is exactly `e - i` characters long.
                assert(token_len_spec(pre) == e - i) by {
                    if token_len_spec(pre) < e - i {
                        assert(is_ws_char(pre[token_len_spec(pre) as int]));
                    }
                    if token_len_spec(pre) > e - i {
                        assert(!is_ws_char(pre[e - i]));
                    }
                }
                assert(pre.subrange(0, e - i) =~= s@.subrange(i as int, e as int));
                assert(pre.subrange(e - i, pre.len() as int)
                    =~= s@.subrange(e as int, len as int));
            }
            let token = String::from_str(s.substring_char(i, e));
            out.push(token);
            proof {
                assert(out.deep_view() + split_ws_spec(s@.subrange(e as int, len as int))
                    =~~= split_ws_spec(s@));
            }
            i = e;
        }
    }
    proof {
        assert(s@.subrange(len as int, len as int) =~= Seq::<char>::empty());
        assert(out.deep_view() =~~= split_ws_spec(s@));
    }
    out
}

/// The decimal digit character for `d` (`0 <= d <= 9`).
pub open spec fn dec_digit_char(d: int) -> char {
    if d == 0 {
        '0'
    } else if d == 1 {
        '1'
    } else if d == 2 {
        '2'
    } else if d == 3 {
        '3'
    } else if d == 4 {
        '4'
    } else if d == 5 {
        '5'
    } else if d == 6 {
        '6'
    } else if d == 7 {
        '7'
    } else if d == 8 {
        '8'
    } else {
        '9'
    }
}

/// The decimal representation of `n`, with no sign and no leading zeros
/// (a single `'0'` for zero).
pub open spec fn dec_str_spec(n: nat) -> Seq<char>
    decreases n,
{
    if n < 10 {
        seq![dec_digit_char(n as int)]
    } else {
        dec_str_spec(n / 10).push(dec_digit_char((n % 10) as int))
    }
}

fn digit_str(d: u64) -> (r: &'static str)
    requires
        d < 10,
    ensures
        r@ == seq![dec_digit_char(d as int)],
{
    let r: &'static str = if d == 0 {
        "0"
    } else if d == 1 {
        "1"
    } else if d == 2 {
        "2"
    } else if d == 3 {
        "3"
    } else if d == 4 {
        "4"
    } else if d == 5 {
        "5"
    } else if d == 6 {
        "6"
    } else if d == 7 {
        "7"
    } else if d == 8 {
        "8"
    } else {
        "9"
    };
    proof {
        reveal_strlit("0");
        reveal_strlit("1");
        reveal_strlit("2");
        reveal_strlit("3");
        reveal_strlit("4");
        reveal_strlit("5");
        reveal_strlit("6");
        reveal_strlit("7");
        reveal_strlit("8");
        reveal_strlit("9");
        assert(r@ =~= seq![dec_digit_char(d as int)]);
    }
    r
}

/// Formats `n` in decimal.
pub fn u64_to_string(n: u64) -> (r: String)
    ensures
        r@ == dec_str_spec(n as nat),
    decreases n,
{
    if n < 10 {
        let r = String::from_str(digit_str(n));
        r
    } else {
        let prefix = u64_to_string(n / 10);
        let r = prefix.concat(digit_str(n % 10));
        proof {
            assert(r@ =~= dec_str_spec(n as nat));
        }
        r
    }
}

/// The decimal representation of `n`, with a leading `'-'` when negative.
pub open spec fn int_str_spec(n: int) -> Seq<char> {
    if n < 0 {
        seq!['-'] + dec_str_spec((-n) as nat)
    } else {
        dec_str_spec(n as nat)
    }
}

/// Formats `n` in decimal, with a sign when negative.
pub fn i64_to_string(n: i64) -> (r: String)
    ensures
        r@ == int_str_spec(n as int),
{
    if n >= 0 {
        u64_to_string(n as u64)
    } else {
        let magnitude: u64 = if n == i64::MIN {
            9223372036854775808u64
        } else {
            (-n) as u64
        };
        let mut r = String::from_str("-");
        let digits = u64_to_string(magnitude);
        r.append(digits.as_str());
        proof {
            reveal_strlit("-");
            assert(r@ =~= int_str_spec(n as int));
        }
        r
    }
}

/// Concatenation of three string slices.
pub fn concat3(a: &str, b: &str, c: &str) -> (r: String)
    ensures
        r@ == a@ + b@ + c@,
{
    let mut r = String::from_str(a);
    r.append(b);
    r.append(c);
    r
}

/// Character-by-character string equality.
pub fn str_eq(a: &str, b: &str) -> (r: bool)
    ensures
        r == (a@ == b@),
{
    let alen = a.unicode_len();
    let blen = b.unicode_len();
    if alen != blen {
        assert(a@ != b@);
        return false;
    }
    let mut i: usize = 0;
    while i < alen
        invariant
            0 <= i <= alen,
            alen == a@.len(),
            alen == b@.len(),
            forall|k: int| 0 <= k < i ==> a@[k] == b@[k],
        decreases alen - i,
    {
        if a.get_char(i) != b.get_char(i) {
            assert(a@ != b@);
            return false;
        }
        i = i + 1;
    }
    proof {
        assert(a@ =~= b@);
    }
    true
}

} // verus!
