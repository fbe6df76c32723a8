//! Character classes, substring search, and digit parsing used by the
//! sanitizers and the status parsers.

use vstd::prelude::*;

verus! {

/// Regex-style whitespace: space, tab, line feed, vertical tab, form feed,
/// carriage return.
pub open spec fn is_space_char(c: char) -> bool {
    c as u32 == 32 || c as u32 == 9 || c as u32 == 10 || c as u32 == 11 || c as u32 == 12
        || c as u32 == 13
}

/// Regex-style word character: ASCII letter, digit, or underscore.
pub open spec fn is_word_char(c: char) -> bool {
    (97 <= c as u32 && c as u32 <= 122) || (65 <= c as u32 && c as u32 <= 90) || is_digit_char(c)
        || c as u32 == 95
}

/// An ASCII decimal digit.
pub open spec fn is_digit_char(c: char) -> bool {
    48 <= c as u32 && c as u32 <= 57
}

/// The numeric value of an ASCII digit.
pub open spec fn digit_val(c: char) -> int {
    c as u32 - 48
}

pub fn exec_is_space(c: char) -> (b: bool)
    ensures
        b == is_space_char(c),
{
    let u = c as u32;
    u == 32 || u == 9 || u == 10 || u == 11 || u == 12 || u == 13
}

pub fn exec_is_word(c: char) -> (b: bool)
    ensures
        b == is_word_char(c),
{
    let u = c as u32;
    (97 <= u && u <= 122) || (65 <= u && u <= 90) || (48 <= u && u <= 57) || u == 95
}

pub fn exec_is_digit(c: char) -> (b: bool)
    ensures
        b == is_digit_char(c),
{
    let u = c as u32;
    48 <= u && u <= 57
}

/// `pat` occurs in `s` starting at position `i`.
pub open spec fn matches_at(s: Seq<char>, pat: Seq<char>, i: int) -> bool {
    0 <= i && i + pat.len() <= s.len() && s.subrange(i, i + pat.len() as int) == pat
}

/// `pat` occurs somewhere in `s`.
pub open spec fn contains_seq(s: Seq<char>, pat: Seq<char>) -> bool {
    exists|i: int| matches_at(s, pat, i)
}

pub fn exec_matches_at(s: &str, pat: &str, i: usize) -> (b: bool)
    requires
        i + pat@.len() <= s@.len(),
    ensures
        b == matches_at(s@, pat@, i as int),
{
    let n = s.unicode_len();
    let m = pat.unicode_len();
    let mut j: usize = 0;
    while j < m
        invariant
            j <= m,
            m == pat@.len(),
            n == s@.len(),
            i + m <= n,
            forall|k: int| 0 <= k < j ==> s@[i + k] == pat@[k],
        decreases m - j,
    {
        let sc = s.get_char(i + j);
        let pc = pat.get_char(j);
        if sc != pc {
            proof {
                assert(s@.subrange(i as int, i + pat@.len() as int) != pat@) by {
                    if s@.subrange(i as int, i + pat@.len() as int) == pat@ {
                        assert(s@.subrange(i as int, i + pat@.len() as int)[j as int] == s@[i
                            + j]);
                    }
                }
            }
            return false;
        }
        j += 1;
    }
    proof {
        assert(s@.subrange(i as int, i + pat@.len() as int) =~= pat@);
    }
    true
}

pub fn exec_contains(s: &str, pat: &str) -> (b: bool)
    requires
        pat@.len() > 0,
    ensures
        b == contains_seq(s@, pat@),
{
    let n = s.unicode_len();
    let m = pat.unicode_len();
    if m > n {
        proof {
            assert(forall|i: int| !matches_at(s@, pat@, i));
        }
        return false;
    }
    let mut i: usize = 0;
    while i <= n - m
        invariant
            m == pat@.len(),
            n == s@.len(),
            1 <= m <= n,
            i <= n - m + 1,
            forall|k: int| 0 <= k < i ==> !matches_at(s@, pat@, k),
        decreases n - i,
    {
        if exec_matches_at(s, pat, i) {
            return true;
        }
        i += 1;
    }
    proof {
        assert(forall|k: int| !matches_at(s@, pat@, k)) by {
            assert(forall|k: int| k > n - m ==> !matches_at(s@, pat@, k));
        }
    }
    false
}

/// The value of a digit string, most significant digit first.
pub open spec fn digits_value(s: Seq<char>) -> int
    decreases s.len(),
{
    if s.len() == 0 {
        0
    } else {
        digits_value(s.drop_last()) * 10 + digit_val(s.last())
    }
}

/// A non-empty string of ASCII digits.
pub open spec fn all_digits(s: Seq<char>) -> bool {
    s.len() > 0 && forall|i: int| 0 <= i < s.len() ==> is_digit_char(s[i])
}

pub proof fn lemma_digits_value_nonneg(s: Seq<char>)
    requires
        forall|i: int| 0 <= i < s.len() ==> is_digit_char(s[i]),
    ensures
        digits_value(s) >= 0,
    decreases s.len(),
{
    if s.len() > 0 {
        lemma_digits_value_nonneg(s.drop_last());
    }
}

/// Extending a digit string never shrinks its value.
pub proof fn lemma_digits_value_prefix(s: Seq<char>, j: int)
    requires
        0 <= j <= s.len(),
        forall|i: int| 0 <= i < s.len() ==> is_digit_char(s[i]),
    ensures
        digits_value(s.take(j)) <= digits_value(s),
    decreases s.len() - j,
{
    if j == s.len() {
        assert(s.take(j) =~= s);
    } else {
        lemma_digits_value_prefix(s, j + 1);
        assert(s.take(j + 1).drop_last() =~= s.take(j));
        lemma_digits_value_nonneg(s.take(j));
        assert(digits_value(s.take(j + 1)) == digits_value(s.take(j)) * 10 + digit_val(
            s.take(j + 1).last(),
        ));
    }
}

/// Parses a non-empty all-digit string as a `u64`; anything else is `None`.
pub open spec fn parsed_u64(s: Seq<char>) -> Option<u64> {
    if all_digits(s) && digits_value(s) <= u64::MAX {
        Some(digits_value(s) as u64)
    } else {
        None
    }
}

/// Parses a non-empty all-digit string as a `u16`; anything else is `None`.
pub open spec fn parsed_u16(s: Seq<char>) -> Option<u16> {
    if all_digits(s) && digits_value(s) <= u16::MAX {
        Some(digits_value(s) as u16)
    } else {
        None
    }
}

pub fn exec_parse_u64(s: &str) -> (r: Option<u64>)
    ensures
        r == parsed_u64(s@),
{
    let n = s.unicode_len();
    if n == 0 {
        return None;
    }
    let mut acc: u64 = 0;
    let mut i: usize = 0;
    while i < n
        invariant
            i <= n,
            n == s@.len(),
            n > 0,
            forall|k: int| 0 <= k < i ==> is_digit_char(s@[k]),
            acc == digits_value(s@.take(i as int)),
        decreases n - i,
    {
        let c = s.get_char(i);
        if !exec_is_digit(c) {
            return None;
        }
        let d: u64 = (c as u32 - 48) as u64;
        proof {
            assert(s@.take(i + 1).drop_last() =~= s@.take(i as int));
            assert(s@.take(i + 1).last() == s@[i as int]);
        }
        if acc > u64::MAX / 10 || (acc == u64::MAX / 10 && d > u64::MAX % 10) {
            proof {
                if all_digits(s@) {
                    lemma_digits_value_prefix(s@, i + 1);
                }
            }
            return None;
        }
        acc = acc * 10 + d;
        i += 1;
    }
    proof {
        assert(s@.take(n as int) =~= s@);
    }
    Some(acc)
}

/// The suffix of `s` after the last `c`, or all of `s` if it has no `c`.
pub open spec fn after_last(s: Seq<char>, c: char) -> Seq<char>
    decreases s.len(),
{
    if s.len() == 0 {
        s
    } else if s.last() == c {
        Seq::<char>::empty()
    } else {
        after_last(s.drop_last(), c).push(s.last())
    }
}

pub fn exec_after_last(s: &str, c: char) -> (r: String)
    ensures
        r@ == after_last(s@, c),
    decreases s@.len(),
{
    let n = s.unicode_len();
    if n == 0 {
        return String::new();
    }
    let last = s.get_char(n - 1);
    if last == c {
        return String::new();
    }
    let prefix = s.substring_char(0, n - 1);
    proof {
        assert(prefix@ =~= s@.drop_last());
    }
    let front = exec_after_last(prefix, c);
    let tail = s.substring_char(n - 1, n);
    let out = front.concat(tail);
    proof {
        assert(out@ =~= after_last(s@, c));
    }
    out
}

/// `s` without its trailing whitespace.
pub open spec fn trim_end_spaces(s: Seq<char>) -> Seq<char>
    decreases s.len(),
{
    if s.len() > 0 && is_space_char(s.last()) {
        trim_end_spaces(s.drop_last())
    } else {
        s
    }
}

/// `s` without leading and trailing whitespace.
pub open spec fn trimmed(s: Seq<char>) -> Seq<char> {
    trim_end_spaces(skip_spaces(s))
}

pub fn exec_trim_end_spaces(s: &str) -> (r: String)
    ensures
        r@ == trim_end_spaces(s@),
    decreases s@.len(),
{
    let n = s.unicode_len();
    if n > 0 && exec_is_space(s.get_char(n - 1)) {
        let prefix = s.substring_char(0, n - 1);
        proof {
            assert(prefix@ =~= s@.drop_last());
        }
        exec_trim_end_spaces(prefix)
    } else {
        s.to_owned()
    }
}

pub fn exec_trimmed(s: &str) -> (r: String)
    ensures
        r@ == trimmed(s@),
{
    let skipped = exec_skip_spaces(s);
    exec_trim_end_spaces(skipped)
}

/// The prefix of `s` up to (not including) the first `c`, or all of `s`.
pub open spec fn take_until(s: Seq<char>, c: char) -> Seq<char>
    decreases s.len(),
{
    if s.len() == 0 {
        s
    } else if s[0] == c {
        Seq::<char>::empty()
    } else {
        seq![s[0]] + take_until(s.drop_first(), c)
    }
}

/// `s` without its leading whitespace.
pub open spec fn skip_spaces(s: Seq<char>) -> Seq<char>
    decreases s.len(),
{
    if s.len() > 0 && is_space_char(s[0]) {
        skip_spaces(s.drop_first())
    } else {
        s
    }
}

/// The prefix of `s` up to (not including) its first whitespace.
pub open spec fn first_token(s: Seq<char>) -> Seq<char>
    decreases s.len(),
{
    if s.len() == 0 || is_space_char(s[0]) {
        Seq::<char>::empty()
    } else {
        seq![s[0]] + first_token(s.drop_first())
    }
}

pub fn exec_take_until(s: &str, c: char) -> (r: String)
    ensures
        r@ == take_until(s@, c),
    decreases s@.len(),
{
    let n = s.unicode_len();
    if n == 0 {
        return String::new();
    }
    let c0 = s.get_char(0);
    if c0 == c {
        return String::new();
    }
    let head = s.substring_char(0, 1);
    let rest = s.substring_char(1, n);
    proof {
        assert(rest@ =~= s@.drop_first());
    }
    let tail = exec_take_until(rest, c);
    let out = String::from_str(head).concat(tail.as_str());
    proof {
        assert(out@ =~= take_until(s@, c));
    }
    out
}

pub fn exec_skip_spaces<'a>(s: &'a str) -> (r: &'a str)
    ensures
        r@ == skip_spaces(s@),
    decreases s@.len(),
{
    let n = s.unicode_len();
    if n > 0 && exec_is_space(s.get_char(0)) {
        let rest = s.substring_char(1, n);
        proof {
            assert(rest@ =~= s@.drop_first());
        }
        exec_skip_spaces(rest)
    } else {
        s
    }
}

pub fn exec_first_token(s: &str) -> (r: String)
    ensures
        r@ == first_token(s@),
    decreases s@.len(),
{
    let n = s.unicode_len();
    if n == 0 || exec_is_space(s.get_char(0)) {
        return String::new();
    }
    let head = s.substring_char(0, 1);
    let rest = s.substring_char(1, n);
    proof {
        assert(rest@ =~= s@.drop_first());
    }
    let tail = exec_first_token(rest);
    let out = String::from_str(head).concat(tail.as_str());
    proof {
        assert(out@ =~= first_token(s@));
    }
    out
}

pub fn exec_parse_u16(s: &str) -> (r: Option<u16>)
    ensures
        r == parsed_u16(s@),
{
    proof {
        if all_digits(s@) {
            lemma_digits_value_nonneg(s@);
        }
    }
    match exec_parse_u64(s) {
        Some(v) => if v <= 65535 {
            Some(v as u16)
        } else {
            None
        },
        None => None,
    }
}

} // verus!
