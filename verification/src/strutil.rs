//! Small verified string helpers shared by the path building and file-name
//! parsing code: appending single characters, prefix tests, substring search,
//! and two-digit decimal rendering.

use vstd::prelude::*;

verus! {

/// Relies on `String::push`: appends the given character to the end of the
/// string.
#[verifier::external_body]
pub fn push_char(s: &mut String, c: char)
    ensures
        final(s)@ == old(s)@.push(c),
{
    s.push(c)
}

/// `pat` occurs in `s` starting at index `i`.
pub open spec fn occurs_at(s: Seq<char>, pat: Seq<char>, i: int) -> bool {
    0 <= i && i + pat.len() <= s.len() && s.subrange(i, i + pat.len()) == pat
}

/// Compares `pat` against `s` at position `i`, character by character.
fn match_at(s: &str, s_len: usize, pat: &str, pat_len: usize, i: usize) -> (r: bool)
    requires
        s_len == s@.len(),
        pat_len == pat@.len(),
        i + pat_len <= s_len,
    ensures
        r == occurs_at(s@, pat@, i as int),
{
    let mut j: usize = 0;
    while j < pat_len
        invariant
            s_len == s@.len(),
            pat_len == pat@.len(),
            i + pat_len <= s_len,
            j <= pat_len,
            forall|k: int| 0 <= k < j ==> s@[i + k] == pat@[k],
        decreases pat_len - j,
    {
        if s.get_char(i + j) != pat.get_char(j) {
            proof {
                assert(s@.subrange(i as int, i + pat_len)[j as int] == s@[i + j]);
            }
            return false;
        }
        j += 1;
    }
    proof {
        assert(s@.subrange(i as int, i + pat_len) =~= pat@);
    }
    true
}

/// `prefix` is a prefix of `s`.
pub open spec fn spec_starts_with(s: Seq<char>, prefix: Seq<char>) -> bool {
    occurs_at(s, prefix, 0)
}

pub fn str_starts_with(s: &str, prefix: &str) -> (r: bool)
    ensures
        r == spec_starts_with(s@, prefix@),
{
    let n = s.unicode_len();
    let m = prefix.unicode_len();
    if m > n {
        false
    } else {
        match_at(s, n, prefix, m, 0)
    }
}

/// The position of the first occurrence of `pat` in `s`, if any.
pub fn find_first(s: &str, pat: &str) -> (r: Option<usize>)
    ensures
        match r {
            Some(i) => occurs_at(s@, pat@, i as int) && forall|j: int|
                0 <= j < i ==> !occurs_at(s@, pat@, j),
            None => forall|j: int| !occurs_at(s@, pat@, j),
        },
{
    let n = s.unicode_len();
    let m = pat.unicode_len();
    if m > n {
        return None;
    }
    let mut i: usize = 0;
    loop
        invariant
            n == s@.len(),
            m == pat@.len(),
            m <= n,
            i <= n - m,
            forall|j: int| 0 <= j < i ==> !occurs_at(s@, pat@, j),
        decreases n - m - i,
    {
        if match_at(s, n, pat, m, i) {
            return Some(i);
        }
        if i == n - m {
            return None;
        }
        i += 1;
    }
}

/// The position of the last occurrence of `pat` in `s`, if any.
pub fn find_last(s: &str, pat: &str) -> (r: Option<usize>)
    ensures
        match r {
            Some(i) => occurs_at(s@, pat@, i as int) && forall|j: int|
                i < j ==> !occurs_at(s@, pat@, j),
            None => forall|j: int| !occurs_at(s@, pat@, j),
        },
{
    let n = s.unicode_len();
    let m = pat.unicode_len();
    if m > n {
        return None;
    }
    let mut i: usize = n - m;
    loop
        invariant
            n == s@.len(),
            m == pat@.len(),
            m <= n,
            i <= n - m,
            forall|j: int| i < j ==> !occurs_at(s@, pat@, j),
        decreases i + 1,
    {
        if match_at(s, n, pat, m, i) {
            return Some(i);
        }
        if i == 0 {
            return None;
        }
        i -= 1;
    }
}

/// The decimal digit character for `d`.
pub open spec fn digit_char(d: int) -> char {
    if d == 0 {
        '0'
    } else if d == 1 {
        '1'
    } else if d == 2 {
        '2'
    } else if d == 3 {
        '3'
    } else if d == 4 {
        '4'
    } else if d == 5 {
        '5'
    } else if d == 6 {
        '6'
    } else if d == 7 {
        '7'
    } else if d == 8 {
        '8'
    } else {
        '9'
    }
}

fn exec_digit_char(d: u32) -> (c: char)
    requires
        d < 10,
    ensures
        c == digit_char(d as int),
{
    match d {
        0 => '0',
        1 => '1',
        2 => '2',
        3 => '3',
        4 => '4',
        5 => '5',
        6 => '6',
        7 => '7',
        8 => '8',
        _ => '9',
    }
}

/// `n` rendered as exactly two decimal digits, zero padded.
pub open spec fn two_digit_chars(n: int) -> Seq<char> {
    seq![digit_char(n / 10), digit_char(n % 10)]
}

/// Copies a list of strings element by element.
pub fn clone_strings(v: &Vec<String>) -> (r: Vec<String>)
    ensures
        r@ == v@,
{
    let mut r: Vec<String> = Vec::new();
    let mut i: usize = 0;
    while i < v.len()
        invariant
            i <= v@.len(),
            r@ =~= v@.subrange(0, i as int),
        decreases v@.len() - i,
    {
        r.push(v[i].clone());
        i += 1;
    }
    proof {
        assert(r@ =~= v@);
    }
    r
}

/// Appends the two-digit, zero-padded decimal rendering of `n`.
pub fn push_two_digits(s: &mut String, n: u32)
    requires
        n < 100,
    ensures
        final(s)@ == old(s)@ + two_digit_chars(n as int),
{
    push_char(s, exec_digit_char(n / 10));
    push_char(s, exec_digit_char(n % 10));
    proof {
        assert(s@ =~= old(s)@ + two_digit_chars(n as int));
    }
}

} // verus!
