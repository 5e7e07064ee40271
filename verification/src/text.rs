//! Character-level text helpers used by input validation.
use vstd::prelude::*;
use vstd::string::*;
use vstd::std_specs::iter::IteratorSpec;

verus! {

broadcast use vstd::string::group_string_axioms;

/// Unicode `White_Space` characters, the set that `char::is_whitespace` accepts.
pub open spec fn is_whitespace_char(c: char) -> bool {
    ||| ('\u{0009}' <= c && c <= '\u{000D}')
    ||| c == ' '
    ||| c == '\u{0085}'
    ||| c == '\u{00A0}'
    ||| c == '\u{1680}'
    ||| ('\u{2000}' <= c && c <= '\u{200A}')
    ||| c == '\u{2028}'
    ||| c == '\u{2029}'
    ||| c == '\u{202F}'
    ||| c == '\u{205F}'
    ||| c == '\u{3000}'
}

pub fn is_whitespace(c: char) -> (r: bool)
    ensures
        r == is_whitespace_char(c),
{
    ('\u{0009}' <= c && c <= '\u{000D}') || c == ' ' || c == '\u{0085}' || c == '\u{00A0}'
        || c == '\u{1680}' || ('\u{2000}' <= c && c <= '\u{200A}') || c == '\u{2028}'
        || c == '\u{2029}' || c == '\u{202F}' || c == '\u{205F}' || c == '\u{3000}'
}

/// The characters of a string, in order.
pub fn chars_of(s: &str) -> (v: Vec<char>)
    ensures
        v@ == s@,
{
    let mut it = s.chars();
    let mut v: Vec<char> = Vec::new();
    loop
        invariant
            v@ + it.remaining() == s@,
            it.obeys_prophetic_iter_laws(),
            it.decrease() is Some,
        decreases it.decrease()->0,
    {
        let ghost before = it.remaining();
        match it.next() {
            Some(c) => {
                v.push(c);
                assert(v@ + it.remaining() =~= s@);
            },
            None => {
                assert(v@ =~= s@);
                return v;
            },
        }
    }
}


/// `s` with leading whitespace removed.
pub open spec fn trim_start_seq(s: Seq<char>) -> Seq<char>
    decreases s.len(),
{
    if s.len() > 0 && is_whitespace_char(s[0]) {
        trim_start_seq(s.drop_first())
    } else {
        s
    }
}

/// `s` with trailing whitespace removed.
pub open spec fn trim_end_seq(s: Seq<char>) -> Seq<char>
    decreases s.len(),
{
    if s.len() > 0 && is_whitespace_char(s.last()) {
        trim_end_seq(s.drop_last())
    } else {
        s
    }
}

/// `s` with leading and trailing whitespace removed, as `str::trim` does.
pub open spec fn trim_seq(s: Seq<char>) -> Seq<char> {
    trim_end_seq(trim_start_seq(s))
}

/// Whether every character of `s` is whitespace.
pub open spec fn is_blank_seq(s: Seq<char>) -> bool {
    trim_seq(s).len() == 0
}

/// Removes leading and trailing whitespace.
pub fn trim(s: &str) -> (r: &str)
    ensures
        r@ == trim_seq(s@),
{
    let v = chars_of(s);
    let n = v.len();
    let mut i: usize = 0;
    assert(s@.subrange(0, n as int) =~= s@);
    while i < n && is_whitespace(v[i])
        invariant
            v@ == s@,
            n == v@.len(),
            0 <= i <= n,
            trim_start_seq(s@.subrange(i as int, n as int)) == trim_start_seq(s@),
        decreases n - i,
    {
        let ghost t = s@.subrange(i as int, n as int);
        assert(t.drop_first() =~= s@.subrange(i + 1, n as int));
        i = i + 1;
    }
    proof {
        let t = s@.subrange(i as int, n as int);
        if i == n {
            assert(t =~= Seq::<char>::empty());
        }
        assert(trim_start_seq(s@) == t);
    }
    let mut j: usize = n;
    while j > i && is_whitespace(v[j - 1])
        invariant
            v@ == s@,
            n == v@.len(),
            0 <= i <= j <= n,
            trim_end_seq(s@.subrange(i as int, j as int)) == trim_end_seq(
                s@.subrange(i as int, n as int),
            ),
        decreases j,
    {
        let ghost u = s@.subrange(i as int, j as int);
        assert(u.drop_last() =~= s@.subrange(i as int, j - 1));
        j = j - 1;
    }
    proof {
        let u = s@.subrange(i as int, j as int);
        if j == i {
            assert(u =~= Seq::<char>::empty());
        }
        assert(trim_end_seq(u) == u);
    }
    s.substring_char(i, j)
}

/// Whether `s` is empty or made of whitespace only.
pub fn is_blank(s: &str) -> (r: bool)
    ensures
        r == is_blank_seq(s@),
{
    trim(s).unicode_len() == 0
}

/// Number of characters (not bytes) in `s`.
pub fn char_count(s: &str) -> (r: usize)
    ensures
        r == s@.len(),
{
    s.unicode_len()
}

/// Character-wise equality of two strings.
pub fn str_eq(a: &str, b: &str) -> (r: bool)
    ensures
        r == (a@ == b@),
{
    let va = chars_of(a);
    let vb = chars_of(b);
    if va.len() != vb.len() {
        return false;
    }
    let mut i: usize = 0;
    while i < va.len()
        invariant
            va@ == a@,
            vb@ == b@,
            va@.len() == vb@.len(),
            0 <= i <= va@.len(),
            forall|k: int| 0 <= k < i ==> va@[k] == vb@[k],
        decreases va@.len() - i,
    {
        if va[i] != vb[i] {
            return false;
        }
        i = i + 1;
    }
    assert(a@ =~= b@);
    true
}

/// Whether `c` occurs in `s`.
pub fn contains_char(s: &str, c: char) -> (r: bool)
    ensures
        r == s@.contains(c),
{
    let v = chars_of(s);
    let mut i: usize = 0;
    while i < v.len()
        invariant
            v@ == s@,
            0 <= i <= v@.len(),
            forall|k: int| 0 <= k < i ==> v@[k] != c,
        decreases v@.len() - i,
    {
        if v[i] == c {
            assert(s@[i as int] == c);
            return true;
        }
        i = i + 1;
    }
    false
}


/// ASCII lower-casing of one character; other characters are unchanged.
pub open spec fn ascii_lower_char(c: char) -> char {
    if 'A' <= c && c <= 'Z' {
        ((c as u32) + 32) as char
    } else {
        c
    }
}

/// ASCII lower-casing of every character, as `str::to_ascii_lowercase` does.
pub open spec fn ascii_lower_seq(s: Seq<char>) -> Seq<char> {
    s.map_values(|c: char| ascii_lower_char(c))
}

pub fn ascii_lower(c: char) -> (r: char)
    ensures
        r == ascii_lower_char(c),
{
    if 'A' <= c && c <= 'Z' {
        let code: u8 = c as u8;
        assert(code == c as u32);
        let lower: u8 = code + 32;
        lower as char
    } else {
        c
    }
}

/// Whether the ASCII lower-casing of `s` is `lower` (which is already lower-case).
pub fn eq_ignore_ascii_case(s: &str, lower: &str) -> (r: bool)
    ensures
        r == (ascii_lower_seq(s@) == lower@),
{
    let vs = chars_of(s);
    let vl = chars_of(lower);
    if vs.len() != vl.len() {
        proof {
            if ascii_lower_seq(s@) == lower@ {
                assert(ascii_lower_seq(s@).len() == s@.len());
            }
        }
        return false;
    }
    let mut i: usize = 0;
    while i < vs.len()
        invariant
            vs@ == s@,
            vl@ == lower@,
            vs@.len() == vl@.len(),
            0 <= i <= vs@.len(),
            forall|k: int| 0 <= k < i ==> ascii_lower_char(vs@[k]) == vl@[k],
        decreases vs@.len() - i,
    {
        if ascii_lower(vs[i]) != vl[i] {
            proof {
                if ascii_lower_seq(s@) == lower@ {
                    assert(ascii_lower_seq(s@)[i as int] == ascii_lower_char(s@[i as int]));
                }
            }
            return false;
        }
        i = i + 1;
    }
    assert(ascii_lower_seq(s@) =~= lower@);
    true
}


/// Unicode general category `Cc`, the set `char::is_control` accepts.
pub open spec fn is_control_char(c: char) -> bool {
    ('\u{0000}' <= c && c <= '\u{001F}') || ('\u{007F}' <= c && c <= '\u{009F}')
}

pub fn is_control(c: char) -> (r: bool)
    ensures
        r == is_control_char(c),
{
    ('\u{0000}' <= c && c <= '\u{001F}') || ('\u{007F}' <= c && c <= '\u{009F}')
}

pub open spec fn is_ascii_lowercase_char(c: char) -> bool {
    'a' <= c && c <= 'z'
}

pub open spec fn is_ascii_uppercase_char(c: char) -> bool {
    'A' <= c && c <= 'Z'
}

pub open spec fn is_ascii_digit_char(c: char) -> bool {
    '0' <= c && c <= '9'
}

pub open spec fn is_ascii_alphabetic_char(c: char) -> bool {
    is_ascii_lowercase_char(c) || is_ascii_uppercase_char(c)
}

pub open spec fn is_ascii_alphanumeric_char(c: char) -> bool {
    is_ascii_alphabetic_char(c) || is_ascii_digit_char(c)
}

pub fn is_ascii_lowercase(c: char) -> (r: bool)
    ensures
        r == is_ascii_lowercase_char(c),
{
    'a' <= c && c <= 'z'
}

pub fn is_ascii_uppercase(c: char) -> (r: bool)
    ensures
        r == is_ascii_uppercase_char(c),
{
    'A' <= c && c <= 'Z'
}

pub fn is_ascii_digit(c: char) -> (r: bool)
    ensures
        r == is_ascii_digit_char(c),
{
    '0' <= c && c <= '9'
}

pub fn is_ascii_alphabetic(c: char) -> (r: bool)
    ensures
        r == is_ascii_alphabetic_char(c),
{
    is_ascii_lowercase(c) || is_ascii_uppercase(c)
}

pub fn is_ascii_alphanumeric(c: char) -> (r: bool)
    ensures
        r == is_ascii_alphanumeric_char(c),
{
    is_ascii_alphabetic(c) || is_ascii_digit(c)
}

} // verus!
