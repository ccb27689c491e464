//! Matching of names without regard to the case of ASCII letters.

use vstd::prelude::*;
use vstd::std_specs::iter::IteratorSpec;
use vstd::string::StringExecFns;

verus! {

/// The lower-case form of an ASCII capital; any other character is itself.
pub open spec fn ascii_lower(c: char) -> char {
    if 'A' <= c && c <= 'Z' {
        ((c as u8) + 32) as char
    } else {
        c
    }
}

/// `needle` occupies `hay` from position `at`, letters compared without case.
pub open spec fn matches_at(hay: Seq<char>, at: int, needle: Seq<char>) -> bool {
    &&& 0 <= at
    &&& at + needle.len() <= hay.len()
    &&& forall|j: int| 0 <= j < needle.len() ==> ascii_lower(#[trigger] hay[at + j]) == ascii_lower(needle[j])
}

/// `needle` occurs somewhere in `hay`, letters compared without case.
pub open spec fn contains_ignoring_case(hay: Seq<char>, needle: Seq<char>) -> bool {
    exists|at: int| matches_at(hay, at, needle)
}

/// The two texts are equal, letters compared without case.
pub open spec fn eq_ignoring_case(a: Seq<char>, b: Seq<char>) -> bool {
    a.len() == b.len() && matches_at(a, 0, b)
}

pub fn to_ascii_lower(c: char) -> (lower: char)
    ensures
        lower == ascii_lower(c),
{
    if 'A' <= c && c <= 'Z' {
        ((c as u8) + 32) as char
    } else {
        c
    }
}

/// The characters of a string, one by one.
pub fn to_chars(s: &str) -> (chars: Vec<char>)
    ensures
        chars@ == s@,
{
    let mut chars: Vec<char> = Vec::new();
    proof {
        assert(vstd::string::spec_iter(s).remaining() == s@);
        assert(s@.len() == 0 ==> chars@ =~= s@);
    }
    for c in iter: s.chars()
        invariant
            iter.seq() == s@,
            chars@ == iter.seq().take(iter.index()),
            iter.index() == iter.seq().len() ==> chars@ == s@,
    {
        chars.push(c);
        proof {
            let done = iter.index() + 1;
            assert(chars@ =~= iter.seq().take(done));
            assert(done == iter.seq().len() ==> iter.seq().take(done) =~= iter.seq());
        }
    }
    chars
}

fn matches_here(hay: &[char], at: usize, needle: &[char]) -> (found: bool)
    requires
        at + needle@.len() <= hay@.len(),
    ensures
        found == matches_at(hay@, at as int, needle@),
{
    let len = hay.len();
    let mut j: usize = 0;
    while j < needle.len()
        invariant
            j <= needle@.len(),
            len == hay@.len(),
            at + needle@.len() <= hay@.len(),
            forall|k: int| 0 <= k < j ==> ascii_lower(#[trigger] hay@[at + k]) == ascii_lower(needle@[k]),
        decreases needle@.len() - j,
    {
        if to_ascii_lower(hay[at + j]) != to_ascii_lower(needle[j]) {
            return false;
        }
        j = j + 1;
    }
    true
}

/// Whether `needle` occurs in `hay`, letters compared without case.
pub fn contains_ignore_ascii_case(hay: &[char], needle: &[char]) -> (found: bool)
    ensures
        found == contains_ignoring_case(hay@, needle@),
{
    if needle.len() > hay.len() {
        assert forall|at: int| !matches_at(hay@, at, needle@) by {}
        return false;
    }
    let last = hay.len() - needle.len();
    let mut at: usize = 0;
    loop
        invariant
            at <= last,
            last == hay@.len() - needle@.len(),
            forall|k: int| 0 <= k < at ==> !matches_at(hay@, k, needle@),
        decreases last - at,
    {
        if matches_here(hay, at, needle) {
            return true;
        }
        if at == last {
            assert forall|k: int| !matches_at(hay@, k, needle@) by {}
            return false;
        }
        at = at + 1;
    }
}

/// Whether the two texts are equal, letters compared without case.
pub fn eq_ignore_ascii_case(a: &[char], b: &[char]) -> (equal: bool)
    ensures
        equal == eq_ignoring_case(a@, b@),
{
    if a.len() != b.len() {
        return false;
    }
    matches_here(a, 0, b)
}

/// `needle` closes `hay`, letters compared without case.
pub open spec fn ends_ignoring_case(hay: Seq<char>, needle: Seq<char>) -> bool {
    matches_at(hay, hay.len() - needle.len(), needle)
}

/// Whether `hay` ends in `needle`, letters compared without case.
pub fn ends_with_ignore_ascii_case(hay: &[char], needle: &[char]) -> (found: bool)
    ensures
        found == ends_ignoring_case(hay@, needle@),
{
    if needle.len() > hay.len() {
        return false;
    }
    matches_here(hay, hay.len() - needle.len(), needle)
}

/// Whether the two texts are the same, character by character.
pub fn same_chars(a: &[char], b: &[char]) -> (same: bool)
    ensures
        same == (a@ == b@),
{
    if a.len() != b.len() {
        return false;
    }
    let mut i: usize = 0;
    while i < a.len()
        invariant
            i <= a@.len(),
            a@.len() == b@.len(),
            forall|k: int| 0 <= k < i ==> a@[k] == b@[k],
        decreases a@.len() - i,
    {
        if a[i] != b[i] {
            return false;
        }
        i = i + 1;
    }
    assert(a@ =~= b@);
    true
}

/// The lower-case form that the standard library gives a text.
pub uninterp spec fn lowercase_of(text: Seq<char>) -> Seq<char>;

/// `str::to_lowercase`: the lower-case form is decided by the text alone.
#[verifier::external_body]
pub(crate) fn to_lowercase(text: &str) -> (lower: String)
    ensures
        lower@ == lowercase_of(text@),
{
    text.to_lowercase()
}

/// The character of a decimal digit.
pub open spec fn digit_of(digit: nat) -> char {
    if digit == 0 {
        '0'
    } else if digit == 1 {
        '1'
    } else if digit == 2 {
        '2'
    } else if digit == 3 {
        '3'
    } else if digit == 4 {
        '4'
    } else if digit == 5 {
        '5'
    } else if digit == 6 {
        '6'
    } else if digit == 7 {
        '7'
    } else if digit == 8 {
        '8'
    } else {
        '9'
    }
}

/// A number written in decimal digits, without leading zeros.
pub open spec fn decimal_of(n: nat) -> Seq<char>
    decreases n,
{
    if n < 10 {
        seq![digit_of(n)]
    } else {
        decimal_of(n / 10).push(digit_of(n % 10))
    }
}

fn digit(d: usize) -> (text: &'static str)
    requires
        d < 10,
    ensures
        text@ == seq![digit_of(d as nat)],
{
    proof {
        reveal_strlit("0");
        reveal_strlit("1");
        reveal_strlit("2");
        reveal_strlit("3");
        reveal_strlit("4");
        reveal_strlit("5");
        reveal_strlit("6");
        reveal_strlit("7");
        reveal_strlit("8");
        reveal_strlit("9");
    }
    let text = if d == 0 {
        "0"
    } else if d == 1 {
        "1"
    } else if d == 2 {
        "2"
    } else if d == 3 {
        "3"
    } else if d == 4 {
        "4"
    } else if d == 5 {
        "5"
    } else if d == 6 {
        "6"
    } else if d == 7 {
        "7"
    } else if d == 8 {
        "8"
    } else {
        "9"
    };
    assert(text@ =~= seq![digit_of(d as nat)]);
    text
}

/// Writes a number in decimal digits.
pub fn decimal(n: usize) -> (text: String)
    ensures
        text@ == decimal_of(n as nat),
    decreases n,
{
    if n < 10 {
        String::from_str(digit(n))
    } else {
        let mut text = decimal(n / 10);
        text.append(digit(n % 10));
        text
    }
}

} // verus!
