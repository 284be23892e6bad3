//! Text helpers over `Seq<char>` views: collecting characters, substring
//! search and decimal rendering.

use vstd::prelude::*;
use vstd::string::StringExecFns;

verus! {

/// `needle` stands in `hay` at offset `at`.
pub open spec fn occurs_at(needle: Seq<char>, hay: Seq<char>, at: int) -> bool {
    &&& 0 <= at
    &&& at + needle.len() <= hay.len()
    &&& hay.subrange(at, at + needle.len()) == needle
}

/// `needle` is a contiguous run of characters of `hay`. The empty text is a
/// substring of every text.
pub open spec fn is_substring(needle: Seq<char>, hay: Seq<char>) -> bool {
    exists|at: int| occurs_at(needle, hay, at)
}

/// The character that writes the decimal digit `d`.
pub open spec fn digit_char(d: int) -> char {
    if d == 0 {
        '0'
    } else if d == 1 {
        '1'
    } else if d == 2 {
        '2'
    } else if d == 3 {
        '3'
    } else if d == 4 {
        '4'
    } else if d == 5 {
        '5'
    } else if d == 6 {
        '6'
    } else if d == 7 {
        '7'
    } else if d == 8 {
        '8'
    } else {
        '9'
    }
}

/// `n` in decimal notation, most significant digit first, without padding.
pub open spec fn decimal(n: nat) -> Seq<char>
    decreases n,
{
    if n < 10 {
        seq![digit_char(n as int)]
    } else {
        decimal(n / 10).push(digit_char((n % 10) as int))
    }
}

/// The number of decimal digits of `n`.
pub open spec fn decimal_len(n: nat) -> nat
    decreases n,
{
    if n < 10 {
        1
    } else {
        decimal_len(n / 10) + 1
    }
}

/// `decimal` writes exactly `decimal_len` characters, each of them a digit.
pub proof fn lemma_decimal_digits(n: nat)
    ensures
        decimal(n).len() == decimal_len(n),
        forall|i: int|
            0 <= i < decimal(n).len() ==> exists|d: int|
                0 <= d < 10 && #[trigger] decimal(n)[i] == digit_char(d),
    decreases n,
{
    if n < 10 {
        assert(decimal(n)[0] == digit_char(n as int));
    } else {
        lemma_decimal_digits(n / 10);
        let head = decimal(n / 10);
        let last = (n % 10) as int;
        assert forall|i: int| 0 <= i < decimal(n).len() implies exists|d: int|
            0 <= d < 10 && #[trigger] decimal(n)[i] == digit_char(d) by {
            if i < head.len() {
                assert(decimal(n)[i] == head[i]);
                let d = choose|d: int| 0 <= d < 10 && head[i] == digit_char(d);
                assert(decimal(n)[i] == digit_char(d));
            } else {
                assert(decimal(n)[i] == digit_char(last));
            }
        }
    }
}

/// A number of six digits is written with six characters.
pub proof fn lemma_six_digits(n: nat)
    requires
        100_000 <= n <= 999_999,
    ensures
        decimal(n).len() == 6,
{
    lemma_decimal_digits(n);
    reveal_with_fuel(decimal_len, 7);
}

/// The characters of `s`, in order.
pub fn chars_of(s: &str) -> (v: Vec<char>)
    ensures
        v@ == s@,
{
    let mut v: Vec<char> = Vec::new();
    for c in it: s.chars()
        invariant
            it.seq() == s@,
            v@ == it.seq().take(it.index()),
    {
        v.push(c);
    }
    v
}

/// Whether `needle` stands in `hay` at offset `at`.
pub fn matches_at(hay: &Vec<char>, needle: &Vec<char>, at: usize) -> (found: bool)
    requires
        at + needle.len() <= hay.len(),
    ensures
        found == occurs_at(needle@, hay@, at as int),
{
    let mut i: usize = 0;
    while i < needle.len()
        invariant
            at + needle.len() <= hay.len(),
            i <= needle.len(),
            forall|j: int| 0 <= j < i ==> hay@[at + j] == needle@[j],
        decreases needle.len() - i,
    {
        if hay[at + i] != needle[i] {
            proof {
                let window = hay@.subrange(at as int, at + needle.len());
                assert(window[i as int] == hay@[at + i]);
            }
            return false;
        }
        i += 1;
    }
    assert(hay@.subrange(at as int, at + needle.len()) =~= needle@);
    true
}

/// The first offset at which `needle` stands in `hay`, if there is one.
pub fn find_chars(hay: &Vec<char>, needle: &Vec<char>) -> (at: Option<usize>)
    ensures
        at is Some <==> is_substring(needle@, hay@),
        at matches Some(k) ==> occurs_at(needle@, hay@, k as int) && forall|j: int|
            0 <= j < k ==> !occurs_at(needle@, hay@, j),
{
    if needle.len() > hay.len() {
        return None;
    }
    let last: usize = hay.len() - needle.len();
    let mut k: usize = 0;
    loop
        invariant
            last == hay.len() - needle.len(),
            k <= last,
            forall|j: int| 0 <= j < k ==> !occurs_at(needle@, hay@, j),
        decreases last - k,
    {
        if matches_at(hay, needle, k) {
            return Some(k);
        }
        if k == last {
            return None;
        }
        k += 1;
    }
}

/// Whether `needle` is a substring of `hay`.
pub fn contains(hay: &str, needle: &str) -> (found: bool)
    ensures
        found == is_substring(needle@, hay@),
{
    let hay_chars = chars_of(hay);
    let needle_chars = chars_of(needle);
    find_chars(&hay_chars, &needle_chars).is_some()
}

/// Whether two texts hold the same characters.
pub fn same_text(a: &str, b: &str) -> (same: bool)
    ensures
        same == (a@ == b@),
{
    let a_chars = chars_of(a);
    let b_chars = chars_of(b);
    if a_chars.len() != b_chars.len() {
        return false;
    }
    let found = matches_at(&a_chars, &b_chars, 0);
    assert(a@.subrange(0, a@.len() as int) =~= a@);
    found
}

/// The text of one decimal digit.
pub fn digit_str(d: u32) -> (s: &'static str)
    requires
        d < 10,
    ensures
        s@ == seq![digit_char(d as int)],
{
    proof {
        reveal_strlit("0");
        reveal_strlit("1");
        reveal_strlit("2");
        reveal_strlit("3");
        reveal_strlit("4");
        reveal_strlit("5");
        reveal_strlit("6");
        reveal_strlit("7");
        reveal_strlit("8");
        reveal_strlit("9");
    }
    let s = match d {
        0 => "0",
        1 => "1",
        2 => "2",
        3 => "3",
        4 => "4",
        5 => "5",
        6 => "6",
        7 => "7",
        8 => "8",
        _ => "9",
    };
    assert(s@ =~= seq![digit_char(d as int)]);
    s
}

/// Appends `n` in decimal notation to `out`.
pub fn push_decimal(out: &mut String, n: u32)
    ensures
        final(out)@ == old(out)@ + decimal(n as nat),
    decreases n,
{
    if n >= 10 {
        push_decimal(out, n / 10);
    }
    out.append(digit_str(n % 10));
    assert(out@ =~= old(out)@ + decimal(n as nat));
}

} // verus!
