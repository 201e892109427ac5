//! Plain text: the decimal form of a number, for messages and for the textual
//! form of a color, and the search for one text in another or at its
//! beginning.

use vstd::prelude::*;
use vstd::string::*;

verus! {

/// The character of a single decimal digit; `'0'` for anything that is no digit.
pub open spec fn digit_char(d: nat) -> char {
    if d == 1 {
        '1'
    } else if d == 2 {
        '2'
    } else if d == 3 {
        '3'
    } else if d == 4 {
        '4'
    } else if d == 5 {
        '5'
    } else if d == 6 {
        '6'
    } else if d == 7 {
        '7'
    } else if d == 8 {
        '8'
    } else if d == 9 {
        '9'
    } else {
        '0'
    }
}

/// The decimal digits of `n`, most significant first, without leading zeros;
/// zero is written as the single digit `0`.
pub open spec fn decimal_digits(n: nat) -> Seq<char>
    decreases n,
{
    if n < 10 {
        seq![digit_char(n)]
    } else {
        decimal_digits(n / 10).push(digit_char(n % 10))
    }
}

/// The one-character text of a decimal digit.
fn digit_text(d: usize) -> (text: &'static str)
    requires
        d < 10,
    ensures
        text@ == seq![digit_char(d as nat)],
{
    proof {
        reveal_strlit("0");
        reveal_strlit("1");
        reveal_strlit("2");
        reveal_strlit("3");
        reveal_strlit("4");
        reveal_strlit("5");
        reveal_strlit("6");
        reveal_strlit("7");
        reveal_strlit("8");
        reveal_strlit("9");
    }
    let text = if d == 0 {
        "0"
    } else if d == 1 {
        "1"
    } else if d == 2 {
        "2"
    } else if d == 3 {
        "3"
    } else if d == 4 {
        "4"
    } else if d == 5 {
        "5"
    } else if d == 6 {
        "6"
    } else if d == 7 {
        "7"
    } else if d == 8 {
        "8"
    } else {
        "9"
    };
    assert(text@ =~= seq![digit_char(d as nat)]);
    text
}

/// Writes `n` in decimal.
pub fn decimal(n: usize) -> (text: String)
    ensures
        text@ == decimal_digits(n as nat),
    decreases n,
{
    if n < 10 {
        String::from_str(digit_text(n))
    } else {
        let mut text = decimal(n / 10);
        text.append(digit_text(n % 10));
        assert(text@ =~= decimal_digits(n as nat));
        text
    }
}

/// Whether `needle` stands in `text` at offset `at`.
pub open spec fn occurs_at(needle: Seq<char>, text: Seq<char>, at: int) -> bool {
    &&& 0 <= at
    &&& at + needle.len() <= text.len()
    &&& text.subrange(at, at + needle.len()) == needle
}

/// Whether `needle` stands somewhere in `text`.
pub open spec fn occurs_in(needle: Seq<char>, text: Seq<char>) -> bool {
    exists|at: int| occurs_at(needle, text, at)
}

/// Whether `text` begins with `prefix`.
pub open spec fn begins_with(prefix: Seq<char>, text: Seq<char>) -> bool {
    occurs_at(prefix, text, 0)
}

/// Whether `needle` stands in `text` at offset `at`, compared character by
/// character. `size` and `len` are the lengths of `text` and of `needle`.
fn stands_at(text: &str, needle: &str, at: usize, size: usize, len: usize) -> (found: bool)
    requires
        size == text@.len(),
        len == needle@.len(),
        at + len <= size,
    ensures
        found == occurs_at(needle@, text@, at as int),
{
    let mut j: usize = 0;
    while j < len
        invariant
            size == text@.len(),
            len == needle@.len(),
            at + len <= size,
            j <= len,
            forall|k: int| 0 <= k < j ==> text@[at + k] == needle@[k],
        decreases len - j,
    {
        if text.get_char(at + j) != needle.get_char(j) {
            assert(text@.subrange(at as int, at + len)[j as int] != needle@[j as int]);
            return false;
        }
        j += 1;
    }
    assert(text@.subrange(at as int, at + len) =~= needle@);
    true
}

/// Whether `text` begins with `prefix`.
pub fn starts_with(text: &str, prefix: &str) -> (found: bool)
    ensures
        found == begins_with(prefix@, text@),
{
    let size = text.unicode_len();
    let len = prefix.unicode_len();
    if len > size {
        false
    } else {
        stands_at(text, prefix, 0, size, len)
    }
}

/// Whether `needle` stands somewhere in `text`.
pub fn contains(text: &str, needle: &str) -> (found: bool)
    ensures
        found == occurs_in(needle@, text@),
{
    let size = text.unicode_len();
    let len = needle.unicode_len();
    if len > size {
        return false;
    }
    let last = size - len;
    let mut at: usize = 0;
    loop
        invariant
            size == text@.len(),
            len == needle@.len(),
            last == size - len,
            at <= last,
            forall|k: int| 0 <= k < at ==> !occurs_at(needle@, text@, k),
        decreases last - at,
    {
        if stands_at(text, needle, at, size, len) {
            return true;
        }
        if at == last {
            return false;
        }
        at += 1;
    }
}

} // verus!
