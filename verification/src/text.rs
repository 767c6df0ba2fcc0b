//! Texts as sequences of characters: where one occurs in another, and how they compare.

use vstd::prelude::*;

verus! {

/// `pat` stands in `text` at index `at`.
pub open spec fn occurs_at(text: Seq<char>, at: int, pat: Seq<char>) -> bool {
    &&& 0 <= at
    &&& at + pat.len() <= text.len()
    &&& text.subrange(at, at + pat.len()) == pat
}

/// `text` begins with `pat`.
pub open spec fn starts_with(text: Seq<char>, pat: Seq<char>) -> bool {
    occurs_at(text, 0, pat)
}

/// `text` ends with `pat`.
pub open spec fn ends_with(text: Seq<char>, pat: Seq<char>) -> bool {
    occurs_at(text, text.len() - pat.len(), pat)
}

/// The texts of a list of strings.
pub open spec fn texts(list: Seq<String>) -> Seq<Seq<char>> {
    Seq::new(list.len(), |i: int| list[i]@)
}

/// The texts of a list of string slices.
pub open spec fn slice_texts(list: Seq<&str>) -> Seq<Seq<char>> {
    Seq::new(list.len(), |i: int| list[i]@)
}

/// The text of an optional string slice.
pub open spec fn optional_text(value: Option<&str>) -> Option<Seq<char>> {
    match value {
        Some(text) => Some(text@),
        None => None,
    }
}

/// The text of an optional string.
pub open spec fn optional_string_text(value: Option<String>) -> Option<Seq<char>> {
    match value {
        Some(text) => Some(text@),
        None => None,
    }
}

/// The optional string as an optional slice.
pub fn borrow(value: &Option<String>) -> (r: Option<&str>)
    ensures
        optional_text(r) == optional_string_text(*value),
{
    match value {
        Some(text) => Some(text.as_str()),
        None => None,
    }
}

/// The optional slice as an optional string.
pub fn owned(text: Option<&str>) -> (r: Option<String>)
    ensures
        optional_string_text(r) == optional_text(text),
{
    match text {
        Some(text) => Some(text.to_owned()),
        None => None,
    }
}

/// The characters of `text`, in order.
pub fn chars_of(text: &str) -> (out: Vec<char>)
    ensures
        out@ == text@,
{
    let mut out: Vec<char> = Vec::new();
    for c in it: text.chars()
        invariant
            out@ == it.seq().take(it.index() as int),
            it.seq() == text@,
    {
        out.push(c);
    }
    out
}

/// Whether `pat` stands in `text` at index `at`.
pub fn occurs(text: &Vec<char>, at: usize, pat: &Vec<char>) -> (r: bool)
    ensures
        r == occurs_at(text@, at as int, pat@),
{
    if at > text.len() || pat.len() > text.len() - at {
        return false;
    }
    let mut i: usize = 0;
    while i < pat.len()
        invariant
            i <= pat.len(),
            at + pat.len() <= text.len(),
            forall|j: int| 0 <= j < i ==> text@[at + j] == pat@[j],
        decreases pat.len() - i,
    {
        if text[at + i] != pat[i] {
            proof {
                let cut = text@.subrange(at as int, at + pat.len());
                assert(cut[i as int] == text@[at + i]);
            }
            return false;
        }
        i += 1;
    }
    assert(text@.subrange(at as int, at + pat.len()) =~= pat@);
    true
}

/// The index behind `pat`, where `pat` stands in `text` at index `at`.
pub fn skip(text: &Vec<char>, at: usize, pat: &Vec<char>) -> (r: Option<usize>)
    ensures
        match r {
            Some(end) => occurs_at(text@, at as int, pat@) && end == at + pat@.len(),
            None => !occurs_at(text@, at as int, pat@),
        },
{
    if occurs(text, at, pat) {
        assert(at + pat@.len() <= text.len());
        Some(at + pat.len())
    } else {
        None
    }
}

/// Whether the two texts are the same.
pub fn same_text(a: &str, b: &str) -> (r: bool)
    ensures
        r == (a@ == b@),
{
    let x = chars_of(a);
    let y = chars_of(b);
    if x.len() != y.len() {
        return false;
    }
    assert(x@.subrange(0, x@.len() as int) =~= x@);
    occurs(&x, 0, &y)
}

/// Whether `c` is one of the characters of `text`.
pub fn holds_char(text: &Vec<char>, c: char) -> (r: bool)
    ensures
        r == text@.contains(c),
{
    let mut i: usize = 0;
    while i < text.len()
        invariant
            i <= text.len(),
            forall|j: int| 0 <= j < i ==> text@[j] != c,
        decreases text.len() - i,
    {
        if text[i] == c {
            return true;
        }
        i += 1;
    }
    false
}

/// The character that writes the digit `d`.
pub open spec fn digit_char(d: nat) -> char {
    if d == 0 {
        '0'
    } else if d == 1 {
        '1'
    } else if d == 2 {
        '2'
    } else if d == 3 {
        '3'
    } else if d == 4 {
        '4'
    } else if d == 5 {
        '5'
    } else if d == 6 {
        '6'
    } else if d == 7 {
        '7'
    } else if d == 8 {
        '8'
    } else {
        '9'
    }
}

/// The number `n` written in base ten, without leading zeros.
pub open spec fn decimal_text(n: nat) -> Seq<char>
    decreases n,
{
    if n < 10 {
        seq![digit_char(n)]
    } else {
        decimal_text(n / 10).push(digit_char(n % 10))
    }
}

/// The digit `d`, written.
fn digit(d: u16) -> (out: &'static str)
    requires
        d < 10,
    ensures
        out@ == seq![digit_char(d as nat)],
{
    proof {
        reveal_strlit("0");
        reveal_strlit("1");
        reveal_strlit("2");
        reveal_strlit("3");
        reveal_strlit("4");
        reveal_strlit("5");
        reveal_strlit("6");
        reveal_strlit("7");
        reveal_strlit("8");
        reveal_strlit("9");
    }
    let out = if d == 0 {
        "0"
    } else if d == 1 {
        "1"
    } else if d == 2 {
        "2"
    } else if d == 3 {
        "3"
    } else if d == 4 {
        "4"
    } else if d == 5 {
        "5"
    } else if d == 6 {
        "6"
    } else if d == 7 {
        "7"
    } else if d == 8 {
        "8"
    } else {
        "9"
    };
    out
}

/// Writes `n` in base ten.
pub fn decimal(n: u16) -> (out: String)
    ensures
        out@ == decimal_text(n as nat),
    decreases n,
{
    if n < 10 {
        digit(n).to_owned()
    } else {
        let mut out = decimal(n / 10);
        out.append(digit(n % 10));
        out
    }
}

} // verus!
