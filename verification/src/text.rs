//! Substrings of texts, compared character by character, and the decimal
//! digits of numbers.

use vstd::prelude::*;
use vstd::string::*;

verus! {

/// `needle` stands in `hay` at position `at`.
pub open spec fn occurs_at(needle: Seq<char>, hay: Seq<char>, at: int) -> bool {
    0 <= at && at + needle.len() <= hay.len() && hay.subrange(at, at + needle.len()) == needle
}

/// `needle` is a contiguous run of the characters of `hay`. The comparison is
/// exact: no case folding, no trimming.
pub open spec fn is_substring(needle: Seq<char>, hay: Seq<char>) -> bool {
    exists|at: int| #[trigger] occurs_at(needle, hay, at)
}

/// One of the two texts is a substring of the other.
pub open spec fn related(term: Seq<char>, field: Seq<char>) -> bool {
    is_substring(field, term) || is_substring(term, field)
}

/// The empty text is a substring of every text.
pub proof fn lemma_empty_is_substring(hay: Seq<char>)
    ensures
        is_substring(Seq::<char>::empty(), hay),
{
    assert(hay.subrange(0, 0) =~= Seq::<char>::empty());
    assert(occurs_at(Seq::<char>::empty(), hay, 0));
}

/// The characters of a text, in order.
pub fn chars_of(text: &str) -> (chars: Vec<char>)
    ensures
        chars@ == text@,
{
    let mut chars: Vec<char> = Vec::new();
    for c in it: text.chars()
        invariant
            it.seq() == text@,
            chars@.len() == it.index(),
            forall|j: int| 0 <= j < chars@.len() ==> chars@[j] == it.seq()[j],
    {
        chars.push(c);
    }
    assert(chars@ =~= text@);
    chars
}

/// Whether `needle` stands in `hay` at position `at`.
fn stands_at(needle: &Vec<char>, hay: &Vec<char>, at: usize) -> (r: bool)
    requires
        at + needle@.len() <= hay@.len() <= usize::MAX,
    ensures
        r == occurs_at(needle@, hay@, at as int),
{
    let mut k: usize = 0;
    while k < needle.len()
        invariant
            k <= needle@.len(),
            at + needle@.len() <= hay@.len() <= usize::MAX,
            forall|j: int| 0 <= j < k ==> hay@[at + j] == needle@[j],
        decreases needle@.len() - k,
    {
        if hay[at + k] != needle[k] {
            assert(hay@.subrange(at as int, at + needle@.len())[k as int] != needle@[k as int]);
            return false;
        }
        k += 1;
    }
    assert(hay@.subrange(at as int, at + needle@.len()) =~= needle@);
    true
}

/// Whether `needle` is a contiguous run of the characters of `hay`.
pub fn contains(hay: &str, needle: &str) -> (found: bool)
    ensures
        found == is_substring(needle@, hay@),
{
    let hay_chars = chars_of(hay);
    let needle_chars = chars_of(needle);
    if needle_chars.len() == 0 {
        proof {
            assert(needle@ =~= Seq::<char>::empty());
            lemma_empty_is_substring(hay@);
        }
        return true;
    }
    if needle_chars.len() > hay_chars.len() {
        return false;
    }
    let last: usize = hay_chars.len() - needle_chars.len();
    let mut at: usize = 0;
    while at <= last
        invariant
            hay_chars@ == hay@,
            needle_chars@ == needle@,
            last == hay@.len() - needle@.len(),
            hay@.len() <= usize::MAX,
            last < usize::MAX,
            at <= last + 1,
            forall|i: int| 0 <= i < at ==> !occurs_at(needle@, hay@, i),
        decreases last + 1 - at,
    {
        if stands_at(&needle_chars, &hay_chars, at) {
            return true;
        }
        at += 1;
    }
    false
}

/// Whether one of the two texts is a substring of the other.
pub fn texts_related(term: &str, field: &str) -> (r: bool)
    ensures
        r == related(term@, field@),
{
    contains(term, field) || contains(field, term)
}

/// The decimal digit of a value below ten.
pub open spec fn digit(n: nat) -> char {
    (0x30 + n % 10) as u8 as char
}

/// The decimal digits of a number, with zeros in front where it has fewer
/// than `width` digits.
pub open spec fn padded(n: nat, width: nat) -> Seq<char>
    decreases n, width,
{
    if n < 10 && width <= 1 {
        seq![digit(n)]
    } else {
        padded(n / 10, if width >= 1 { (width - 1) as nat } else { 0 }).push(digit(n % 10))
    }
}

/// The text of one decimal digit.
fn digit_text(d: u16) -> (text: &'static str)
    requires
        d < 10,
    ensures
        text@ == seq![digit(d as nat)],
{
    proof {
        reveal_strlit("0");
        reveal_strlit("1");
        reveal_strlit("2");
        reveal_strlit("3");
        reveal_strlit("4");
        reveal_strlit("5");
        reveal_strlit("6");
        reveal_strlit("7");
        reveal_strlit("8");
        reveal_strlit("9");
    }
    let text = match d {
        0 => "0",
        1 => "1",
        2 => "2",
        3 => "3",
        4 => "4",
        5 => "5",
        6 => "6",
        7 => "7",
        8 => "8",
        _ => "9",
    };
    assert(text@ =~= seq![digit(d as nat)]);
    text
}

/// The decimal digits of a number.
pub fn decimal(n: u16) -> (text: String)
    ensures
        text@ == padded(n as nat, 1),
    decreases n,
{
    if n < 10 {
        String::from_str(digit_text(n))
    } else {
        let front = decimal(n / 10);
        let text = front.concat(digit_text(n % 10));
        assert(padded((n / 10) as nat, 0) == padded((n / 10) as nat, 1));
        assert(text@ =~= padded(n as nat, 1));
        text
    }
}

} // verus!
