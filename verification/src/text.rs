//! Small verified operations on texts, viewed as sequences of characters.

use vstd::prelude::*;
use vstd::string::*;

verus! {

/// Whether `char::is_whitespace` holds of `c`, that is, whether `c` has the
/// Unicode property `White_Space`. The standard library defines the property
/// by reference to the Unicode Character Database and lists no code points,
/// so the set is named here and not spelled out.
pub uninterp spec fn is_white_space(c: char) -> bool;

/// `char::is_whitespace`.
#[verifier::external_body]
pub(crate) fn white_space(c: char) -> (yes: bool)
    ensures
        yes == is_white_space(c),
{
    c.is_whitespace()
}

/// Whether `marker` stands in `text` at position `at`.
pub open spec fn occurs_at(text: Seq<char>, marker: Seq<char>, at: int) -> bool {
    &&& 0 <= at
    &&& at + marker.len() <= text.len()
    &&& text.subrange(at, at + marker.len()) == marker
}

/// Whether `at` is the first position of `text` at which `marker` stands.
pub open spec fn first_occurrence(text: Seq<char>, marker: Seq<char>, at: int) -> bool {
    &&& occurs_at(text, marker, at)
    &&& forall|j: int| 0 <= j < at ==> !occurs_at(text, marker, j)
}

/// Whether `marker` stands anywhere in `text`.
pub open spec fn contains_marker(text: Seq<char>, marker: Seq<char>) -> bool {
    exists|j: int| occurs_at(text, marker, j)
}

/// The first position of `text` at which `marker` stands.
pub open spec fn first_index(text: Seq<char>, marker: Seq<char>) -> int {
    choose|at: int| first_occurrence(text, marker, at)
}

/// What follows the first place in `text` at which `marker` stands.
pub open spec fn after_marker(text: Seq<char>, marker: Seq<char>) -> Option<Seq<char>> {
    if contains_marker(text, marker) {
        Some(text.skip(first_index(text, marker) + marker.len()))
    } else {
        None
    }
}

/// `text` without `prefix` at its front, where it begins with it; else `text`.
pub open spec fn without_prefix(text: Seq<char>, prefix: Seq<char>) -> Seq<char> {
    if prefix.is_prefix_of(text) {
        text.skip(prefix.len() as int)
    } else {
        text
    }
}

/// Number of white-space characters at the front of `text`.
pub open spec fn leading_space(text: Seq<char>) -> nat
    decreases text.len(),
{
    if text.len() > 0 && is_white_space(text[0]) {
        1 + leading_space(text.drop_first())
    } else {
        0
    }
}

/// Number of white-space characters at the back of `text`.
pub open spec fn trailing_space(text: Seq<char>) -> nat
    decreases text.len(),
{
    if text.len() > 0 && is_white_space(text.last()) {
        1 + trailing_space(text.drop_last())
    } else {
        0
    }
}

/// `text` without the white space at its front and at its back.
pub open spec fn trimmed(text: Seq<char>) -> Seq<char> {
    let front = text.skip(leading_space(text) as int);
    front.take(front.len() - trailing_space(front))
}

/// The parts joined into one text, with `separator` between neighbours.
pub open spec fn joined(parts: Seq<Seq<char>>, separator: Seq<char>) -> Seq<char>
    decreases parts.len(),
{
    if parts.len() == 0 {
        Seq::empty()
    } else if parts.len() == 1 {
        parts[0]
    } else {
        joined(parts.drop_last(), separator) + separator + parts.last()
    }
}

/// The character that writes the digit `d`.
pub open spec fn digit_char(d: nat) -> char {
    if d == 0 {
        '0'
    } else if d == 1 {
        '1'
    } else if d == 2 {
        '2'
    } else if d == 3 {
        '3'
    } else if d == 4 {
        '4'
    } else if d == 5 {
        '5'
    } else if d == 6 {
        '6'
    } else if d == 7 {
        '7'
    } else if d == 8 {
        '8'
    } else {
        '9'
    }
}

/// The decimal numeral of `n`, without leading zeros.
pub open spec fn decimal(n: nat) -> Seq<char>
    decreases n,
{
    if n < 10 {
        seq![digit_char(n)]
    } else {
        decimal(n / 10).push(digit_char(n % 10))
    }
}

/// The characters of `text`, in order.
pub fn to_chars(text: &str) -> (chars: Vec<char>)
    ensures
        chars@ == text@,
{
    let mut chars: Vec<char> = Vec::new();
    for c in it: text.chars()
        invariant
            chars@ == it.seq().take(it.index() as int),
            it.seq() == text@,
    {
        chars.push(c);
    }
    chars
}

/// Whether `marker` stands in `text` at position `at`.
fn matches_at(text: &Vec<char>, marker: &Vec<char>, at: usize) -> (yes: bool)
    requires
        at + marker@.len() <= text@.len(),
    ensures
        yes == occurs_at(text@, marker@, at as int),
{
    let size: usize = text.len();
    let mut k: usize = 0;
    while k < marker.len()
        invariant
            k <= marker@.len(),
            at + marker@.len() <= text@.len() == size,
            forall|j: int| 0 <= j < k ==> text@[at + j] == marker@[j],
        decreases marker@.len() - k,
    {
        if text[at + k] != marker[k] {
            proof {
                let part = text@.subrange(at as int, at + marker@.len());
                assert(part[k as int] != marker@[k as int]);
            }
            return false;
        }
        k = k + 1;
    }
    assert(text@.subrange(at as int, at + marker@.len()) =~= marker@);
    true
}

/// Position of the first place in `text` at which `marker` stands.
pub fn find(text: &str, marker: &str) -> (found: Option<usize>)
    ensures
        match found {
            Some(at) => first_occurrence(text@, marker@, at as int),
            None => !contains_marker(text@, marker@),
        },
{
    let chars = to_chars(text);
    let wanted = to_chars(marker);
    if wanted.len() > chars.len() {
        return None;
    }
    let last: usize = chars.len() - wanted.len();
    let mut at: usize = 0;
    loop
        invariant
            at <= last,
            last + wanted@.len() == chars@.len(),
            chars@ == text@,
            wanted@ == marker@,
            forall|j: int| 0 <= j < at ==> !occurs_at(chars@, wanted@, j),
        decreases last - at,
    {
        if matches_at(&chars, &wanted, at) {
            return Some(at);
        }
        if at == last {
            return None;
        }
        at = at + 1;
    }
}

/// A marker has one first position at most.
pub proof fn lemma_first_index(text: Seq<char>, marker: Seq<char>, at: int)
    requires
        first_occurrence(text, marker, at),
    ensures
        contains_marker(text, marker),
        first_index(text, marker) == at,
{
    let chosen = first_index(text, marker);
    assert(first_occurrence(text, marker, chosen));
    if chosen < at {
        assert(!occurs_at(text, marker, chosen));
    } else if at < chosen {
        assert(!occurs_at(text, marker, at));
    }
}

/// What follows the first place in `text` at which `marker` stands.
pub fn text_after<'a>(text: &'a str, marker: &str) -> (rest: Option<&'a str>)
    ensures
        match rest {
            Some(rest) => after_marker(text@, marker@) == Some(rest@),
            None => after_marker(text@, marker@) is None,
        },
{
    match find(text, marker) {
        Some(at) => {
            proof {
                lemma_first_index(text@, marker@, at as int);
            }
            let size: usize = text.unicode_len();
            let width: usize = marker.unicode_len();
            Some(text.substring_char(at + width, size))
        },
        None => None,
    }
}

/// Whether the two texts hold the same characters.
pub fn same(left: &str, right: &str) -> (yes: bool)
    ensures
        yes == (left@ == right@),
{
    let a = to_chars(left);
    let b = to_chars(right);
    if a.len() != b.len() {
        return false;
    }
    let yes = matches_at(&a, &b, 0);
    assert(a@.subrange(0, a@.len() as int) =~= a@);
    yes
}

/// The part of `text` behind `prefix`, where `text` begins with it.
pub fn strip_prefix<'a>(text: &'a str, prefix: &str) -> (rest: Option<&'a str>)
    ensures
        match rest {
            Some(rest) => prefix@.is_prefix_of(text@) && rest@ == text@.skip(prefix@.len() as int),
            None => !prefix@.is_prefix_of(text@),
        },
{
    let chars = to_chars(text);
    let wanted = to_chars(prefix);
    if wanted.len() <= chars.len() && matches_at(&chars, &wanted, 0) {
        assert(text@.subrange(0, prefix@.len() as int) == prefix@);
        Some(text.substring_char(wanted.len(), chars.len()))
    } else {
        None
    }
}

proof fn lemma_leading_space(text: Seq<char>, n: int)
    requires
        0 <= n <= text.len(),
        forall|j: int| 0 <= j < n ==> is_white_space(text[j]),
        n < text.len() ==> !is_white_space(text[n]),
    ensures
        leading_space(text) == n,
    decreases n,
{
    if n > 0 {
        lemma_leading_space(text.drop_first(), n - 1);
    }
}

proof fn lemma_trailing_space(text: Seq<char>, n: int)
    requires
        0 <= n <= text.len(),
        forall|j: int| text.len() - n <= j < text.len() ==> is_white_space(text[j]),
        n < text.len() ==> !is_white_space(text[text.len() - n - 1]),
    ensures
        trailing_space(text) == n,
    decreases n,
{
    if n > 0 {
        lemma_trailing_space(text.drop_last(), n - 1);
    }
}

/// `text` without the white space at its front and at its back.
pub fn trim(text: &str) -> (rest: &str)
    ensures
        rest@ == trimmed(text@),
{
    let chars = to_chars(text);
    let mut from: usize = 0;
    while from < chars.len() && white_space(chars[from])
        invariant
            from <= chars@.len(),
            forall|j: int| 0 <= j < from ==> is_white_space(chars@[j]),
        decreases chars@.len() - from,
    {
        from = from + 1;
    }
    let mut to: usize = chars.len();
    while to > from && white_space(chars[to - 1])
        invariant
            from <= to <= chars@.len(),
            forall|j: int| to <= j < chars@.len() ==> is_white_space(chars@[j]),
        decreases to,
    {
        to = to - 1;
    }
    proof {
        lemma_leading_space(text@, from as int);
        let front = text@.skip(from as int);
        lemma_trailing_space(front, chars@.len() - to);
        assert(front.take(front.len() - (chars@.len() - to)) =~= text@.subrange(
            from as int,
            to as int,
        ));
    }
    text.substring_char(from, to)
}

/// The parts joined into one text, with `separator` between neighbours.
pub fn join(parts: &Vec<String>, separator: &str) -> (text: String)
    ensures
        text@ == joined(parts.deep_view(), separator@),
{
    let mut text = String::new();
    let mut k: usize = 0;
    while k < parts.len()
        invariant
            k <= parts@.len(),
            text@ == joined(parts.deep_view().take(k as int), separator@),
        decreases parts@.len() - k,
    {
        proof {
            let before = parts.deep_view().take(k as int);
            let after = parts.deep_view().take(k + 1);
            assert(after.drop_last() =~= before);
            assert(after.last() == parts@[k as int]@);
            assert(Seq::<char>::empty() + parts@[k as int]@ =~= parts@[k as int]@);
        }
        if k > 0 {
            text.append(separator);
        }
        text.append(parts[k].as_str());
        k = k + 1;
    }
    assert(parts.deep_view().take(k as int) =~= parts.deep_view());
    text
}

/// The text that writes the digit `d`.
fn digit_text(d: u16) -> (text: &'static str)
    requires
        d < 10,
    ensures
        text@ == seq![digit_char(d as nat)],
{
    proof {
        reveal_strlit("0");
        reveal_strlit("1");
        reveal_strlit("2");
        reveal_strlit("3");
        reveal_strlit("4");
        reveal_strlit("5");
        reveal_strlit("6");
        reveal_strlit("7");
        reveal_strlit("8");
        reveal_strlit("9");
    }
    let text = if d == 0 {
        "0"
    } else if d == 1 {
        "1"
    } else if d == 2 {
        "2"
    } else if d == 3 {
        "3"
    } else if d == 4 {
        "4"
    } else if d == 5 {
        "5"
    } else if d == 6 {
        "6"
    } else if d == 7 {
        "7"
    } else if d == 8 {
        "8"
    } else {
        "9"
    };
    assert(text@ =~= seq![digit_char(d as nat)]);
    text
}

/// The decimal numeral of `n`, without leading zeros.
pub fn decimal_text(n: u16) -> (text: String)
    ensures
        text@ == decimal(n as nat),
    decreases n,
{
    if n < 10 {
        String::from_str(digit_text(n))
    } else {
        let mut text = decimal_text(n / 10);
        text.append(digit_text(n % 10));
        assert(text@ =~= decimal((n / 10) as nat).push(digit_char((n % 10) as nat)));
        text
    }
}

} // verus!
