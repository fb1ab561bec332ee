//! Searching and splitting text, stated over sequences of characters.

use vstd::prelude::*;

verus! {

/// Whether `pattern` stands in `text` at position `at`.
pub open spec fn occurs_at(text: Seq<char>, pattern: Seq<char>, at: int) -> bool {
    &&& 0 <= at
    &&& at + pattern.len() <= text.len()
    &&& text.subrange(at, at + pattern.len()) == pattern
}

/// Whether `at` is the leftmost position at which `pattern` stands in `text`.
pub open spec fn is_first_occurrence(text: Seq<char>, pattern: Seq<char>, at: int) -> bool {
    &&& occurs_at(text, pattern, at)
    &&& forall|earlier: int| 0 <= earlier < at ==> !occurs_at(text, pattern, earlier)
}

/// The leftmost position at which `pattern` stands in `text`, if it stands
/// there at all.
pub open spec fn first_occurrence(text: Seq<char>, pattern: Seq<char>) -> Option<int> {
    if exists|at: int| occurs_at(text, pattern, at) {
        Some(choose|at: int| is_first_occurrence(text, pattern, at))
    } else {
        None
    }
}

/// Where the pattern stands at `at`, it has a leftmost occurrence.
proof fn lemma_least_occurrence(text: Seq<char>, pattern: Seq<char>, at: int)
    requires
        occurs_at(text, pattern, at),
    ensures
        exists|first: int| is_first_occurrence(text, pattern, first),
    decreases at,
{
    if exists|earlier: int| 0 <= earlier < at && occurs_at(text, pattern, earlier) {
        let earlier = choose|earlier: int| 0 <= earlier < at && occurs_at(text, pattern, earlier);
        lemma_least_occurrence(text, pattern, earlier);
    } else {
        assert(is_first_occurrence(text, pattern, at));
    }
}

/// What `first_occurrence` names is a leftmost occurrence, and it names one
/// wherever the pattern stands in the text.
pub proof fn lemma_first_occurrence(text: Seq<char>, pattern: Seq<char>)
    ensures
        match first_occurrence(text, pattern) {
            Some(at) => is_first_occurrence(text, pattern, at),
            None => forall|at: int| !occurs_at(text, pattern, at),
        },
{
    if exists|at: int| occurs_at(text, pattern, at) {
        let at = choose|at: int| occurs_at(text, pattern, at);
        lemma_least_occurrence(text, pattern, at);
    }
}

/// A leftmost occurrence is the one that `first_occurrence` names.
pub proof fn lemma_first_occurrence_found(text: Seq<char>, pattern: Seq<char>, at: int)
    requires
        is_first_occurrence(text, pattern, at),
    ensures
        first_occurrence(text, pattern) == Some(at),
{
    // Of two leftmost occurrences neither stands before the other.
    let chosen = choose|at: int| is_first_occurrence(text, pattern, at);
    assert(chosen == at);
}

/// A pattern that stands nowhere in the text has no first occurrence.
pub proof fn lemma_first_occurrence_absent(text: Seq<char>, pattern: Seq<char>)
    requires
        forall|at: int| 0 <= at <= text.len() - pattern.len() ==> !occurs_at(text, pattern, at),
    ensures
        first_occurrence(text, pattern) is None,
{
}

/// The characters of `text`, in order.
pub fn chars_of(text: &str) -> (chars: Vec<char>)
    ensures
        chars@ == text@,
{
    let mut chars: Vec<char> = Vec::new();
    for c in iter: text.chars()
        invariant
            iter.seq() == text@,
            chars@ == text@.take(iter.index() as int),
    {
        chars.push(c);
    }
    chars
}

/// Whether `pattern` stands in `text` at position `at`.
fn matches_at(text: &Vec<char>, pattern: &Vec<char>, at: usize) -> (matches: bool)
    requires
        at + pattern.len() <= text.len(),
    ensures
        matches == occurs_at(text@, pattern@, at as int),
{
    let mut k: usize = 0;
    while k < pattern.len()
        invariant
            at + pattern.len() <= text.len(),
            k <= pattern.len(),
            forall|j: int| 0 <= j < k ==> text@[at + j] == pattern@[j],
        decreases pattern.len() - k,
    {
        if text[at + k] != pattern[k] {
            return false;
        }
        k += 1;
    }
    assert(text@.subrange(at as int, at + pattern.len()) =~= pattern@);
    true
}

/// The leftmost position at which `pattern` stands in `text`.
pub fn find_first(text: &Vec<char>, pattern: &Vec<char>) -> (found: Option<usize>)
    ensures
        match found {
            Some(at) => first_occurrence(text@, pattern@) == Some(at as int),
            None => first_occurrence(text@, pattern@) is None,
        },
{
    if pattern.len() > text.len() {
        proof {
            lemma_first_occurrence_absent(text@, pattern@);
        }
        return None;
    }
    let last: usize = text.len() - pattern.len();
    let mut at: usize = 0;
    loop
        invariant
            last == text.len() - pattern.len(),
            at <= last,
            forall|earlier: int| 0 <= earlier < at ==> !occurs_at(text@, pattern@, earlier),
        decreases last - at,
    {
        if matches_at(text, pattern, at) {
            proof {
                lemma_first_occurrence_found(text@, pattern@, at as int);
            }
            return Some(at);
        }
        if at == last {
            proof {
                lemma_first_occurrence_absent(text@, pattern@);
            }
            return None;
        }
        at += 1;
    }
}

/// The number of characters of `text` that stand before its first
/// `separator`; the length of `text` where it holds none.
pub open spec fn head_len(text: Seq<char>, separator: char) -> nat
    decreases text.len(),
{
    if text.len() == 0 || text.first() == separator {
        0
    } else {
        1 + head_len(text.drop_first(), separator)
    }
}

/// The pieces into which the occurrences of `separator` cut `text`, in order.
/// A text without the separator is one piece, the empty text included, and a
/// separator at either end cuts off an empty piece.
pub open spec fn split(text: Seq<char>, separator: char) -> Seq<Seq<char>>
    decreases text.len(),
{
    let head = head_len(text, separator);
    if head < text.len() {
        seq![text.take(head as int)] + split(text.skip(head as int + 1), separator)
    } else {
        seq![text]
    }
}

/// `head_len` stops at the first separator and nowhere before it.
pub proof fn lemma_head_len(text: Seq<char>, separator: char)
    ensures
        head_len(text, separator) <= text.len(),
        forall|j: int| 0 <= j < head_len(text, separator) ==> text[j] != separator,
        head_len(text, separator) < text.len() ==> text[head_len(text, separator) as int]
            == separator,
    decreases text.len(),
{
    if text.len() != 0 && text.first() != separator {
        let rest = text.drop_first();
        lemma_head_len(rest, separator);
        assert forall|j: int| 0 <= j < head_len(text, separator) implies text[j] != separator by {
            if j > 0 {
                assert(text[j] == rest[j - 1]);
            }
        }
    }
}

/// A position before which no separator stands, and which holds one or ends
/// the text, is where `head_len` stops.
pub proof fn lemma_head_len_is(text: Seq<char>, separator: char, at: int)
    requires
        0 <= at <= text.len(),
        forall|j: int| 0 <= j < at ==> text[j] != separator,
        at < text.len() ==> text[at] == separator,
    ensures
        head_len(text, separator) == at,
{
    lemma_head_len(text, separator);
}

/// There is at least one piece, and no piece holds the separator.
pub proof fn lemma_split_pieces(text: Seq<char>, separator: char)
    ensures
        split(text, separator).len() >= 1,
        forall|i: int|
            #![trigger split(text, separator)[i]]
            0 <= i < split(text, separator).len() ==> !split(text, separator)[i].contains(
                separator,
            ),
    decreases text.len(),
{
    lemma_head_len(text, separator);
    let head = head_len(text, separator) as int;
    if head < text.len() {
        // The first piece ends before the first separator; the others are
        // the pieces of what follows it.
        let pieces = split(text, separator);
        let rest = text.skip(head + 1);
        lemma_split_pieces(rest, separator);
        assert forall|i: int| 0 <= i < pieces.len() implies !(#[trigger] pieces[i]).contains(
            separator,
        ) by {
            if i > 0 {
                assert(pieces[i] == split(rest, separator)[i - 1]);
            }
        }
    }
}

/// A text that holds no separator is a single piece.
pub proof fn lemma_split_without_separator(text: Seq<char>, separator: char)
    requires
        !text.contains(separator),
    ensures
        split(text, separator) == seq![text],
{
    lemma_head_len(text, separator);
}

/// Two texts without a separator, joined by one, split into those two.
pub proof fn lemma_split_pair(left: Seq<char>, right: Seq<char>, separator: char)
    requires
        !left.contains(separator),
        !right.contains(separator),
    ensures
        split(left + seq![separator] + right, separator) == seq![left, right],
{
    let text = left + seq![separator] + right;
    lemma_head_len_is(text, separator, left.len() as int);
    assert(text.take(left.len() as int) =~= left);
    assert(text.skip(left.len() as int + 1) =~= right);
    lemma_split_without_separator(right, separator);
}

/// The pieces into which the occurrences of `separator` cut `text`.
pub fn split_str(text: &str, separator: char) -> (parts: Vec<String>)
    ensures
        parts.deep_view() == split(text@, separator),
{
    let chars = chars_of(text);
    let mut parts: Vec<String> = Vec::new();
    let mut start: usize = 0;
    let mut at: usize = 0;
    proof {
        assert(text@.skip(0) =~= text@);
    }
    while at < chars.len()
        invariant
            chars@ == text@,
            start <= at <= chars.len(),
            forall|j: int| start <= j < at ==> text@[j] != separator,
            split(text@, separator) == parts.deep_view() + split(
                text@.skip(start as int),
                separator,
            ),
        decreases chars.len() - at,
    {
        if chars[at] == separator {
            let part = text.substring_char(start, at).to_owned();
            proof {
                let rest = text@.skip(start as int);
                lemma_head_len_is(rest, separator, at - start);
                assert(rest.take(at - start) =~= part@);
                assert(rest.skip(at - start + 1) =~= text@.skip(at + 1));
            }
            parts.push(part);
            start = at + 1;
        }
        at += 1;
    }
    let part = text.substring_char(start, at).to_owned();
    proof {
        let rest = text@.skip(start as int);
        lemma_head_len_is(rest, separator, at - start);
    }
    parts.push(part);
    parts
}

} // verus!
