//! Text primitives: what the parsers need of `str`, stated over `Seq<char>`.

use vstd::prelude::*;
use vstd::string::*;
use vstd::utf8::*;

verus! {

/// `needle` stands in `text` at offset `at`.
pub open spec fn occurs_at(text: Seq<char>, needle: Seq<char>, at: int) -> bool {
    &&& 0 <= at
    &&& at + needle.len() <= text.len()
    &&& text.subrange(at, at + needle.len()) == needle
}

/// `needle` stands somewhere in `text`.
pub open spec fn occurs_in(text: Seq<char>, needle: Seq<char>) -> bool {
    exists|at: int| occurs_at(text, needle, at)
}

/// `at` is the offset of the leftmost occurrence of `needle` in `text`.
pub open spec fn is_first_occurrence(text: Seq<char>, needle: Seq<char>, at: int) -> bool {
    &&& occurs_at(text, needle, at)
    &&& forall|earlier: int| 0 <= earlier < at ==> !occurs_at(text, needle, earlier)
}

/// Offset of the leftmost occurrence of `needle` in `text`; meaningful where there is one.
pub open spec fn first_occurrence(text: Seq<char>, needle: Seq<char>) -> int {
    choose|at: int| is_first_occurrence(text, needle, at)
}

/// What stands before the leftmost occurrence of `needle`.
pub open spec fn before_first(text: Seq<char>, needle: Seq<char>) -> Seq<char> {
    text.subrange(0, first_occurrence(text, needle))
}

/// What stands after the leftmost occurrence of `needle`.
pub open spec fn after_first(text: Seq<char>, needle: Seq<char>) -> Seq<char> {
    text.subrange(first_occurrence(text, needle) + needle.len(), text.len() as int)
}

/// The leftmost occurrence is unique, and exists wherever `needle` occurs.
pub proof fn lemma_first_occurrence(text: Seq<char>, needle: Seq<char>)
    requires
        occurs_in(text, needle),
    ensures
        is_first_occurrence(text, needle, first_occurrence(text, needle)),
        forall|at: int| is_first_occurrence(text, needle, at) ==> at == first_occurrence(text, needle),
{
    let some = choose|at: int| occurs_at(text, needle, at);
    lemma_least_occurrence(text, needle, some);
}

proof fn lemma_least_occurrence(text: Seq<char>, needle: Seq<char>, bound: int)
    requires
        occurs_at(text, needle, bound),
    ensures
        exists|at: int| is_first_occurrence(text, needle, at),
    decreases bound,
{
    if exists|earlier: int| 0 <= earlier < bound && occurs_at(text, needle, earlier) {
        let earlier = choose|earlier: int| 0 <= earlier < bound && occurs_at(text, needle, earlier);
        lemma_least_occurrence(text, needle, earlier);
    } else {
        assert(is_first_occurrence(text, needle, bound));
    }
}

/// A text is what stands before the leftmost occurrence of `needle`, `needle`, and what
/// stands after it.
pub proof fn lemma_split_at_first(text: Seq<char>, needle: Seq<char>)
    requires
        occurs_in(text, needle),
    ensures
        text == before_first(text, needle) + needle + after_first(text, needle),
{
    lemma_first_occurrence(text, needle);
    let at = first_occurrence(text, needle);
    assert(text =~= text.subrange(0, at) + text.subrange(at, at + needle.len()) + text.subrange(
        at + needle.len(),
        text.len() as int,
    ));
}

/// Each character of `text` as a text of its own, with an empty text before the first and
/// behind the last.
pub open spec fn characters(text: Seq<char>) -> Seq<Seq<char>> {
    seq![Seq::empty()] + Seq::new(text.len(), |i: int| seq![text[i]]) + seq![Seq::empty()]
}

/// The pieces of `text` between the non-overlapping occurrences of `delimiter`, found from
/// the left. The empty delimiter occurs between any two characters and at both ends.
pub open spec fn pieces(text: Seq<char>, delimiter: Seq<char>) -> Seq<Seq<char>>
    decreases text.len(),
{
    if delimiter.len() == 0 {
        characters(text)
    } else if occurs_in(text, delimiter) && after_first(text, delimiter).len() < text.len() {
        seq![before_first(text, delimiter)] + pieces(after_first(text, delimiter), delimiter)
    } else {
        seq![text]
    }
}

/// `line` without one closing carriage return.
pub open spec fn without_carriage_return(line: Seq<char>) -> Seq<char> {
    if line.len() > 0 && line.last() == '\r' {
        line.drop_last()
    } else {
        line
    }
}

/// The lines of `text`: each ends at a line feed, which is dropped together with a carriage
/// return before it; what follows the last line feed is a line of its own unless it is empty.
pub open spec fn lines_of(text: Seq<char>) -> Seq<Seq<char>>
    decreases text.len(),
{
    if text.len() == 0 {
        seq![]
    } else if occurs_in(text, seq!['\n']) && after_first(text, seq!['\n']).len() < text.len() {
        seq![without_carriage_return(before_first(text, seq!['\n']))] + lines_of(
            after_first(text, seq!['\n']),
        )
    } else {
        seq![text]
    }
}

/// The characters with the Unicode property `White_Space`.
pub open spec fn is_whitespace(c: char) -> bool {
    ||| '\u{9}' <= c <= '\u{d}'
    ||| c == ' '
    ||| c == '\u{85}'
    ||| c == '\u{a0}'
    ||| c == '\u{1680}'
    ||| '\u{2000}' <= c <= '\u{200a}'
    ||| c == '\u{2028}'
    ||| c == '\u{2029}'
    ||| c == '\u{202f}'
    ||| c == '\u{205f}'
    ||| c == '\u{3000}'
}

/// `text` without the whitespace it starts with.
pub open spec fn trimmed_start(text: Seq<char>) -> Seq<char>
    decreases text.len(),
{
    if text.len() > 0 && is_whitespace(text.first()) {
        trimmed_start(text.drop_first())
    } else {
        text
    }
}

/// `text` without the whitespace it ends with.
pub open spec fn trimmed_end(text: Seq<char>) -> Seq<char>
    decreases text.len(),
{
    if text.len() > 0 && is_whitespace(text.last()) {
        trimmed_end(text.drop_last())
    } else {
        text
    }
}

/// `text` without the whitespace around it.
pub open spec fn trimmed(text: Seq<char>) -> Seq<char> {
    trimmed_end(trimmed_start(text))
}

/// The upper-case form of an ASCII letter; any other character is kept.
pub open spec fn ascii_upper(c: char) -> char {
    if 'a' <= c <= 'z' {
        ((c as u8 - 32) as u8) as char
    } else {
        c
    }
}

/// `text` with its ASCII letters in upper case.
pub open spec fn ascii_uppercase(text: Seq<char>) -> Seq<char> {
    text.map_values(|c: char| ascii_upper(c))
}

/// The views of texts, one for one.
pub open spec fn text_views(texts: Seq<String>) -> Seq<Seq<char>> {
    texts.map_values(|text: String| text@)
}

/// All parts but the first.
pub open spec fn behind_first<T>(parts: Seq<T>) -> Seq<T> {
    if parts.len() > 0 {
        parts.drop_first()
    } else {
        parts
    }
}

/// The views of string slices, one for one.
pub open spec fn views(parts: Seq<&str>) -> Seq<Seq<char>> {
    parts.map_values(|part: &str| part@)
}

/// `str::contains` with a string pattern: whether the pattern occurs in the text.
#[verifier::external_body]
pub(crate) fn contains(text: &str, needle: &str) -> (found: bool)
    ensures
        found == occurs_in(text@, needle@),
{
    text.contains(needle)
}

/// `str::split_once` with a string delimiter: the text before and after the leftmost
/// occurrence of the delimiter, or `None` where it does not occur.
#[verifier::external_body]
pub(crate) fn split_once<'a>(text: &'a str, delimiter: &str) -> (halves: Option<(&'a str, &'a str)>)
    ensures
        halves is Some == occurs_in(text@, delimiter@),
        halves matches Some((head, tail)) ==> {
            &&& is_first_occurrence(text@, delimiter@, head@.len() as int)
            &&& head@ == before_first(text@, delimiter@)
            &&& tail@ == after_first(text@, delimiter@)
        },
{
    text.split_once(delimiter)
}

/// `at` is the offset of the rightmost occurrence of `needle` in `text`.
pub open spec fn is_last_occurrence(text: Seq<char>, needle: Seq<char>, at: int) -> bool {
    &&& occurs_at(text, needle, at)
    &&& forall|later: int| at < later ==> !occurs_at(text, needle, later)
}

/// `str::rsplit_once` with a string delimiter: the text before and after the rightmost
/// occurrence of the delimiter, or `None` where it does not occur.
#[verifier::external_body]
pub(crate) fn rsplit_once<'a>(text: &'a str, delimiter: &str) -> (halves: Option<
    (&'a str, &'a str),
>)
    ensures
        halves is Some == occurs_in(text@, delimiter@),
        halves matches Some((head, tail)) ==> {
            &&& is_last_occurrence(text@, delimiter@, head@.len() as int)
            &&& head@ == text@.subrange(0, head@.len() as int)
            &&& tail@ == text@.subrange(
                (head@.len() + delimiter@.len()) as int,
                text@.len() as int,
            )
        },
{
    text.rsplit_once(delimiter)
}

/// `str::strip_prefix` with a string pattern: the text behind the prefix, or `None` where
/// the text does not start with it.
#[verifier::external_body]
pub(crate) fn strip_prefix<'a>(text: &'a str, prefix: &str) -> (rest: Option<&'a str>)
    ensures
        rest is Some == prefix@.is_prefix_of(text@),
        rest matches Some(rest) ==> rest@ == text@.skip(prefix@.len() as int),
{
    text.strip_prefix(prefix)
}

/// `str::strip_suffix` with a string pattern: the text before the suffix, or `None` where
/// the text does not end with it.
#[verifier::external_body]
pub(crate) fn strip_suffix<'a>(text: &'a str, suffix: &str) -> (rest: Option<&'a str>)
    ensures
        rest is Some == suffix@.is_suffix_of(text@),
        rest matches Some(rest) ==> rest@ == text@.take(text@.len() - suffix@.len()),
{
    text.strip_suffix(suffix)
}

/// `str::trim`: the text without leading and trailing whitespace.
#[verifier::external_body]
pub(crate) fn trim(text: &str) -> (inner: &str)
    ensures
        inner@ == trimmed(text@),
{
    text.trim()
}

/// `str::to_ascii_uppercase`: a copy with the ASCII letters `a` to `z` in upper case.
#[verifier::external_body]
pub(crate) fn to_ascii_uppercase(text: &str) -> (upper: String)
    ensures
        upper@ == ascii_uppercase(text@),
{
    text.to_ascii_uppercase()
}

/// What stands in `text` from the leftmost occurrence of `needle` on.
pub open spec fn suffix_from_first(text: Seq<char>, needle: Seq<char>) -> Seq<char> {
    text.skip(first_occurrence(text, needle))
}

/// The rest of `text` from the leftmost occurrence of `needle` on, or `None` where there is
/// no occurrence.
pub fn from_first<'a>(text: &'a str, needle: &str) -> (rest: Option<&'a str>)
    ensures
        rest is Some == occurs_in(text@, needle@),
        rest matches Some(r) ==> r@ == suffix_from_first(text@, needle@),
{
    match split_once(text, needle) {
        Some((head, _)) => {
            proof {
                lemma_first_occurrence(text@, needle@);
            }
            let from = head.unicode_len();
            let to = text.unicode_len();
            Some(text.substring_char(from, to))
        },
        None => None,
    }
}

/// The text between two byte offsets of the UTF-8 form of `text`, where each offset stands
/// between two characters or at an end of the text.
pub open spec fn byte_slice(text: Seq<char>, from: int, to: int) -> Option<Seq<char>> {
    let bytes = encode_utf8(text);
    if 0 <= from <= to && is_char_boundary(bytes, from) && is_char_boundary(bytes, to) {
        Some(decode_utf8(bytes.subrange(from, to)))
    } else {
        None
    }
}

/// The text between two byte offsets, as indexing a `str` by a range gives it; `None`
/// where the indexing would fail.
pub fn slice_bytes<'a>(text: &'a str, from: usize, to: usize) -> (slice: Option<&'a str>)
    ensures
        slice is Some == byte_slice(text@, from as int, to as int) is Some,
        slice matches Some(s) ==> byte_slice(text@, from as int, to as int) == Some(s@),
{
    if from <= to && text.is_char_boundary(from) && text.is_char_boundary(to) {
        let ghost bytes = text.spec_bytes();
        proof {
            encode_utf8_valid_utf8(text@);
            assert(to <= bytes.len()) by {
                if to > bytes.len() {
                    assert(!is_char_boundary(bytes, to as int));
                }
            }
        }
        let (head, _) = text.split_at(to);
        proof {
            encode_utf8_valid_utf8(head@);
            lemma_boundary_of_prefix(bytes, from as int, to as int);
            assert(head.spec_bytes() =~= bytes.subrange(0, to as int));
        }
        let (_, slice) = head.split_at(from);
        proof {
            assert(slice.spec_bytes() =~= bytes.subrange(from as int, to as int));
            encode_utf8_decode_utf8(slice@);
        }
        Some(slice)
    } else {
        None
    }
}

/// The text from a byte offset of the UTF-8 form of `text` on, where the offset stands
/// between two characters or at an end of the text.
pub open spec fn byte_tail(text: Seq<char>, from: int) -> Option<Seq<char>> {
    let bytes = encode_utf8(text);
    if is_char_boundary(bytes, from) {
        Some(decode_utf8(bytes.subrange(from, bytes.len() as int)))
    } else {
        None
    }
}

/// The text from a byte offset on, as indexing a `str` by an open range gives it; `None`
/// where the indexing would fail.
pub fn tail_from<'a>(text: &'a str, from: usize) -> (tail: Option<&'a str>)
    ensures
        tail is Some == byte_tail(text@, from as int) is Some,
        tail matches Some(t) ==> byte_tail(text@, from as int) == Some(t@),
{
    if text.is_char_boundary(from) {
        let (_, tail) = text.split_at(from);
        proof {
            encode_utf8_decode_utf8(tail@);
        }
        Some(tail)
    } else {
        None
    }
}

/// `text` without every `suffix` that it ends with, one behind the other. The empty suffix
/// takes nothing away.
pub open spec fn without_trailing(text: Seq<char>, suffix: Seq<char>) -> Seq<char>
    decreases text.len(),
{
    if suffix.len() > 0 && suffix.is_suffix_of(text) {
        without_trailing(text.take(text.len() - suffix.len()), suffix)
    } else {
        text
    }
}

/// `text` without every `suffix` that it ends with, as `str::trim_end_matches` with a
/// string pattern cuts it.
pub fn trim_end_matches<'a>(text: &'a str, suffix: &str) -> (rest: &'a str)
    ensures
        rest@ == without_trailing(text@, suffix@),
{
    if suffix.is_empty() {
        return text;
    }
    let mut rest = text;
    loop
        invariant
            suffix@.len() > 0,
            without_trailing(text@, suffix@) == without_trailing(rest@, suffix@),
        decreases rest@.len(),
    {
        match strip_suffix(rest, suffix) {
            Some(shorter) => {
                rest = shorter;
            },
            None => {
                return rest;
            },
        }
    }
}

/// How often `needle` occurs in `text`, counted from the left without overlap.
pub open spec fn occurrences(text: Seq<char>, needle: Seq<char>) -> nat {
    (pieces(text, needle).len() - 1) as nat
}

/// How often `needle` occurs in `text`, as `str::matches` with a string pattern counts.
pub fn count_occurrences(text: &str, needle: &str) -> (count: usize)
    ensures
        count == occurrences(text@, needle@),
{
    let parts = split(text, needle);
    parts.len() - 1
}

/// A character boundary of a text is one of each prefix that reaches it.
proof fn lemma_boundary_of_prefix(bytes: Seq<u8>, index: int, end: int)
    requires
        valid_utf8(bytes),
        0 <= index <= end <= bytes.len(),
        is_char_boundary(bytes, index),
        is_char_boundary(bytes, end),
    ensures
        is_char_boundary(bytes.subrange(0, end), index),
{
    valid_utf8_split(bytes, end);
    if index < end {
        is_char_boundary_iff_not_is_continuation_byte(bytes, index);
        is_char_boundary_iff_not_is_continuation_byte(bytes.subrange(0, end), index);
    } else {
        is_char_boundary_start_end_of_seq(bytes.subrange(0, end));
    }
}

/// The characters that `u8::is_ascii_whitespace` takes for blank.
pub open spec fn is_ascii_blank(c: char) -> bool {
    c == ' ' || c == '\t' || c == '\n' || c == '\u{c}' || c == '\r'
}

/// The length of the word that `text` starts with.
pub open spec fn word_length(text: Seq<char>) -> nat
    decreases text.len(),
{
    if text.len() > 0 && !is_ascii_blank(text.first()) {
        1 + word_length(text.drop_first())
    } else {
        0
    }
}

/// `text` without the blanks it starts with.
pub open spec fn without_leading_blanks(text: Seq<char>) -> Seq<char>
    decreases text.len(),
{
    if text.len() > 0 && is_ascii_blank(text.first()) {
        without_leading_blanks(text.drop_first())
    } else {
        text
    }
}

/// The words of `text`: its longest runs of characters that are not ASCII blanks.
pub open spec fn words_of(text: Seq<char>) -> Seq<Seq<char>>
    decreases text.len(),
{
    let rest = without_leading_blanks(text);
    let length = word_length(rest) as int;
    if 0 < length <= rest.len() && rest.len() <= text.len() {
        seq![rest.take(length)] + words_of(rest.skip(length))
    } else {
        seq![]
    }
}

/// `str::split_ascii_whitespace`: the words between runs of ASCII whitespace.
#[verifier::external_body]
pub(crate) fn split_ascii_whitespace<'a>(text: &'a str) -> (words: Vec<&'a str>)
    ensures
        views(words@) == words_of(text@),
{
    text.split_ascii_whitespace().collect()
}

/// The stem of a file name, which holds no separator: the name up to its last dot, or the
/// whole name where it has no dot or only starts with one. The empty name and the names
/// `.` and `..` name no file and have no stem.
pub open spec fn stem_of(name: Seq<char>) -> Option<Seq<char>> {
    if name.len() == 0 || name == "."@ || name == ".."@ {
        None
    } else if exists|at: int| 0 < at && is_last_occurrence(name, "."@, at) {
        let at = choose|at: int| 0 < at && is_last_occurrence(name, "."@, at);
        Some(name.subrange(0, at))
    } else {
        Some(name)
    }
}

/// The stem of a file name, as `Path::file_stem` gives it for a path of one component.
pub fn file_stem<'a>(name: &'a str) -> (stem: Option<&'a str>)
    ensures
        stem is Some == stem_of(name@) is Some,
        stem matches Some(s) ==> stem_of(name@) == Some(s@),
{
    if name.is_empty() || same_text(name, ".") || same_text(name, "..") {
        return None;
    }
    match rsplit_once(name, ".") {
        Some((head, _)) => {
            if head.is_empty() {
                proof {
                    assert forall|at: int| 0 < at implies !is_last_occurrence(name@, "."@, at) by {
                        if is_last_occurrence(name@, "."@, at) {
                            assert(occurs_at(name@, "."@, at));
                        }
                    }
                }
                Some(name)
            } else {
                proof {
                    let found = head@.len() as int;
                    assert(0 < found && is_last_occurrence(name@, "."@, found));
                    let chosen = choose|at: int| 0 < at && is_last_occurrence(name@, "."@, at);
                    assert(chosen == found) by {
                        if chosen < found {
                            assert(!occurs_at(name@, "."@, found));
                        } else if found < chosen {
                            assert(!occurs_at(name@, "."@, chosen));
                        }
                    }
                }
                Some(head)
            }
        },
        None => {
            proof {
                assert forall|at: int| 0 < at implies !is_last_occurrence(name@, "."@, at) by {
                    if is_last_occurrence(name@, "."@, at) {
                        assert(occurs_at(name@, "."@, at));
                    }
                }
            }
            Some(name)
        },
    }
}

/// Whether two texts hold the same characters.
pub fn same_text(left: &str, right: &str) -> (same: bool)
    ensures
        same == (left@ == right@),
{
    match strip_prefix(left, right) {
        Some(rest) => {
            let empty = rest.is_empty();
            proof {
                if empty {
                    assert(left@ =~= right@);
                }
            }
            empty
        },
        None => false,
    }
}

/// Whether `text` starts with `prefix`.
pub fn starts_with(text: &str, prefix: &str) -> (yes: bool)
    ensures
        yes == prefix@.is_prefix_of(text@),
{
    strip_prefix(text, prefix).is_some()
}

/// Whether `text` ends with `suffix`.
pub fn ends_with(text: &str, suffix: &str) -> (yes: bool)
    ensures
        yes == suffix@.is_suffix_of(text@),
{
    strip_suffix(text, suffix).is_some()
}

/// Each character of `text` as a text of its own, with an empty text before the first and
/// behind the last.
pub fn split_characters<'a>(text: &'a str) -> (parts: Vec<&'a str>)
    ensures
        views(parts@) == characters(text@),
        parts@.len() >= 1,
{
    let length = text.unicode_len();
    let mut parts: Vec<&'a str> = Vec::new();
    let start = text.substring_char(0, 0);
    parts.push(start);
    let mut at: usize = 0;
    while at < length
        invariant
            at <= length,
            length == text@.len(),
            parts@.len() == at + 1,
            parts@[0]@.len() == 0,
            forall|i: int| 0 <= i < at ==> (#[trigger] parts@[i + 1])@ == seq![text@[i]],
        decreases length - at,
    {
        let one = text.substring_char(at, at + 1);
        assert(one@ =~= seq![text@[at as int]]);
        parts.push(one);
        at = at + 1;
    }
    let end = text.substring_char(length, length);
    parts.push(end);
    proof {
        let made = views(parts@);
        let wanted = characters(text@);
        assert(made.len() == wanted.len());
        assert forall|i: int| 0 <= i < made.len() implies made[i] == wanted[i] by {
            if i == 0 {
                assert(made[0] =~= Seq::<char>::empty());
            } else if i <= length {
                assert(parts@[(i - 1) + 1]@ == seq![text@[i - 1]]);
            } else {
                assert(made[i] =~= Seq::<char>::empty());
            }
        }
        assert(made =~= wanted);
    }
    parts
}

/// The pieces of `text` between the occurrences of `delimiter`, as `str::split` with a
/// string pattern walks them.
pub fn split<'a>(text: &'a str, delimiter: &str) -> (parts: Vec<&'a str>)
    ensures
        views(parts@) == pieces(text@, delimiter@),
        parts@.len() >= 1,
{
    if delimiter.is_empty() {
        return split_characters(text);
    }
    let mut parts: Vec<&'a str> = Vec::new();
    let mut rest = text;
    loop
        invariant
            delimiter@.len() > 0,
            pieces(text@, delimiter@) == views(parts@) + pieces(rest@, delimiter@),
        decreases rest@.len(),
    {
        let ghost before = views(parts@);
        match split_once(rest, delimiter) {
            Some((head, tail)) => {
                parts.push(head);
                assert(views(parts@) =~= before.push(head@));
                assert(before + (seq![head@] + pieces(tail@, delimiter@)) =~= views(parts@)
                    + pieces(tail@, delimiter@));
                rest = tail;
            },
            None => {
                parts.push(rest);
                assert(views(parts@) =~= before + seq![rest@]);
                return parts;
            },
        }
    }
}

/// The lines of `text`, as `str::lines` walks them.
pub fn lines<'a>(text: &'a str) -> (rows: Vec<&'a str>)
    ensures
        views(rows@) == lines_of(text@),
{
    let mut rows: Vec<&'a str> = Vec::new();
    let mut rest = text;
    proof {
        reveal_strlit("\n");
        reveal_strlit("\r");
        assert("\n"@ =~= seq!['\n']);
        assert("\r"@ =~= seq!['\r']);
    }
    loop
        invariant
            "\n"@ == seq!['\n'],
            "\r"@ == seq!['\r'],
            lines_of(text@) == views(rows@) + lines_of(rest@),
        decreases rest@.len(),
    {
        let ghost before = views(rows@);
        if rest.is_empty() {
            assert(views(rows@) + Seq::<Seq<char>>::empty() =~= views(rows@));
            return rows;
        }
        match split_once(rest, "\n") {
            Some((head, tail)) => {
                let line = match strip_suffix(head, "\r") {
                    Some(inner) => inner,
                    None => head,
                };
                proof {
                    let last = head@.len() - 1;
                    if head@.len() > 0 {
                        assert(head@.subrange(last, head@.len() as int)[0] == head@[last]);
                    }
                    assert(line@ =~= without_carriage_return(head@));
                }
                rows.push(line);
                assert(views(rows@) =~= before.push(line@));
                assert(before + (seq![line@] + lines_of(tail@)) =~= views(rows@) + lines_of(tail@));
                rest = tail;
            },
            None => {
                rows.push(rest);
                assert(views(rows@) =~= before + seq![rest@]);
                return rows;
            },
        }
    }
}

/// A decimal digit's value.
pub open spec fn digit_value(c: char) -> int {
    c as int - '0' as int
}

/// Whether `c` is one of the ASCII digits `0` to `9`.
pub open spec fn is_digit(c: char) -> bool {
    '0' <= c <= '9'
}

/// The number that a run of decimal digits writes.
pub open spec fn decimal_value(digits: Seq<char>) -> int
    decreases digits.len(),
{
    if digits.len() == 0 {
        0
    } else {
        10 * decimal_value(digits.drop_last()) + digit_value(digits.last())
    }
}

/// The digits of a number as `str::parse` reads them: the text behind one optional plus sign.
pub open spec fn number_digits(text: Seq<char>) -> Seq<char> {
    if text.len() > 0 && text.first() == '+' {
        text.drop_first()
    } else {
        text
    }
}

/// The number below `limit` that `text` writes in decimal, if it writes one: an optional plus
/// sign, then at least one ASCII digit and nothing else.
pub open spec fn parsed_number(text: Seq<char>, limit: int) -> Option<int> {
    let digits = number_digits(text);
    if digits.len() > 0 && (forall|i: int| 0 <= i < digits.len() ==> is_digit(#[trigger] digits[i]))
        && decimal_value(digits) < limit {
        Some(decimal_value(digits))
    } else {
        None
    }
}

/// A run of digits is worth at least as much as any run it starts with.
proof fn lemma_decimal_value_grows(digits: Seq<char>, shorter: int)
    requires
        0 <= shorter <= digits.len(),
        forall|i: int| 0 <= i < digits.len() ==> is_digit(#[trigger] digits[i]),
    ensures
        0 <= decimal_value(digits.take(shorter)) <= decimal_value(digits),
    decreases digits.len() - shorter,
{
    if shorter == digits.len() {
        assert(digits.take(shorter) =~= digits);
        lemma_decimal_value_nonnegative(digits);
    } else {
        lemma_decimal_value_grows(digits, shorter + 1);
        let longer = digits.take(shorter + 1);
        assert(longer.drop_last() =~= digits.take(shorter));
        assert(longer.last() == digits[shorter]);
        lemma_decimal_value_nonnegative(digits.take(shorter));
    }
}

proof fn lemma_decimal_value_nonnegative(digits: Seq<char>)
    requires
        forall|i: int| 0 <= i < digits.len() ==> is_digit(#[trigger] digits[i]),
    ensures
        0 <= decimal_value(digits),
    decreases digits.len(),
{
    if digits.len() > 0 {
        lemma_decimal_value_nonnegative(digits.drop_last());
    }
}

/// Reads a number of at most `max` as `str::parse` does: an optional plus sign and decimal
/// digits.
pub fn parse_bounded(text: &str, max: u64) -> (number: Option<u64>)
    ensures
        number is Some == parsed_number(text@, max + 1) is Some,
        number matches Some(n) ==> parsed_number(text@, max + 1) == Some(n as int),
{
    let length = text.unicode_len();
    if length == 0 {
        return None;
    }
    let start: usize = if text.get_char(0) == '+' {
        1
    } else {
        0
    };
    if start == length {
        return None;
    }
    let ghost digits = number_digits(text@);
    assert(digits =~= text@.skip(start as int));
    let mut value: u64 = 0;
    let mut at: usize = start;
    while at < length
        invariant
            start <= at <= length,
            length == text@.len(),
            digits == text@.skip(start as int),
            digits == number_digits(text@),
            forall|i: int| 0 <= i < at - start ==> is_digit(#[trigger] digits[i]),
            value == decimal_value(digits.take(at - start)),
            value <= max,
        decreases length - at,
    {
        let c = text.get_char(at);
        assert(digits[at - start] == c);
        if !('0' <= c && c <= '9') {
            return None;
        }
        let ghost longer = digits.take(at - start + 1);
        assert(longer.drop_last() =~= digits.take(at - start));
        assert(longer.last() == c);
        let next: u128 = value as u128 * 10 + (c as u32 - '0' as u32) as u128;
        if next > max as u128 {
            proof {
                if forall|i: int| 0 <= i < digits.len() ==> is_digit(#[trigger] digits[i]) {
                    lemma_decimal_value_grows(digits, at - start + 1);
                }
            }
            return None;
        }
        value = next as u64;
        at = at + 1;
    }
    assert(digits.take(at - start) =~= digits);
    Some(value)
}

/// Reads a `u16` as `str::parse` does.
pub fn parse_u16(text: &str) -> (number: Option<u16>)
    ensures
        number is Some == parsed_number(text@, 65536) is Some,
        number matches Some(n) ==> parsed_number(text@, 65536) == Some(n as int),
{
    match parse_bounded(text, 65535) {
        Some(number) => Some(number as u16),
        None => None,
    }
}

/// Reads a `usize` as `str::parse` does.
pub fn parse_usize(text: &str) -> (number: Option<usize>)
    ensures
        number is Some == parsed_number(text@, usize::MAX + 1) is Some,
        number matches Some(n) ==> parsed_number(text@, usize::MAX + 1) == Some(n as int),
{
    match parse_bounded(text, usize::MAX as u64) {
        Some(number) => Some(number as usize),
        None => None,
    }
}

} // verus!
