//! Dotted paths into a JSON document, such as `data.user.id` or `items.1`.
use crate::interpolation::VariableInterpolator;
use crate::json::{
    element, json_element, json_member, json_string, json_text, member, render, string_content,
};
use crate::text::{part_views, split_chars, split_on, to_chars, to_text};
use vstd::prelude::*;

verus! {

/// The segments of a path: the texts between its dots. A path without a
/// dot is one segment; the empty path is one empty segment.
pub open spec fn split_dots(path: Seq<char>) -> Seq<Seq<char>> {
    split_on(path, '.')
}

/// Whether `c` is a decimal digit.
pub open spec fn is_digit(c: char) -> bool {
    '0' <= c <= '9'
}

/// The number that a run of decimal digits writes.
pub open spec fn digits_value(s: Seq<char>) -> nat
    decreases s.len(),
{
    if s.len() == 0 {
        0
    } else {
        digits_value(s.drop_last()) * 10 + (s.last() as nat - '0' as nat) as nat
    }
}

/// The array index that a segment writes: decimal digits, which a plus
/// sign may precede, for a number that fits the machine's word. Every
/// other segment is an object key.
pub open spec fn segment_index(segment: Seq<char>) -> Option<usize> {
    let digits = unsigned_part(segment);
    if digits.len() >= 1 && all_digits(digits) && digits_value(digits) <= usize::MAX {
        Some(digits_value(digits) as usize)
    } else {
        None
    }
}

/// A segment without the plus sign that may precede it.
pub open spec fn unsigned_part(segment: Seq<char>) -> Seq<char> {
    if segment.len() > 0 && segment[0] == '+' {
        segment.drop_first()
    } else {
        segment
    }
}

/// Whether `s` holds decimal digits only.
pub open spec fn all_digits(s: Seq<char>) -> bool {
    forall|i: int| 0 <= i < s.len() ==> is_digit(#[trigger] s[i])
}

/// One step into the document rendered as `doc`: to an element where the
/// segment is an index, to a member where it is a key.
pub open spec fn step_into(doc: Seq<char>, segment: Seq<char>) -> Option<Seq<char>> {
    match segment_index(segment) {
        Some(i) => json_element(doc, i as nat),
        None => json_member(doc, segment),
    }
}

/// The rendering of the document reached from `doc` by the segments, one
/// after the other; `None` where a step leads nowhere.
pub open spec fn follow(doc: Seq<char>, segments: Seq<Seq<char>>) -> Option<Seq<char>>
    decreases segments.len(),
{
    if segments.len() == 0 {
        Some(doc)
    } else {
        match step_into(doc, segments[0]) {
            Some(next) => follow(next, segments.drop_first()),
            None => None,
        }
    }
}

/// How the document rendered as `doc` is written out as a value: a string
/// by its content, every other document by its rendering.
pub open spec fn leaf_text(doc: Seq<char>) -> Seq<char> {
    match json_string(doc) {
        Some(s) => s,
        None => doc,
    }
}

/// What a path extracts from the document rendered as `doc`.
pub open spec fn extracted(doc: Seq<char>, path: Seq<char>) -> Option<Seq<char>> {
    match follow(doc, split_dots(path)) {
        Some(leaf) => Some(leaf_text(leaf)),
        None => None,
    }
}

/// Splits a path at its dots.
pub fn split_path(path: &str) -> (segments: Vec<Vec<char>>)
    ensures
        part_views(segments@) == split_dots(path@),
        segments@.len() >= 1,
{
    let chars = to_chars(path);
    split_chars(&chars, '.')
}

/// The number that a decimal digit stands for.
fn digit_of(c: char) -> (d: usize)
    requires
        is_digit(c),
    ensures
        d == c as nat - '0' as nat,
        d <= 9,
{
    (c as u32 - '0' as u32) as usize
}

/// Reads a segment as an array index.
pub fn parse_index(segment: &Vec<char>) -> (r: Option<usize>)
    ensures
        r == segment_index(segment@),
{
    let start: usize = if segment.len() > 0 && segment[0] == '+' {
        1
    } else {
        0
    };
    let ghost digits = segment@.subrange(start as int, segment.len() as int);
    proof {
        if start == 1 {
            assert(digits == segment@.drop_first());
        } else {
            assert(digits == segment@);
        }
        assert(digits == unsigned_part(segment@));
    }
    if segment.len() == start {
        return None;
    }
    let mut value: usize = 0;
    let mut i: usize = start;
    assert(digits.take(0) == Seq::<char>::empty());
    while i < segment.len()
        invariant
            start <= i <= segment.len(),
            digits == segment@.subrange(start as int, segment.len() as int),
            digits == unsigned_part(segment@),
            forall|j: int| 0 <= j < i - start ==> is_digit(#[trigger] digits[j]),
            value == digits_value(digits.take(i - start)),
        decreases segment.len() - i,
    {
        let c = segment[i];
        assert(digits[i - start] == c);
        if !(c >= '0' && c <= '9') {
            assert(!is_digit(digits[i - start]));
            return None;
        }
        let d = digit_of(c);
        proof {
            assert(digits.take(i - start + 1).drop_last() == digits.take(i - start));
            assert(digits.take(i - start + 1).last() == c);
            assert(digits_value(digits.take(i - start + 1)) == value * 10 + d);
            lemma_digits_value_grows(digits, i - start + 1);
        }
        if value > (usize::MAX - d) / 10 {
            assert(value * 10 + d > usize::MAX);
            return None;
        }
        value = value * 10 + d;
        i = i + 1;
    }
    assert(digits.take(digits.len() as int) == digits);
    Some(value)
}

/// The number written by the first `k` digits is no greater than the
/// number written by all of them.
proof fn lemma_digits_value_grows(s: Seq<char>, k: int)
    requires
        0 <= k <= s.len(),
    ensures
        digits_value(s.take(k)) <= digits_value(s),
    decreases s.len() - k,
{
    if k < s.len() {
        lemma_digits_value_grows(s, k + 1);
        assert(s.take(k + 1).drop_last() == s.take(k));
        assert(digits_value(s.take(k + 1)) >= digits_value(s.take(k)) * 10);
    } else {
        assert(s.take(k) == s);
    }
}

/// The text of a leaf: the content where the leaf is a string, else the
/// rendering.
pub fn leaf_from(content: Option<String>, rendered: String) -> (r: String)
    ensures
        r == match content {
            Some(s) => s,
            None => rendered,
        },
{
    match content {
        Some(s) => s,
        None => rendered,
    }
}

impl VariableInterpolator {
    /// The value at `path` in `response_body`, written out as a text;
    /// `None` where the path leads nowhere.
    pub fn extract_from_response_path(&self, response_body: &serde_json::Value, path: &str) -> (r:
        Option<String>)
        ensures
            match r {
                Some(s) => extracted(json_text(*response_body), path@) == Some(s@),
                None => extracted(json_text(*response_body), path@) is None,
            },
    {
        let segments = split_path(path);
        let ghost all = part_views(segments@);
        let mut current: &serde_json::Value = response_body;
        let mut k: usize = 0;
        assert(all.subrange(0, all.len() as int) == all);
        while k < segments.len()
            invariant
                k <= segments.len(),
                all == part_views(segments@),
                all == split_dots(path@),
                follow(json_text(*response_body), all) == follow(
                    json_text(*current),
                    all.subrange(k as int, all.len() as int),
                ),
            decreases segments.len() - k,
        {
            let ghost rest = all.subrange(k as int, all.len() as int);
            proof {
                assert(all[k as int] == segments@[k as int]@);
                assert(rest[0] == segments@[k as int]@);
                assert(rest.drop_first() == all.subrange(k + 1, all.len() as int));
            }
            let ghost here = json_text(*current);
            let next = match parse_index(&segments[k]) {
                Some(index) => element(current, index),
                None => {
                    let key = to_text(&segments[k]);
                    member(current, key.as_str())
                },
            };
            match next {
                Some(value) => {
                    assert(step_into(here, rest[0]) == Some(json_text(*value)));
                    current = value;
                },
                None => {
                    assert(step_into(here, rest[0]) is None);
                    assert(follow(here, rest) is None);
                    return None;
                },
            }
            k = k + 1;
        }
        assert(all.subrange(all.len() as int, all.len() as int) == Seq::<Seq<char>>::empty());
        Some(leaf_from(string_content(current), render(current)))
    }
}

} // verus!
