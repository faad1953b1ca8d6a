//! Splitting a component file into its template, script and style regions.

use crate::strs::{concat2, concat3, str_find, str_find_from, str_len, str_slice};
use crate::text;
use vstd::prelude::*;

verus! {

/// Why a transformation failed.
#[derive(Debug, Clone, Copy, PartialEq, Eq, Structural)]
pub enum TransformError {
    /// An opening section tag has no matching closing tag.
    MalformedNesting,
    /// The syntax grammar could not produce a tree for a script or an
    /// expression fragment, or the template scanner gave up.
    GrammarParseFailure,
}

impl TransformError {
    /// A sentence that describes the error.
    pub fn message(&self) -> (r: String)
        ensures
            r@ == match *self {
                TransformError::MalformedNesting => "opening section tag without a matching closing tag"@,
                TransformError::GrammarParseFailure => "the source could not be parsed"@,
            },
    {
        match self {
            TransformError::MalformedNesting => "opening section tag without a matching closing tag".to_owned(),
            TransformError::GrammarParseFailure => "the source could not be parsed".to_owned(),
        }
    }
}

/// The raw regions of a single-file component.
#[derive(Debug, Clone, PartialEq)]
pub struct SfcSections {
    /// Content inside the `<template>` tag.
    pub template_content: Option<String>,
    /// Content inside the `<script>` tag.
    pub script_content: Option<String>,
    /// Content inside the `<style>` tag.
    pub style_content: Option<String>,
    /// Attributes of the `<style>` tag.
    pub style_attributes: Option<String>,
}

/// The mathematical content of [`SfcSections`].
pub struct SectionsModel {
    pub template_content: Option<Seq<char>>,
    pub script_content: Option<Seq<char>>,
    pub style_content: Option<Seq<char>>,
    pub style_attributes: Option<Seq<char>>,
}

impl DeepView for SfcSections {
    type V = SectionsModel;

    open spec fn deep_view(&self) -> SectionsModel {
        SectionsModel {
            template_content: self.template_content.deep_view(),
            script_content: self.script_content.deep_view(),
            style_content: self.style_content.deep_view(),
            style_attributes: self.style_attributes.deep_view(),
        }
    }
}

/// The text that opens a section of the given name, up to its attributes.
pub open spec fn opening_tag(name: Seq<char>) -> Seq<char> {
    "<"@ + name
}

/// The text that closes a section of the given name.
pub open spec fn closing_tag(name: Seq<char>) -> Seq<char> {
    "</"@ + name + ">"@
}

/// The position of the closing tag that brings the nesting depth to zero.
///
/// Scanning starts at `pos` with `depth` tags open. Each further opening tag
/// that comes before the next closing tag adds one to the depth, each closing
/// tag takes one away. `None` when the text runs out of closing tags first.
pub open spec fn closing_tag_from(
    s: Seq<char>,
    open: Seq<char>,
    close: Seq<char>,
    pos: int,
    depth: nat,
) -> Option<int>
    decreases s.len() - pos,
    via closing_tag_from_decreases
{
    if depth == 0 || pos < 0 || pos >= s.len() || open.len() == 0 || close.len() == 0 {
        None
    } else {
        match text::find_from(s, close, pos) {
            None => None,
            Some(c) => {
                let o = text::find_from(s, open, pos);
                if o is Some && o->0 < c {
                    closing_tag_from(s, open, close, o->0 + open.len(), depth + 1)
                } else if depth == 1 {
                    Some(c)
                } else {
                    closing_tag_from(s, open, close, c + close.len(), (depth - 1) as nat)
                }
            },
        }
    }
}

#[via_fn]
proof fn closing_tag_from_decreases(
    s: Seq<char>,
    open: Seq<char>,
    close: Seq<char>,
    pos: int,
    depth: nat,
) {
    text::lemma_find_from_bounds(s, close, pos);
    text::lemma_find_from_bounds(s, open, pos);
}

/// Where a section of a given name lies in a file.
pub enum SectionSpan {
    /// The file has no opening tag of that name.
    Absent,
    /// The opening tag is never closed.
    Unclosed,
    /// The opening tag starts at `tag`, its `>` is at `tag_end`, and the
    /// matching closing tag starts at `close`.
    Found { tag: int, tag_end: int, close: int },
}

/// Locates the first section named `name` in `s`.
pub open spec fn section_span(s: Seq<char>, name: Seq<char>) -> SectionSpan {
    match text::find(s, opening_tag(name)) {
        None => SectionSpan::Absent,
        Some(tag) => match text::find_from(s, ">"@, tag + opening_tag(name).len()) {
            None => SectionSpan::Absent,
            Some(tag_end) => match closing_tag_from(
                s,
                opening_tag(name),
                closing_tag(name),
                tag_end + 1,
                1,
            ) {
                None => SectionSpan::Unclosed,
                Some(close) => SectionSpan::Found { tag, tag_end, close },
            },
        },
    }
}

/// The content of the section that `span` locates: the text between the
/// `>` of the opening tag and the closing tag, as it stands in the file.
pub open spec fn span_content(s: Seq<char>, span: SectionSpan) -> Option<Seq<char>> {
    match span {
        SectionSpan::Found { tag, tag_end, close } => Some(s.subrange(tag_end + 1, close)),
        _ => None,
    }
}

/// The attribute text of the opening tag `<name ...>` that `span` locates:
/// what stands between the name and the `>`, as it stands in the file.
pub open spec fn span_attributes(s: Seq<char>, name: Seq<char>, span: SectionSpan) -> Option<Seq<char>> {
    match span {
        SectionSpan::Found { tag, tag_end, close } => Some(
            s.subrange(tag + opening_tag(name).len(), tag_end),
        ),
        _ => None,
    }
}

/// What splitting `s` gives: the three sections, or the error when one of
/// them is opened and never closed.
pub open spec fn split_sections(s: Seq<char>) -> Result<SectionsModel, TransformError> {
    let template = section_span(s, "template"@);
    let script = section_span(s, "script"@);
    let style = section_span(s, "style"@);
    if template is Unclosed || script is Unclosed || style is Unclosed {
        Err(TransformError::MalformedNesting)
    } else {
        Ok(
            SectionsModel {
                template_content: span_content(s, template),
                script_content: span_content(s, script),
                style_content: span_content(s, style),
                style_attributes: span_attributes(s, "style"@, style),
            },
        )
    }
}

pub proof fn lemma_closing_tag_bounds(s: Seq<char>, open: Seq<char>, close: Seq<char>, pos: int, depth: nat)
    ensures
        match closing_tag_from(s, open, close, pos, depth) {
            Some(c) => pos <= c && c + close.len() <= s.len() && text::matches_at(s, close, c),
            None => true,
        },
    decreases s.len() - pos,
{
    if !(depth == 0 || pos < 0 || pos >= s.len() || open.len() == 0 || close.len() == 0) {
        text::lemma_find_from_bounds(s, close, pos);
        text::lemma_find_from_bounds(s, open, pos);
        match text::find_from(s, close, pos) {
            None => {},
            Some(c) => {
                let o = text::find_from(s, open, pos);
                if o is Some && o->0 < c {
                    lemma_closing_tag_bounds(s, open, close, o->0 + open.len(), depth + 1);
                } else if depth == 1 {
                } else {
                    lemma_closing_tag_bounds(s, open, close, c + close.len(), (depth - 1) as nat);
                }
            },
        }
    }
}

/// With two or more tags open, the closing tag that brings the depth to
/// zero comes after the first closing tag.
pub proof fn lemma_deeper_close_is_later(s: Seq<char>, open: Seq<char>, close: Seq<char>, pos: int, depth: nat)
    requires
        depth >= 2,
        closing_tag_from(s, open, close, pos, depth) is Some,
    ensures
        text::find_from(s, close, pos) is Some,
        closing_tag_from(s, open, close, pos, depth)->0 > text::find_from(s, close, pos)->0,
    decreases s.len() - pos,
{
    text::lemma_find_from_bounds(s, close, pos);
    text::lemma_find_from_bounds(s, open, pos);
    let c = text::find_from(s, close, pos)->0;
    let o = text::find_from(s, open, pos);
    if o is Some && o->0 < c {
        let next = o->0 + open.len();
        lemma_deeper_close_is_later(s, open, close, next, depth + 1);
        text::lemma_find_from_monotonic(s, close, pos, next);
    } else {
        lemma_closing_tag_bounds(s, open, close, c + close.len(), (depth - 1) as nat);
    }
}

/// Nesting is transparent: where a further opening tag of the same name
/// comes inside a section before the first closing tag, the section does
/// not end at that first closing tag but runs on past it, so that the
/// nested tags are part of the content.
pub proof fn lemma_nested_section_is_kept_whole(s: Seq<char>, name: Seq<char>)
    requires
        section_span(s, name) is Found,
        text::find_from(s, opening_tag(name), section_span(s, name)->tag_end + 1) is Some,
        text::find_from(s, closing_tag(name), section_span(s, name)->tag_end + 1) is Some,
        text::find_from(s, opening_tag(name), section_span(s, name)->tag_end + 1)->0 < text::find_from(
            s,
            closing_tag(name),
            section_span(s, name)->tag_end + 1,
        )->0,
    ensures
        ({
            let start = section_span(s, name)->tag_end + 1;
            let nested = text::find_from(s, opening_tag(name), start)->0;
            let first_close = text::find_from(s, closing_tag(name), start)->0;
            &&& start <= nested < first_close < section_span(s, name)->close
            &&& text::matches_at(s, closing_tag(name), first_close)
            &&& text::matches_at(s, opening_tag(name), nested)
        }),
{
    let start = section_span(s, name)->tag_end + 1;
    let open = opening_tag(name);
    let close = closing_tag(name);
    let nested = text::find_from(s, open, start)->0;
    text::lemma_find_from_bounds(s, open, start);
    text::lemma_find_from_bounds(s, close, start);
    let next = nested + open.len();
    assert(closing_tag_from(s, open, close, start, 1) == closing_tag_from(s, open, close, next, 2));
    lemma_deeper_close_is_later(s, open, close, next, 2);
    text::lemma_find_from_monotonic(s, close, start, next);
}

/// How many times `pat` occurs in `s` at a position from `a` up to, but
/// not including, `b`.
pub open spec fn occurrences(s: Seq<char>, pat: Seq<char>, a: int, b: int) -> int
    decreases b - a,
{
    if b <= a {
        0
    } else if text::matches_at(s, pat, b - 1) {
        occurrences(s, pat, a, b - 1) + 1
    } else {
        occurrences(s, pat, a, b - 1)
    }
}

/// Whether a closing tag stands at `p` and brings the depth to zero: with
/// `depth` tags open at `pos`, the closing tags from `pos` up to and
/// including the one at `p` are as many as the tags that were open at `pos`
/// and the opening tags between `pos` and `p` together.
pub open spec fn closes_at(s: Seq<char>, open: Seq<char>, close: Seq<char>, pos: int, depth: int, p: int) -> bool {
    pos <= p && text::matches_at(s, close, p) && occurrences(s, close, pos, p + 1) == occurrences(s, open, pos, p)
        + depth
}

/// Whether tags of this name can be told apart by their first characters:
/// the name is not empty, does not begin with `/` and holds no `<`.
pub open spec fn is_plain_name(name: Seq<char>) -> bool {
    name.len() > 0 && name[0] != '/' && forall|i: int| 0 <= i < name.len() ==> name[i] != '<'
}

/// The occurrences in a range are those of its two parts.
pub proof fn lemma_occurrences_split(s: Seq<char>, pat: Seq<char>, a: int, b: int, c: int)
    requires
        a <= b <= c,
    ensures
        occurrences(s, pat, a, c) == occurrences(s, pat, a, b) + occurrences(s, pat, b, c),
    decreases c - b,
{
    if b < c {
        lemma_occurrences_split(s, pat, a, b, c - 1);
    }
}

/// A range in which the text occurs nowhere has no occurrence.
pub proof fn lemma_occurrences_none(s: Seq<char>, pat: Seq<char>, a: int, b: int)
    requires
        forall|k: int| a <= k < b ==> !text::matches_at(s, pat, k),
    ensures
        occurrences(s, pat, a, b) == 0,
    decreases b - a,
{
    if a < b {
        lemma_occurrences_none(s, pat, a, b - 1);
    }
}

/// No tag begins inside an opening tag of a plain name.
proof fn lemma_inside_opening_tag(s: Seq<char>, name: Seq<char>, i: int, j: int)
    requires
        is_plain_name(name),
        text::matches_at(s, opening_tag(name), i),
        i < j < i + opening_tag(name).len(),
    ensures
        !text::matches_at(s, opening_tag(name), j),
        !text::matches_at(s, closing_tag(name), j),
{
    reveal_strlit("<");
    reveal_strlit("</");
    reveal_strlit(">");
    let open = opening_tag(name);
    let close = closing_tag(name);
    assert(s[j] == s.subrange(i, i + open.len())[j - i]);
    assert(open[j - i] == name[j - i - 1]);
    if text::matches_at(s, open, j) {
        assert(s[j] == s.subrange(j, j + open.len())[0]);
        assert(open[0] == '<');
    }
    if text::matches_at(s, close, j) {
        assert(s[j] == s.subrange(j, j + close.len())[0]);
        assert(close[0] == '<');
    }
}

/// No opening tag begins at or inside a closing tag of a plain name, and
/// no closing tag begins inside it.
proof fn lemma_inside_closing_tag(s: Seq<char>, name: Seq<char>, i: int, j: int)
    requires
        is_plain_name(name),
        text::matches_at(s, closing_tag(name), i),
        i <= j < i + closing_tag(name).len(),
    ensures
        !text::matches_at(s, opening_tag(name), j),
        i < j ==> !text::matches_at(s, closing_tag(name), j),
{
    reveal_strlit("<");
    reveal_strlit("</");
    reveal_strlit(">");
    let open = opening_tag(name);
    let close = closing_tag(name);
    assert(s[j] == s.subrange(i, i + close.len())[j - i]);
    assert(close[0] == '<' && close[1] == '/');
    assert(close[close.len() - 1] == '>');
    assert(open[0] == '<' && open[1] == name[0]);
    if i < j {
        if 2 <= j - i < close.len() - 1 {
            assert(close[j - i] == name[j - i - 2]);
        }
        assert(s[j] != '<');
        if text::matches_at(s, open, j) {
            assert(s[j] == s.subrange(j, j + open.len())[0]);
        }
        if text::matches_at(s, close, j) {
            assert(s[j] == s.subrange(j, j + close.len())[0]);
        }
    } else {
        if text::matches_at(s, open, i) {
            assert(s[i + 1] == s.subrange(i, i + open.len())[1]);
            assert(s[i + 1] == s.subrange(i, i + close.len())[1]);
        }
    }
}

/// The scan for the closing tag finds the first closing tag that brings
/// the depth to zero, counted by the tags that occur.
pub proof fn lemma_closing_tag_by_counts(s: Seq<char>, name: Seq<char>, pos: int, depth: nat)
    requires
        is_plain_name(name),
        0 <= pos,
        depth >= 1,
    ensures
        match closing_tag_from(s, opening_tag(name), closing_tag(name), pos, depth) {
            Some(p) => closes_at(s, opening_tag(name), closing_tag(name), pos, depth as int, p) && forall|q: int|
                q < p ==> !#[trigger] closes_at(s, opening_tag(name), closing_tag(name), pos, depth as int, q),
            None => forall|q: int| !#[trigger] closes_at(s, opening_tag(name), closing_tag(name), pos, depth as int, q),
        },
    decreases s.len() - pos,
{
    reveal_strlit("<");
    reveal_strlit("</");
    reveal_strlit(">");
    let open = opening_tag(name);
    let close = closing_tag(name);
    let d = depth as int;
    assert(open.len() == name.len() + 1 && close.len() == name.len() + 3);
    text::lemma_find_from_is_first(s, close, pos);
    text::lemma_find_from_is_first(s, open, pos);
    text::lemma_find_from_bounds(s, close, pos);
    text::lemma_find_from_bounds(s, open, pos);
    if pos >= s.len() {
        assert forall|q: int| !#[trigger] closes_at(s, open, close, pos, d, q) by {}
    } else {
        match text::find_from(s, close, pos) {
            None => {
                assert forall|q: int| !#[trigger] closes_at(s, open, close, pos, d, q) by {}
            },
            Some(c) => {
                let o = text::find_from(s, open, pos);
                if o is Some && o->0 < c {
                    let at = o->0;
                    let next = at + open.len();
                    assert forall|k: int| at < k < next implies !text::matches_at(s, open, k) && !text::matches_at(
                        s,
                        close,
                        k,
                    ) by {
                        lemma_inside_opening_tag(s, name, at, k);
                    }
                    assert(c >= next);
                    lemma_closing_tag_by_counts(s, name, next, depth + 1);
                    assert forall|q: int| #[trigger]
                        closes_at(s, open, close, pos, d, q) == closes_at(s, open, close, next, d + 1, q) by {
                        if q >= next {
                            lemma_occurrences_split(s, open, pos, at, q);
                            lemma_occurrences_split(s, open, at, at + 1, q);
                            lemma_occurrences_split(s, open, at + 1, next, q);
                            lemma_occurrences_none(s, open, pos, at);
                            lemma_occurrences_none(s, open, at + 1, next);
                            assert(occurrences(s, open, at, at + 1) == 1) by {
                                assert(occurrences(s, open, at, at) == 0);
                            }
                            lemma_occurrences_split(s, close, pos, next, q + 1);
                            lemma_occurrences_none(s, close, pos, next);
                        }
                    }
                } else if depth == 1 {
                    lemma_occurrences_none(s, open, pos, c);
                    lemma_occurrences_none(s, close, pos, c);
                    assert(occurrences(s, close, pos, c + 1) == occurrences(s, close, pos, c) + 1);
                    assert forall|q: int| q < c implies !#[trigger] closes_at(s, open, close, pos, d, q) by {}
                } else {
                    let next = c + close.len();
                    assert forall|k: int| c <= k < next implies !text::matches_at(s, open, k) && (c < k
                        ==> !text::matches_at(s, close, k)) by {
                        lemma_inside_closing_tag(s, name, c, k);
                    }
                    lemma_closing_tag_by_counts(s, name, next, (depth - 1) as nat);
                    assert forall|q: int| #[trigger]
                        closes_at(s, open, close, pos, d, q) == closes_at(s, open, close, next, d - 1, q) by {
                        if q >= next {
                            lemma_occurrences_split(s, close, pos, c, q + 1);
                            lemma_occurrences_split(s, close, c, c + 1, q + 1);
                            lemma_occurrences_split(s, close, c + 1, next, q + 1);
                            lemma_occurrences_none(s, close, pos, c);
                            lemma_occurrences_none(s, close, c + 1, next);
                            assert(occurrences(s, close, c, c + 1) == 1) by {
                                assert(occurrences(s, close, c, c) == 0);
                            }
                            lemma_occurrences_split(s, open, pos, next, q);
                            lemma_occurrences_none(s, open, pos, next);
                        } else if q == c {
                            lemma_occurrences_none(s, open, pos, c);
                            lemma_occurrences_none(s, close, pos, c);
                            assert(occurrences(s, close, pos, c + 1) == occurrences(s, close, pos, c) + 1);
                        }
                    }
                }
            },
        }
    }
}

/// Nesting by counts: the closing tag of a section is the first closing
/// tag of its name at which the closing tags counted from the start of the
/// content, that one included, are one more than the opening tags of the
/// name before it. Where no closing tag is such, the section has no end.
/// This holds for every name that tags can be told apart by.
pub proof fn lemma_section_ends_where_tags_balance(s: Seq<char>, name: Seq<char>, start: int)
    requires
        is_plain_name(name),
        0 <= start,
    ensures
        match closing_tag_from(s, opening_tag(name), closing_tag(name), start, 1) {
            Some(p) => {
                &&& start <= p
                &&& text::matches_at(s, closing_tag(name), p)
                &&& occurrences(s, closing_tag(name), start, p + 1) == occurrences(s, opening_tag(name), start, p)
                    + 1
                &&& forall|q: int|
                    start <= q < p && #[trigger] text::matches_at(s, closing_tag(name), q) ==> occurrences(
                        s,
                        closing_tag(name),
                        start,
                        q + 1,
                    ) != occurrences(s, opening_tag(name), start, q) + 1
            },
            None => forall|q: int|
                start <= q && #[trigger] text::matches_at(s, closing_tag(name), q) ==> occurrences(
                    s,
                    closing_tag(name),
                    start,
                    q + 1,
                ) != occurrences(s, opening_tag(name), start, q) + 1,
        },
{
    let open = opening_tag(name);
    let close = closing_tag(name);
    lemma_closing_tag_by_counts(s, name, start, 1);
    match closing_tag_from(s, open, close, start, 1) {
        Some(p) => {
            assert forall|q: int| start <= q < p && #[trigger] text::matches_at(s, close, q) implies occurrences(
                s,
                close,
                start,
                q + 1,
            ) != occurrences(s, open, start, q) + 1 by {
                assert(!closes_at(s, open, close, start, 1, q));
            }
        },
        None => {
            assert forall|q: int| start <= q && #[trigger] text::matches_at(s, close, q) implies occurrences(
                s,
                close,
                start,
                q + 1,
            ) != occurrences(s, open, start, q) + 1 by {
                assert(!closes_at(s, open, close, start, 1, q));
            }
        },
    }
}

/// Splitting and putting back together: when a section is found, the file
/// is what stands before the opening tag, then the opening tag made of the
/// name, the attribute text and `>`, then the content, then the closing tag,
/// then what follows; the content and the attribute text are the ones that
/// the split reports, character for character.
pub proof fn lemma_section_round_trip(s: Seq<char>, name: Seq<char>)
    requires
        section_span(s, name) is Found,
    ensures
        ({
            let span = section_span(s, name);
            let content = span_content(s, span)->0;
            let attributes = span_attributes(s, name, span)->0;
            let before = s.subrange(0, span->tag);
            let after = s.subrange(span->close + closing_tag(name).len(), s.len() as int);
            &&& span_content(s, span) is Some
            &&& span_attributes(s, name, span) is Some
            &&& 0 <= span->tag <= span->tag_end < span->close
            &&& span->close + closing_tag(name).len() <= s.len()
            &&& s == before + opening_tag(name) + attributes + ">"@ + content + closing_tag(name) + after
        }),
{
    let span = section_span(s, name);
    let tag = span->tag;
    let tag_end = span->tag_end;
    let close = span->close;
    let open = opening_tag(name);
    let shut = closing_tag(name);
    reveal_strlit(">");
    text::lemma_find_from_bounds(s, open, 0);
    text::lemma_find_from_bounds(s, ">"@, tag + open.len());
    lemma_closing_tag_bounds(s, open, shut, tag_end + 1, 1);
    let content = s.subrange(tag_end + 1, close);
    let attributes = s.subrange(tag + open.len(), tag_end);
    let before = s.subrange(0, tag);
    let after = s.subrange(close + shut.len(), s.len() as int);
    assert(s.subrange(tag, tag + open.len()) == open);
    assert(s.subrange(tag_end, tag_end + 1) == ">"@);
    assert(s.subrange(close, close + shut.len()) == shut);
    assert(s =~= before + s.subrange(tag, tag + open.len()) + attributes + s.subrange(tag_end, tag_end + 1)
        + content + s.subrange(close, close + shut.len()) + after);
}

/// Finds the closing tag that matches an opening tag of `tag_name` whose
/// content starts at character position `start`.
pub fn find_closing_tag(content: &str, start: usize, tag_name: &str) -> (r: Option<usize>)
    ensures
        match r {
            Some(c) => closing_tag_from(
                content@,
                opening_tag(tag_name@),
                closing_tag(tag_name@),
                start as int,
                1,
            ) == Some(c as int) && start <= c <= content@.len(),
            None => closing_tag_from(
                content@,
                opening_tag(tag_name@),
                closing_tag(tag_name@),
                start as int,
                1,
            ) is None,
        },
{
    let open = concat2("<", tag_name);
    let close = concat3("</", tag_name, ">");
    let n = str_len(content);
    let open_len = str_len(open.as_str());
    let close_len = str_len(close.as_str());
    proof {
        reveal_strlit("<");
        reveal_strlit("</");
        reveal_strlit(">");
    }
    let mut depth: usize = 1;
    let mut pos: usize = start;
    while pos < n
        invariant
            n == content@.len(),
            open@ == opening_tag(tag_name@),
            close@ == closing_tag(tag_name@),
            open_len == open@.len(),
            close_len == close@.len(),
            open_len > 0,
            close_len > 0,
            depth >= 1,
            start <= pos,
            depth <= pos - start + 1,
            closing_tag_from(content@, open@, close@, start as int, 1) == closing_tag_from(
                content@,
                open@,
                close@,
                pos as int,
                depth as nat,
            ),
        decreases n - pos,
    {
        let c = match str_find_from(content, close.as_str(), pos) {
            None => {
                return None;
            },
            Some(c) => c,
        };
        let o = str_find_from(content, open.as_str(), pos);
        let open_first = match o {
            Some(op) => op < c,
            None => false,
        };
        if open_first {
            let op = o.unwrap();
            depth = depth + 1;
            pos = op + open_len;
        } else if depth == 1 {
            return Some(c);
        } else {
            depth = depth - 1;
            pos = c + close_len;
        }
    }
    None
}

/// Where a section lies, as character positions.
pub enum Located {
    Absent,
    Unclosed,
    Found { tag: usize, tag_end: usize, close: usize },
}

impl Located {
    /// The span that these positions stand for.
    pub open spec fn span(self) -> SectionSpan {
        match self {
            Located::Absent => SectionSpan::Absent,
            Located::Unclosed => SectionSpan::Unclosed,
            Located::Found { tag, tag_end, close } => SectionSpan::Found {
                tag: tag as int,
                tag_end: tag_end as int,
                close: close as int,
            },
        }
    }
}

/// Locates the first section named `name`.
pub fn locate_section(content: &str, name: &str) -> (r: Located)
    ensures
        r.span() == section_span(content@, name@),
        match r {
            Located::Found { tag, tag_end, close } => tag + 1 + name@.len() <= tag_end && tag_end
                < close && close <= content@.len(),
            _ => true,
        },
{
    let open = concat2("<", name);
    proof {
        reveal_strlit("<");
        reveal_strlit(">");
    }
    let open_len = str_len(open.as_str());
    // taking the length first shows that positions in the text can be added to
    let _length = str_len(content);
    match str_find(content, open.as_str()) {
        None => Located::Absent,
        Some(tag) => match str_find_from(content, ">", tag + open_len) {
            None => Located::Absent,
            Some(tag_end) => match find_closing_tag(content, tag_end + 1, name) {
                None => Located::Unclosed,
                Some(close) => Located::Found { tag, tag_end, close },
            },
        },
    }
}

/// Splits a component file into its template, script and style sections.
///
/// For each kind the first opening tag counts, and its content runs to the
/// closing tag that matches it, further tags of the same name nested inside
/// included. The content is reported as it stands in the file. Fails when
/// an opening tag is never closed.
pub fn parse_sfc_sections(sfc_content: &str) -> (r: Result<SfcSections, TransformError>)
    ensures
        match r {
            Ok(sections) => split_sections(sfc_content@) == Ok::<SectionsModel, TransformError>(
                sections.deep_view(),
            ),
            Err(e) => split_sections(sfc_content@) == Err::<SectionsModel, TransformError>(e),
        },
{
    let template = locate_section(sfc_content, "template");
    let script = locate_section(sfc_content, "script");
    let style = locate_section(sfc_content, "style");
    let template_content = match template {
        Located::Absent => None,
        Located::Unclosed => {
            return Err(TransformError::MalformedNesting);
        },
        Located::Found { tag, tag_end, close } => Some(str_slice(sfc_content, tag_end + 1, close)),
    };
    let script_content = match script {
        Located::Absent => None,
        Located::Unclosed => {
            return Err(TransformError::MalformedNesting);
        },
        Located::Found { tag, tag_end, close } => Some(str_slice(sfc_content, tag_end + 1, close)),
    };
    let style_content = match style {
        Located::Absent => None,
        Located::Unclosed => {
            return Err(TransformError::MalformedNesting);
        },
        Located::Found { tag, tag_end, close } => Some(str_slice(sfc_content, tag_end + 1, close)),
    };
    proof {
        reveal_strlit("<");
        reveal_strlit("style");
    }
    let style_attributes = match style {
        Located::Found { tag, tag_end, close } => Some(str_slice(sfc_content, tag + 6, tag_end)),
        _ => None,
    };
    Ok(SfcSections { template_content, script_content, style_content, style_attributes })
}

} // verus!
