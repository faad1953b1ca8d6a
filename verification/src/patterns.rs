//! Regular-expression searches, made with the `regex` crate.
//!
//! A pattern is handed over as text and compiled for each search. What a
//! search finds is a function of the pattern and the searched text alone,
//! and is named here by a spec function without a body; a pattern that does
//! not compile gives `None`.

use crate::text;
use vstd::prelude::*;

verus! {

/// Whether `pattern` matches somewhere in `haystack`.
pub uninterp spec fn regex_is_match(pattern: Seq<char>, haystack: Seq<char>) -> Option<bool>;

/// The capture groups of every match of `pattern` in `haystack`, leftmost
/// first and without overlap. Group 0 is the whole match; a group that took
/// no part in a match is `None`.
pub uninterp spec fn regex_captures(pattern: Seq<char>, haystack: Seq<char>) -> Option<
    Seq<Seq<Option<Seq<char>>>>,
>;

/// `haystack` with every match of `pattern` replaced by `replacement`, in
/// which `$1`, `$2`, ... stand for capture groups.
pub uninterp spec fn regex_replace_all(
    pattern: Seq<char>,
    haystack: Seq<char>,
    replacement: Seq<char>,
) -> Option<Seq<char>>;

/// The pieces of `haystack` that lie between the matches of `pattern`.
pub uninterp spec fn regex_split(pattern: Seq<char>, haystack: Seq<char>) -> Option<
    Seq<Seq<char>>,
>;

/// The characters that have a meaning in a pattern.
pub open spec fn is_meta_char(c: char) -> bool {
    c == '\\' || c == '.' || c == '+' || c == '*' || c == '?' || c == '(' || c == ')' || c == '|' || c == '['
        || c == ']' || c == '{' || c == '}' || c == '^' || c == '$' || c == '#' || c == '&' || c == '-'
        || c == '~'
}

/// The characters of `literal` from index `i` on, each with a backslash
/// before it where it has a meaning in a pattern.
pub open spec fn escaped_from(literal: Seq<char>, i: int) -> Seq<char>
    decreases literal.len() - i,
{
    if i < 0 || i >= literal.len() {
        Seq::empty()
    } else if is_meta_char(literal[i]) {
        seq!['\\', literal[i]] + escaped_from(literal, i + 1)
    } else {
        seq![literal[i]] + escaped_from(literal, i + 1)
    }
}

/// The pattern that matches `literal` and nothing else.
pub open spec fn regex_escaped(literal: Seq<char>) -> Seq<char> {
    escaped_from(literal, 0)
}

/// Calls `regex::escape`, which copies the text and puts a backslash before
/// every character that has a meaning in a pattern.
#[verifier::external_body]
pub(crate) fn escape(literal: &str) -> (r: String)
    ensures
        r@ == regex_escaped(literal@),
{
    regex::escape(literal)
}

/// Compiles `pattern` with `regex::Regex::new` and asks `Regex::is_match`.
#[verifier::external_body]
pub(crate) fn is_match(pattern: &str, haystack: &str) -> (r: Option<bool>)
    ensures
        r == regex_is_match(pattern@, haystack@),
{
    let re = regex::Regex::new(pattern).ok()?;
    Some(re.is_match(haystack))
}

/// Compiles `pattern` with `regex::Regex::new` and collects what
/// `Regex::split` and `Regex::captures_iter` yield: the pieces of text
/// between the matches, and for each match the text of each group. Both
/// walk the same matches, and the split yields the piece before each match
/// and the piece after the last, so there is one piece more than there are
/// matches.
#[verifier::external_body]
pub(crate) fn search(pattern: &str, haystack: &str) -> (r: Option<(Vec<String>, Vec<Vec<Option<String>>>)>)
    ensures
        match r {
            Some(p) => regex_split(pattern@, haystack@) == Some(p.0.deep_view()) && regex_captures(
                pattern@,
                haystack@,
            ) == Some(p.1.deep_view()) && p.0.len() == p.1.len() + 1,
            None => regex_split(pattern@, haystack@) is None && regex_captures(pattern@, haystack@) is None,
        },
{
    let re = regex::Regex::new(pattern).ok()?;
    let pieces = re.split(haystack).map(String::from).collect();
    let found = re.captures_iter(haystack).map(
        |c| c.iter().map(|g| g.map(|m| m.as_str().to_string())).collect(),
    ).collect();
    Some((pieces, found))
}

/// Compiles `pattern` with `regex::Regex::new` and calls
/// `Regex::replace_all` with a replacement text.
#[verifier::external_body]
pub(crate) fn replace_all(pattern: &str, haystack: &str, replacement: &str) -> (r: Option<String>)
    ensures
        r.deep_view() == regex_replace_all(pattern@, haystack@, replacement@),
{
    let re = regex::Regex::new(pattern).ok()?;
    Some(re.replace_all(haystack, replacement).into_owned())
}

/// The pattern that matches `literal` and nothing else.
pub fn pattern_escape(literal: &str) -> (r: String)
    ensures
        r@ == regex_escaped(literal@),
{
    escape(literal)
}

/// Whether `pattern` matches in `haystack`; a pattern that does not compile
/// matches nothing.
pub open spec fn pattern_found(pattern: Seq<char>, haystack: Seq<char>) -> bool {
    regex_is_match(pattern, haystack) == Some(true)
}

pub fn pattern_matches(pattern: &str, haystack: &str) -> (r: bool)
    ensures
        r == pattern_found(pattern@, haystack@),
{
    match is_match(pattern, haystack) {
        Some(b) => b,
        None => false,
    }
}

/// The matches of `pattern` in `haystack`; none when the pattern does not
/// compile.
pub open spec fn all_captures(pattern: Seq<char>, haystack: Seq<char>) -> Seq<
    Seq<Option<Seq<char>>>,
> {
    match regex_captures(pattern, haystack) {
        Some(found) => found,
        None => Seq::empty(),
    }
}

/// The pieces of `haystack` between the matches of `pattern`; the whole
/// text as one piece when the pattern does not compile.
pub open spec fn pieces_between(pattern: Seq<char>, haystack: Seq<char>) -> Seq<Seq<char>> {
    match regex_split(pattern, haystack) {
        Some(pieces) => pieces,
        None => seq![haystack],
    }
}

/// Searches `haystack` for `pattern`: the pieces between the matches and
/// the groups of each match. There is always one piece more than there are
/// matches.
pub fn pattern_search(pattern: &str, haystack: &str) -> (r: (Vec<String>, Vec<Vec<Option<String>>>))
    ensures
        r.0.deep_view() == pieces_between(pattern@, haystack@),
        r.1.deep_view() == all_captures(pattern@, haystack@),
        r.0.len() == r.1.len() + 1,
        pieces_between(pattern@, haystack@).len() == all_captures(pattern@, haystack@).len() + 1,
{
    match search(pattern, haystack) {
        Some(p) => p,
        None => {
            let mut pieces: Vec<String> = Vec::new();
            pieces.push(haystack.to_owned());
            assert(pieces.deep_view() =~= seq![haystack@]);
            let found: Vec<Vec<Option<String>>> = Vec::new();
            assert(found.deep_view() =~= Seq::empty());
            (pieces, found)
        },
    }
}

pub fn pattern_captures(pattern: &str, haystack: &str) -> (r: Vec<Vec<Option<String>>>)
    ensures
        r.deep_view() == all_captures(pattern@, haystack@),
{
    pattern_search(pattern, haystack).1
}

/// `haystack` after replacement; unchanged when the pattern does not compile.
pub open spec fn replaced(pattern: Seq<char>, haystack: Seq<char>, replacement: Seq<char>) -> Seq<
    char,
> {
    match regex_replace_all(pattern, haystack, replacement) {
        Some(out) => out,
        None => haystack,
    }
}

pub fn pattern_replace(pattern: &str, haystack: &str, replacement: &str) -> (r: String)
    ensures
        r@ == replaced(pattern@, haystack@, replacement@),
{
    match replace_all(pattern, haystack, replacement) {
        Some(out) => out,
        None => haystack.to_owned(),
    }
}

/// The text of group `k` of one match, or the empty text where the group is
/// missing or took no part.
pub open spec fn group(caps: Seq<Option<Seq<char>>>, k: int) -> Seq<char> {
    if 0 <= k < caps.len() {
        match caps[k] {
            Some(t) => t,
            None => Seq::empty(),
        }
    } else {
        Seq::empty()
    }
}

/// Whether group `k` of one match took part in it.
pub open spec fn has_group(caps: Seq<Option<Seq<char>>>, k: int) -> bool {
    0 <= k < caps.len() && caps[k] is Some
}

pub fn capture_group(caps: &Vec<Option<String>>, k: usize) -> (r: String)
    ensures
        r@ == group(caps.deep_view(), k as int),
{
    if k < caps.len() {
        match &caps[k] {
            Some(t) => t.clone(),
            None => String::new(),
        }
    } else {
        String::new()
    }
}

pub fn capture_has_group(caps: &Vec<Option<String>>, k: usize) -> (r: bool)
    ensures
        r == has_group(caps.deep_view(), k as int),
{
    k < caps.len() && caps[k].is_some()
}

/// The pieces from index `i` on, with fill `i` after piece `i` wherever a
/// further piece follows and the fill exists.
pub open spec fn interleave_from(pieces: Seq<Seq<char>>, fills: Seq<Seq<char>>, i: int) -> Seq<char>
    decreases pieces.len() - i,
{
    if i < 0 || i >= pieces.len() {
        Seq::empty()
    } else if i + 1 < pieces.len() && i < fills.len() {
        pieces[i] + fills[i] + interleave_from(pieces, fills, i + 1)
    } else {
        pieces[i] + interleave_from(pieces, fills, i + 1)
    }
}

/// The text made of the pieces with the fills between them.
pub open spec fn interleave(pieces: Seq<Seq<char>>, fills: Seq<Seq<char>>) -> Seq<char> {
    interleave_from(pieces, fills, 0)
}

/// Where there is a piece after fill `i`, the fill stands in the text that
/// is put together from index `k` on.
pub proof fn lemma_interleave_holds_fill(pieces: Seq<Seq<char>>, fills: Seq<Seq<char>>, k: int, i: int)
    requires
        0 <= k <= i < fills.len(),
        i + 1 < pieces.len(),
    ensures
        text::contains(interleave_from(pieces, fills, k), fills[i]),
    decreases i - k,
{
    let rest = interleave_from(pieces, fills, k + 1);
    let empty: Seq<char> = Seq::empty();
    if k == i {
        assert(fills[i].subrange(0, fills[i].len() as int) =~= fills[i]);
        assert(text::matches_at(fills[i], fills[i], 0));
        text::lemma_occurrence_in_the_middle(pieces[k], fills[i], rest, fills[i], 0);
        text::lemma_occurrence_is_contained(interleave_from(pieces, fills, k), fills[i], pieces[k].len() as int);
    } else {
        lemma_interleave_holds_fill(pieces, fills, k + 1, i);
        text::lemma_find_from_is_first(rest, fills[i], 0);
        let at = text::find(rest, fills[i])->0;
        let head = pieces[k] + fills[k];
        text::lemma_occurrence_in_the_middle(head, rest, empty, fills[i], at);
        assert(head + rest + empty =~= interleave_from(pieces, fills, k));
        text::lemma_occurrence_is_contained(interleave_from(pieces, fills, k), fills[i], head.len() + at);
    }
}

pub fn pattern_split(pattern: &str, haystack: &str) -> (r: Vec<String>)
    ensures
        r.deep_view() == pieces_between(pattern@, haystack@),
{
    pattern_search(pattern, haystack).0
}

/// A rule that chooses the text for each match of a pattern.
pub trait Fill {
    /// The text that takes the place of a match with the given groups;
    /// `before` is the searched text up to the match.
    spec fn fill(&self, caps: Seq<Option<Seq<char>>>, before: Seq<char>) -> Seq<char>;

    fn make(&self, caps: &Vec<Option<String>>, before: &str) -> (r: String)
        ensures
            r@ == self.fill(caps.deep_view(), before@),
    ;
}

/// Piece `i`, or the empty text where there is none.
pub open spec fn piece_at(pieces: Seq<Seq<char>>, i: int) -> Seq<char> {
    if 0 <= i < pieces.len() {
        pieces[i]
    } else {
        Seq::empty()
    }
}

/// The searched text up to match `i`: the pieces up to piece `i` with the
/// matches between them.
pub open spec fn text_before(pieces: Seq<Seq<char>>, found: Seq<Seq<Option<Seq<char>>>>, i: int) -> Seq<char>
    decreases i,
{
    if i <= 0 || i > found.len() {
        piece_at(pieces, 0)
    } else {
        text_before(pieces, found, i - 1) + group(found[i - 1], 0) + piece_at(pieces, i)
    }
}

/// The texts that `rule` chooses for the matches from index `i` on,
/// appended to `acc`.
pub open spec fn fills_from<F: Fill>(
    rule: &F,
    pieces: Seq<Seq<char>>,
    found: Seq<Seq<Option<Seq<char>>>>,
    i: int,
    acc: Seq<Seq<char>>,
) -> Seq<Seq<char>>
    decreases found.len() - i,
{
    if i < 0 || i >= found.len() {
        acc
    } else {
        fills_from(rule, pieces, found, i + 1, acc.push(rule.fill(found[i], text_before(pieces, found, i))))
    }
}

/// A text put together again from the pieces between the matches and what
/// `rule` chooses for each match.
pub open spec fn refilled<F: Fill>(
    rule: &F,
    pieces: Seq<Seq<char>>,
    found: Seq<Seq<Option<Seq<char>>>>,
) -> Seq<char> {
    interleave(pieces, fills_from(rule, pieces, found, 0, Seq::empty()))
}

/// `haystack` with every match of `pattern` replaced by what `rule`
/// chooses for it.
pub open spec fn replaced_with<F: Fill>(rule: &F, pattern: Seq<char>, haystack: Seq<char>) -> Seq<char> {
    refilled(rule, pieces_between(pattern, haystack), all_captures(pattern, haystack))
}

/// Compiles `pattern` with `regex::Regex::new` and calls
/// `Regex::replace_all` with a closure that hands each match to `rule`: its
/// groups, and the searched text up to the match.
///
/// `replace_all` walks the matches of `Regex::captures_iter`. Before each
/// match it copies the text since the match before, then it appends what
/// the closure returns, and at the end it copies the text after the last
/// match. Those stretches of text are the ones that `Regex::split` yields,
/// one more than there are matches. Nothing is claimed about where the
/// pattern matches.
#[verifier::external_body]
pub(crate) fn replace_all_with<F: Fill>(pattern: &str, haystack: &str, rule: &F) -> (r: Option<String>)
    ensures
        match r {
            Some(out) => regex_split(pattern@, haystack@) is Some && regex_captures(pattern@, haystack@) is Some
                && regex_split(pattern@, haystack@)->0.len() == regex_captures(pattern@, haystack@)->0.len() + 1
                && out@ == refilled(
                rule,
                regex_split(pattern@, haystack@)->0,
                regex_captures(pattern@, haystack@)->0,
            ),
            None => regex_split(pattern@, haystack@) is None && regex_captures(pattern@, haystack@) is None,
        },
{
    let re = regex::Regex::new(pattern).ok()?;
    let out = re.replace_all(
        haystack,
        |c: &regex::Captures| {
            let groups: Vec<Option<String>> = c.iter().map(|g| g.map(|m| m.as_str().to_string())).collect();
            rule.make(&groups, &haystack[..c.get_match().start()])
        },
    );
    Some(out.into_owned())
}

/// Replaces every match of `pattern` by what `rule` chooses for it; the
/// text stays as it is when the pattern does not compile.
pub fn replace_matches<F: Fill>(pattern: &str, haystack: &str, rule: &F) -> (r: String)
    ensures
        r@ == replaced_with(rule, pattern@, haystack@),
        pieces_between(pattern@, haystack@).len() == all_captures(pattern@, haystack@).len() + 1,
{
    match replace_all_with(pattern, haystack, rule) {
        Some(out) => out,
        None => {
            assert(interleave(seq![haystack@], Seq::empty()) =~= haystack@) by {
                reveal_with_fuel(interleave_from, 3);
            }
            haystack.to_owned()
        },
    }
}

/// The texts of group `k` of the matches from index `i` on, each once,
/// appended to `acc`.
pub open spec fn distinct_groups_from(
    found: Seq<Seq<Option<Seq<char>>>>,
    k: int,
    i: int,
    acc: Seq<Seq<char>>,
) -> Seq<Seq<char>>
    decreases found.len() - i,
{
    if i < 0 || i >= found.len() {
        acc
    } else if acc.contains(group(found[i], k)) {
        distinct_groups_from(found, k, i + 1, acc)
    } else {
        distinct_groups_from(found, k, i + 1, acc.push(group(found[i], k)))
    }
}

/// Adds to `out` the texts of group `k` of the matches, each once.
pub fn collect_distinct_groups(found: &Vec<Vec<Option<String>>>, k: usize, out: &mut Vec<String>)
    ensures
        final(out).deep_view() == distinct_groups_from(found.deep_view(), k as int, 0, old(out).deep_view()),
{
    let ghost all = found.deep_view();
    let mut i: usize = 0;
    while i < found.len()
        invariant
            i <= found.len(),
            all == found.deep_view(),
            distinct_groups_from(all, k as int, 0, old(out).deep_view()) == distinct_groups_from(
                all,
                k as int,
                i as int,
                out.deep_view(),
            ),
        decreases found.len() - i,
    {
        assert(all[i as int] == found@[i as int].deep_view());
        let name = capture_group(&found[i], k);
        if !crate::strs::list_contains(out, name.as_str()) {
            crate::text::push_deep(out, name);
        }
        i += 1;
    }
}

} // verus!
