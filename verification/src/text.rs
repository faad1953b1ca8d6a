//! Text primitives over sequences of characters.
//!
//! Every function here is stated over `Seq<char>`, the view of `str` and
//! `String`. Positions are character positions, never byte offsets.

use vstd::prelude::*;

verus! {

/// `pat` occurs in `s` at character position `i`.
pub open spec fn matches_at(s: Seq<char>, pat: Seq<char>, i: int) -> bool {
    0 <= i && i + pat.len() <= s.len() && s.subrange(i, i + pat.len()) == pat
}

/// The first position at or after `from` where `pat` occurs in `s`.
pub open spec fn find_from(s: Seq<char>, pat: Seq<char>, start: int) -> Option<int>
    decreases s.len() + 1 - start,
{
    if 0 <= start && start + pat.len() <= s.len() {
        if matches_at(s, pat, start) {
            Some(start)
        } else {
            find_from(s, pat, start + 1)
        }
    } else {
        None
    }
}

/// The last position at or before `i` where `pat` occurs in `s`.
pub open spec fn rfind_from(s: Seq<char>, pat: Seq<char>, i: int) -> Option<int>
    decreases i + 1,
{
    if i < 0 {
        None
    } else if matches_at(s, pat, i) {
        Some(i)
    } else {
        rfind_from(s, pat, i - 1)
    }
}

/// The last position where `pat` occurs in `s`.
pub open spec fn rfind(s: Seq<char>, pat: Seq<char>) -> Option<int> {
    if pat.len() > s.len() {
        None
    } else {
        rfind_from(s, pat, s.len() - pat.len())
    }
}

/// The first position where `pat` occurs in `s`.
pub open spec fn find(s: Seq<char>, pat: Seq<char>) -> Option<int> {
    find_from(s, pat, 0)
}

/// `pat` occurs somewhere in `s`.
pub open spec fn contains(s: Seq<char>, pat: Seq<char>) -> bool {
    find(s, pat) is Some
}

pub open spec fn starts_with(s: Seq<char>, pat: Seq<char>) -> bool {
    matches_at(s, pat, 0)
}

pub open spec fn ends_with(s: Seq<char>, pat: Seq<char>) -> bool {
    pat.len() <= s.len() && matches_at(s, pat, s.len() - pat.len())
}

/// `s` with every occurrence of the non-empty `pat` at or after `i` replaced
/// by `to`, scanning left to right without overlap; the part before `i` is
/// left out.
pub open spec fn replace_from(s: Seq<char>, pat: Seq<char>, to: Seq<char>, i: int) -> Seq<char>
    decreases s.len() - i,
{
    if i < 0 || i >= s.len() {
        Seq::empty()
    } else if pat.len() > 0 && matches_at(s, pat, i) {
        to + replace_from(s, pat, to, i + pat.len())
    } else {
        seq![s[i]] + replace_from(s, pat, to, i + 1)
    }
}

/// `to` placed before every character of `s` from `i` on, and once at the end.
pub open spec fn intersperse_from(s: Seq<char>, to: Seq<char>, i: int) -> Seq<char>
    decreases s.len() - i,
{
    if i < 0 || i >= s.len() {
        to
    } else {
        to + seq![s[i]] + intersperse_from(s, to, i + 1)
    }
}

/// Literal substring replacement: every non-overlapping occurrence of `pat`,
/// leftmost first, becomes `to`. An empty `pat` matches before every
/// character and at the end.
pub open spec fn replace(s: Seq<char>, pat: Seq<char>, to: Seq<char>) -> Seq<char> {
    if pat.len() == 0 {
        intersperse_from(s, to, 0)
    } else {
        replace_from(s, pat, to, 0)
    }
}

/// The characters that a name is made of: letters and digits of the basic
/// alphabet, the underscore and the dollar sign.
pub open spec fn is_name_char(c: char) -> bool {
    ('a' <= c && c <= 'z') || ('A' <= c && c <= 'Z') || ('0' <= c && c <= '9') || c == '_' || c == '$'
}

/// `pat` occurs in `s` at position `i` and the name it ends with ends
/// there too: what follows is no character of a name.
pub open spec fn whole_at(s: Seq<char>, pat: Seq<char>, i: int) -> bool {
    matches_at(s, pat, i) && !(i + pat.len() < s.len() && is_name_char(s[i + pat.len()]))
}

/// `s` from `i` on, with every occurrence of the non-empty `pat` that ends
/// where a name ends replaced by `to`, scanning left to right.
pub open spec fn replace_whole_from(s: Seq<char>, pat: Seq<char>, to: Seq<char>, i: int) -> Seq<char>
    decreases s.len() - i,
{
    if i < 0 || i >= s.len() {
        Seq::empty()
    } else if pat.len() > 0 && whole_at(s, pat, i) {
        to + replace_whole_from(s, pat, to, i + pat.len())
    } else {
        seq![s[i]] + replace_whole_from(s, pat, to, i + 1)
    }
}

/// Replacement of whole names: an occurrence of `pat` that runs on into a
/// longer name is left alone.
pub open spec fn replace_whole(s: Seq<char>, pat: Seq<char>, to: Seq<char>) -> Seq<char> {
    replace_whole_from(s, pat, to, 0)
}

/// A text in which `pat` never ends where a name ends comes out of the
/// replacement of whole names as it went in.
pub proof fn lemma_replace_whole_leaves_longer_names(s: Seq<char>, pat: Seq<char>, to: Seq<char>, i: int)
    requires
        0 <= i <= s.len(),
        forall|k: int| i <= k ==> !whole_at(s, pat, k),
    ensures
        replace_whole_from(s, pat, to, i) == s.subrange(i, s.len() as int),
    decreases s.len() - i,
{
    if i < s.len() {
        lemma_replace_whole_leaves_longer_names(s, pat, to, i + 1);
        assert(seq![s[i]] + s.subrange(i + 1, s.len() as int) =~= s.subrange(i, s.len() as int));
    } else {
        assert(s.subrange(i, s.len() as int) =~= Seq::<char>::empty());
    }
}

/// The characters that `trim` removes: the Unicode `White_Space` set.
pub open spec fn is_space(c: char) -> bool {
    let n = c as u32;
    ||| (0x09 <= n && n <= 0x0D)
    ||| n == 0x20
    ||| n == 0x85
    ||| n == 0xA0
    ||| n == 0x1680
    ||| (0x2000 <= n && n <= 0x200A)
    ||| n == 0x2028
    ||| n == 0x2029
    ||| n == 0x202F
    ||| n == 0x205F
    ||| n == 0x3000
}

/// What trimming removes.
#[derive(Clone, Copy, Debug)]
pub enum Strip {
    /// White space.
    Space,
    /// One character.
    Is(char),
    /// Single and double quotes.
    Quote,
    /// Single and double quotes and backticks.
    AnyQuote,
}

/// Whether trimming removes `c`.
pub open spec fn strips(which: Strip, c: char) -> bool {
    match which {
        Strip::Space => is_space(c),
        Strip::Is(d) => c == d,
        Strip::Quote => c == '\'' || c == '"',
        Strip::AnyQuote => c == '\'' || c == '"' || c == '`',
    }
}

/// The first position at or after `i` whose character is not stripped, or
/// the length of `s`.
pub open spec fn skip_start(s: Seq<char>, which: Strip, i: int) -> int
    decreases s.len() - i,
{
    if i < 0 || i >= s.len() {
        s.len() as int
    } else if strips(which, s[i]) {
        skip_start(s, which, i + 1)
    } else {
        i
    }
}

/// The end of `s[..hi]` once trailing stripped characters are cut, never
/// going below `lo`.
pub open spec fn skip_end(s: Seq<char>, which: Strip, lo: int, hi: int) -> int
    decreases hi - lo,
{
    if hi <= lo || hi > s.len() || lo < 0 {
        lo
    } else if strips(which, s[hi - 1]) {
        skip_end(s, which, lo, hi - 1)
    } else {
        hi
    }
}

/// `s` without its leading and trailing stripped characters.
pub open spec fn trim_by(s: Seq<char>, which: Strip) -> Seq<char> {
    let lo = skip_start(s, which, 0);
    let hi = skip_end(s, which, lo, s.len() as int);
    s.subrange(lo, hi)
}

pub open spec fn trim_start_by(s: Seq<char>, which: Strip) -> Seq<char> {
    s.subrange(skip_start(s, which, 0), s.len() as int)
}

pub open spec fn trim_end_by(s: Seq<char>, which: Strip) -> Seq<char> {
    s.subrange(0, skip_end(s, which, 0, s.len() as int))
}

/// `s` without leading and trailing white space.
pub open spec fn trim(s: Seq<char>) -> Seq<char> {
    trim_by(s, Strip::Space)
}

/// `s` without leading and trailing copies of `c`.
pub open spec fn trim_matches(s: Seq<char>, c: char) -> Seq<char> {
    trim_by(s, Strip::Is(c))
}

/// `s` without leading and trailing quotes of either kind.
pub open spec fn trim_quotes(s: Seq<char>) -> Seq<char> {
    trim_by(s, Strip::Quote)
}

pub open spec fn trim_end_matches(s: Seq<char>, c: char) -> Seq<char> {
    trim_end_by(s, Strip::Is(c))
}

pub open spec fn trim_start_matches(s: Seq<char>, c: char) -> Seq<char> {
    trim_start_by(s, Strip::Is(c))
}

/// `s` without the prefix `pat`, when it starts with it.
pub open spec fn strip_prefix(s: Seq<char>, pat: Seq<char>) -> Option<Seq<char>> {
    if starts_with(s, pat) {
        Some(s.subrange(pat.len() as int, s.len() as int))
    } else {
        None
    }
}

/// The position of the first `c` at or after `i`, or the length of `s`.
pub open spec fn next_char(s: Seq<char>, c: char, i: int) -> int
    decreases s.len() - i,
{
    if i < 0 || i >= s.len() {
        s.len() as int
    } else if s[i] == c {
        i
    } else {
        next_char(s, c, i + 1)
    }
}

/// `line` without one trailing carriage return.
pub open spec fn strip_cr(line: Seq<char>) -> Seq<char> {
    if line.len() > 0 && line.last() == '\r' {
        line.drop_last()
    } else {
        line
    }
}

/// The lines of `s` from position `i` on. A line ends at a line feed, which
/// is dropped together with a carriage return just before it; text after the
/// last line feed is a line of its own unless it is empty.
pub open spec fn lines_from(s: Seq<char>, i: int) -> Seq<Seq<char>>
    decreases s.len() - i,
{
    if i < 0 || i >= s.len() {
        Seq::empty()
    } else {
        let e = next_char(s, '\n', i);
        if i <= e && e < s.len() {
            seq![strip_cr(s.subrange(i, e))] + lines_from(s, e + 1)
        } else {
            seq![s.subrange(i, s.len() as int)]
        }
    }
}

pub open spec fn lines(s: Seq<char>) -> Seq<Seq<char>> {
    lines_from(s, 0)
}

/// The pieces of `s` from `i` on that lie between occurrences of the
/// character `c`; there is always one piece more than there are separators.
pub open spec fn split_from(s: Seq<char>, c: char, i: int) -> Seq<Seq<char>>
    decreases s.len() + 1 - i,
{
    if i < 0 || i > s.len() {
        Seq::empty()
    } else {
        let e = next_char(s, c, i);
        if i <= e && e < s.len() {
            seq![s.subrange(i, e)] + split_from(s, c, e + 1)
        } else {
            seq![s.subrange(i, s.len() as int)]
        }
    }
}

pub open spec fn split(s: Seq<char>, c: char) -> Seq<Seq<char>> {
    split_from(s, c, 0)
}

/// The items from index `i` on, each but the first preceded by `sep`.
pub open spec fn join_from(items: Seq<Seq<char>>, sep: Seq<char>, i: int) -> Seq<char>
    decreases items.len() - i,
{
    if i < 0 || i >= items.len() {
        Seq::empty()
    } else if i == 0 {
        items[i] + join_from(items, sep, i + 1)
    } else {
        sep + items[i] + join_from(items, sep, i + 1)
    }
}

/// The items concatenated with `sep` between neighbours.
pub open spec fn join(items: Seq<Seq<char>>, sep: Seq<char>) -> Seq<char> {
    join_from(items, sep, 0)
}

/// Lexicographic order by character code.
pub open spec fn less_from(a: Seq<char>, b: Seq<char>, i: int) -> bool
    decreases a.len() - i,
{
    if i < 0 || i >= b.len() {
        false
    } else if i >= a.len() {
        true
    } else if a[i] == b[i] {
        less_from(a, b, i + 1)
    } else {
        (a[i] as u32) < (b[i] as u32)
    }
}

/// `a` sorts strictly before `b`.
pub open spec fn less(a: Seq<char>, b: Seq<char>) -> bool {
    less_from(a, b, 0)
}

pub proof fn lemma_find_from_bounds(s: Seq<char>, pat: Seq<char>, start: int)
    ensures
        match find_from(s, pat, start) {
            Some(i) => start <= i && i + pat.len() <= s.len() && matches_at(s, pat, i),
            None => true,
        },
    decreases s.len() + 1 - start,
{
    if 0 <= start && start + pat.len() <= s.len() && !matches_at(s, pat, start) {
        lemma_find_from_bounds(s, pat, start + 1);
    }
}

/// Different characters have different codes.
pub proof fn lemma_char_codes_differ(x: char, y: char)
    requires
        x != y,
    ensures
        (x as u32) != (y as u32),
{
}

/// No text sorts before itself.
pub proof fn lemma_less_irreflexive(a: Seq<char>, i: int)
    requires
        0 <= i,
    ensures
        !less_from(a, a, i),
    decreases a.len() - i,
{
    if i < a.len() {
        lemma_less_irreflexive(a, i + 1);
    }
}

/// Of two different texts one sorts before the other.
pub proof fn lemma_less_connected(a: Seq<char>, b: Seq<char>, i: int)
    requires
        0 <= i <= a.len(),
        i <= b.len(),
        forall|k: int| 0 <= k < i ==> a[k] == b[k],
        a != b,
    ensures
        less_from(a, b, i) || less_from(b, a, i),
    decreases a.len() - i,
{
    if i == b.len() {
        if i == a.len() {
            assert(a =~= b);
        }
    } else if i < a.len() {
        if a[i] == b[i] {
            lemma_less_connected(a, b, i + 1);
        } else {
            lemma_char_codes_differ(a[i], b[i]);
        }
    }
}

/// The order of texts is transitive.
pub proof fn lemma_less_transitive(a: Seq<char>, b: Seq<char>, c: Seq<char>, i: int)
    requires
        0 <= i,
        less_from(a, b, i),
        less_from(b, c, i),
    ensures
        less_from(a, c, i),
    decreases a.len() - i,
{
    if i < a.len() {
        if a[i] == b[i] && b[i] == c[i] {
            lemma_less_transitive(a, b, c, i + 1);
        }
    }
}

/// Everything from `i` up to where `skip_start` stops is stripped, and what
/// stands where it stops is not.
pub proof fn lemma_skip_start(s: Seq<char>, which: Strip, i: int)
    requires
        0 <= i <= s.len(),
    ensures
        i <= skip_start(s, which, i) <= s.len(),
        forall|k: int| i <= k < skip_start(s, which, i) ==> strips(which, #[trigger] s[k]),
        skip_start(s, which, i) < s.len() ==> !strips(which, s[skip_start(s, which, i)]),
    decreases s.len() - i,
{
    if i < s.len() && strips(which, s[i]) {
        lemma_skip_start(s, which, i + 1);
    }
}

/// Everything from where `skip_end` stops up to `hi` is stripped, and what
/// stands just before where it stops is not, unless it stops at `lo`.
pub proof fn lemma_skip_end(s: Seq<char>, which: Strip, lo: int, hi: int)
    requires
        0 <= lo <= hi <= s.len(),
    ensures
        lo <= skip_end(s, which, lo, hi) <= hi,
        forall|k: int| skip_end(s, which, lo, hi) <= k < hi ==> strips(which, #[trigger] s[k]),
        skip_end(s, which, lo, hi) > lo ==> !strips(which, s[skip_end(s, which, lo, hi) - 1]),
    decreases hi - lo,
{
    if lo < hi && strips(which, s[hi - 1]) {
        lemma_skip_end(s, which, lo, hi - 1);
    }
}

/// Trimming cuts stripped characters off both ends and nothing else: the
/// text is a stripped head, the trimmed text and a stripped tail, and the
/// trimmed text neither starts nor ends with a stripped character.
pub proof fn lemma_trim_by(s: Seq<char>, which: Strip)
    ensures
        ({
            let lo = skip_start(s, which, 0);
            let hi = skip_end(s, which, lo, s.len() as int);
            let t = trim_by(s, which);
            &&& 0 <= lo <= hi <= s.len()
            &&& s == s.subrange(0, lo) + t + s.subrange(hi, s.len() as int)
            &&& forall|k: int| 0 <= k < lo ==> strips(which, #[trigger] s[k])
            &&& forall|k: int| hi <= k < s.len() ==> strips(which, #[trigger] s[k])
            &&& t.len() > 0 ==> !strips(which, t[0]) && !strips(which, t.last())
        }),
{
    lemma_skip_start(s, which, 0);
    let lo = skip_start(s, which, 0);
    lemma_skip_end(s, which, lo, s.len() as int);
    let hi = skip_end(s, which, lo, s.len() as int);
    let t = trim_by(s, which);
    assert(s =~= s.subrange(0, lo) + t + s.subrange(hi, s.len() as int));
    if t.len() > 0 {
        assert(t[0] == s[lo]);
        assert(t.last() == s[hi - 1]);
    }
}

/// What `find_from` gives is the first occurrence: `pat` occurs there and
/// at no position between `start` and there; and when it gives nothing,
/// `pat` occurs at no position from `start` on.
pub proof fn lemma_find_from_is_first(s: Seq<char>, pat: Seq<char>, start: int)
    requires
        0 <= start,
    ensures
        match find_from(s, pat, start) {
            Some(i) => start <= i && matches_at(s, pat, i) && forall|k: int|
                start <= k < i ==> !matches_at(s, pat, k),
            None => forall|k: int| start <= k ==> !matches_at(s, pat, k),
        },
    decreases s.len() + 1 - start,
{
    if start + pat.len() <= s.len() && !matches_at(s, pat, start) {
        lemma_find_from_is_first(s, pat, start + 1);
    }
}

/// A text that occurs at some position is contained.
pub proof fn lemma_occurrence_is_contained(s: Seq<char>, pat: Seq<char>, at: int)
    requires
        matches_at(s, pat, at),
    ensures
        contains(s, pat),
{
    lemma_find_from_is_first(s, pat, 0);
}

/// What occurs in a text occurs in every text that the text is a part of.
pub proof fn lemma_occurrence_in_the_middle(head: Seq<char>, s: Seq<char>, tail: Seq<char>, pat: Seq<char>, at: int)
    requires
        matches_at(s, pat, at),
    ensures
        matches_at(head + s + tail, pat, head.len() + at),
{
    let whole = head + s + tail;
    assert(whole.subrange(head.len() + at, head.len() + at + pat.len()) =~= s.subrange(at, at + pat.len()));
}

/// Searching from an earlier position finds an occurrence that is no
/// later.
pub proof fn lemma_find_from_monotonic(s: Seq<char>, pat: Seq<char>, a: int, b: int)
    requires
        0 <= a <= b,
        find_from(s, pat, b) is Some,
    ensures
        find_from(s, pat, a) is Some,
        find_from(s, pat, a)->0 <= find_from(s, pat, b)->0,
    decreases b - a,
{
    lemma_find_from_bounds(s, pat, b);
    if a < b {
        if !matches_at(s, pat, a) {
            lemma_find_from_monotonic(s, pat, a + 1, b);
        }
    }
}

/// Converts a string slice into the vector of its characters.
pub fn to_chars(s: &str) -> (v: Vec<char>)
    ensures
        v@ == s@,
{
    let mut v: Vec<char> = Vec::new();
    for c in it: s.chars()
        invariant
            it.seq() == s@,
            v@ == s@.subrange(0, it.index() as int),
    {
        v.push(c);
        assert(v@ =~= s@.subrange(0, it.index() + 1 as int));
    }
    assert(v@ =~= s@);
    v
}

/// Whether `char::is_alphanumeric` holds of a character.
pub uninterp spec fn is_alphanumeric(c: char) -> bool;

/// Calls `char::is_alphanumeric`, which tells by the Unicode tables whether
/// a character is a letter or a digit.
#[verifier::external_body]
pub(crate) fn char_is_alphanumeric(c: char) -> (r: bool)
    ensures
        r == is_alphanumeric(c),
{
    c.is_alphanumeric()
}

/// Whether `char::is_uppercase` holds of a character.
pub uninterp spec fn is_uppercase(c: char) -> bool;

/// Calls `char::is_uppercase`, which tells by the Unicode tables whether a
/// character is an uppercase letter.
#[verifier::external_body]
pub(crate) fn char_is_uppercase(c: char) -> (r: bool)
    ensures
        r == is_uppercase(c),
{
    c.is_uppercase()
}

/// What `str::to_lowercase` makes of a text.
pub uninterp spec fn lowercase(s: Seq<char>) -> Seq<char>;

/// What `str::to_uppercase` makes of a text.
pub uninterp spec fn uppercase(s: Seq<char>) -> Seq<char>;

/// Calls `str::to_lowercase`, the lowercase form by the Unicode tables,
/// which depends on the text alone.
#[verifier::external_body]
pub(crate) fn to_lowercase(s: &str) -> (r: String)
    ensures
        r@ == lowercase(s@),
{
    s.to_lowercase()
}

/// Calls `str::to_uppercase`, the uppercase form by the Unicode tables,
/// which depends on the text alone.
#[verifier::external_body]
pub(crate) fn to_uppercase(s: &str) -> (r: String)
    ensures
        r@ == uppercase(s@),
{
    s.to_uppercase()
}

/// Collects characters into a `String` with `String::from_iter`: the string
/// holds exactly the given characters, in order.
#[verifier::external_body]
pub(crate) fn string_from_chars(v: &Vec<char>) -> (s: String)
    ensures
        s@ == v@,
{
    v.iter().collect()
}

pub fn is_space_char(c: char) -> (b: bool)
    ensures
        b == is_space(c),
{
    let n: u32 = c as u32;
    (0x09 <= n && n <= 0x0D) || n == 0x20 || n == 0x85 || n == 0xA0 || n == 0x1680 || (0x2000 <= n
        && n <= 0x200A) || n == 0x2028 || n == 0x2029 || n == 0x202F || n == 0x205F || n == 0x3000
}

/// Tests whether `pat` occurs in `s` at position `i`.
pub fn chars_match_at(s: &Vec<char>, pat: &Vec<char>, i: usize) -> (b: bool)
    ensures
        b == matches_at(s@, pat@, i as int),
{
    if pat.len() > s.len() || i > s.len() - pat.len() {
        return false;
    }
    let mut k: usize = 0;
    while k < pat.len()
        invariant
            k <= pat.len(),
            i + pat.len() <= s.len(),
            forall|j: int| 0 <= j < k ==> s@[i + j] == pat@[j],
        decreases pat.len() - k,
    {
        if s[i + k] != pat[k] {
            assert(s@.subrange(i as int, i + pat.len())[k as int] == s@[i + k]);
            return false;
        }
        k += 1;
    }
    assert(s@.subrange(i as int, i + pat.len()) =~= pat@);
    true
}

/// Finds the first occurrence of `pat` in `s` at or after `from`.
pub fn chars_find_from(s: &Vec<char>, pat: &Vec<char>, from: usize) -> (r: Option<usize>)
    ensures
        match r {
            Some(i) => find_from(s@, pat@, from as int) == Some(i as int) && from <= i && i
                + pat.len() <= s.len(),
            None => find_from(s@, pat@, from as int) is None,
        },
{
    if pat.len() > s.len() {
        return None;
    }
    let last: usize = s.len() - pat.len();
    if from > last {
        return None;
    }
    let mut i: usize = from;
    loop
        invariant
            from <= i <= last,
            last == s.len() - pat.len(),
            find_from(s@, pat@, from as int) == find_from(s@, pat@, i as int),
        decreases last - i,
    {
        if chars_match_at(s, pat, i) {
            return Some(i);
        }
        if i == last {
            assert(find_from(s@, pat@, i + 1) is None);
            return None;
        }
        i += 1;
    }
}

/// Finds the last occurrence of `pat` in `s`.
pub fn chars_rfind(s: &Vec<char>, pat: &Vec<char>) -> (r: Option<usize>)
    ensures
        match r {
            Some(i) => rfind(s@, pat@) == Some(i as int) && i + pat.len() <= s.len(),
            None => rfind(s@, pat@) is None,
        },
{
    if pat.len() > s.len() {
        return None;
    }
    let mut i: usize = s.len() - pat.len();
    loop
        invariant
            i + pat.len() <= s.len(),
            rfind(s@, pat@) == rfind_from(s@, pat@, i as int),
        decreases i,
    {
        if chars_match_at(s, pat, i) {
            return Some(i);
        }
        if i == 0 {
            assert(rfind_from(s@, pat@, -1) is None);
            return None;
        }
        i -= 1;
    }
}

/// Copies `s[lo..hi]`.
pub fn chars_slice(s: &Vec<char>, lo: usize, hi: usize) -> (r: Vec<char>)
    requires
        lo <= hi <= s.len(),
    ensures
        r@ == s@.subrange(lo as int, hi as int),
{
    let mut r: Vec<char> = Vec::new();
    let mut i: usize = lo;
    while i < hi
        invariant
            lo <= i <= hi <= s.len(),
            r@ == s@.subrange(lo as int, i as int),
        decreases hi - i,
    {
        r.push(s[i]);
        i += 1;
        assert(r@ =~= s@.subrange(lo as int, i as int));
    }
    r
}

/// Appends all of `src` to `dst`.
pub fn chars_extend(dst: &mut Vec<char>, src: &Vec<char>)
    ensures
        final(dst)@ == old(dst)@ + src@,
{
    let mut i: usize = 0;
    while i < src.len()
        invariant
            i <= src.len(),
            dst@ == old(dst)@ + src@.subrange(0, i as int),
        decreases src.len() - i,
    {
        dst.push(src[i]);
        i += 1;
        assert(dst@ =~= old(dst)@ + src@.subrange(0, i as int));
    }
    assert(src@.subrange(0, src.len() as int) =~= src@);
}

pub fn is_name_character(c: char) -> (b: bool)
    ensures
        b == is_name_char(c),
{
    ('a' <= c && c <= 'z') || ('A' <= c && c <= 'Z') || ('0' <= c && c <= '9') || c == '_' || c == '$'
}

/// Replacement of whole names on character vectors.
pub fn chars_replace_whole(s: &Vec<char>, pat: &Vec<char>, to: &Vec<char>) -> (r: Vec<char>)
    ensures
        r@ == replace_whole(s@, pat@, to@),
{
    let mut out: Vec<char> = Vec::new();
    let mut i: usize = 0;
    while i < s.len()
        invariant
            i <= s.len(),
            out@ + replace_whole_from(s@, pat@, to@, i as int) == replace_whole_from(s@, pat@, to@, 0),
        decreases s.len() - i,
    {
        let ghost before = out@;
        let whole = pat.len() > 0 && chars_match_at(s, pat, i) && !(i + pat.len() < s.len()
            && is_name_character(s[i + pat.len()]));
        if whole {
            chars_extend(&mut out, to);
            assert(out@ + replace_whole_from(s@, pat@, to@, i + pat.len()) =~= before + (to@
                + replace_whole_from(s@, pat@, to@, i + pat.len())));
            i += pat.len();
        } else {
            out.push(s[i]);
            assert(out@ + replace_whole_from(s@, pat@, to@, i + 1) =~= before + (seq![s@[i as int]]
                + replace_whole_from(s@, pat@, to@, i + 1)));
            i += 1;
        }
    }
    assert(out@ + Seq::<char>::empty() =~= out@);
    out
}

/// Literal replacement on character vectors.
pub fn chars_replace(s: &Vec<char>, pat: &Vec<char>, to: &Vec<char>) -> (r: Vec<char>)
    ensures
        r@ == replace(s@, pat@, to@),
{
    let mut out: Vec<char> = Vec::new();
    let mut i: usize = 0;
    if pat.len() == 0 {
        while i < s.len()
            invariant
                i <= s.len(),
                out@ + intersperse_from(s@, to@, i as int) == intersperse_from(s@, to@, 0),
            decreases s.len() - i,
        {
            let ghost before = out@;
            chars_extend(&mut out, to);
            out.push(s[i]);
            assert(out@ + intersperse_from(s@, to@, i + 1) =~= before + (to@ + seq![s@[i as int]]
                + intersperse_from(s@, to@, i + 1)));
            i += 1;
        }
        chars_extend(&mut out, to);
        return out;
    }
    while i < s.len()
        invariant
            i <= s.len(),
            pat.len() > 0,
            out@ + replace_from(s@, pat@, to@, i as int) == replace_from(s@, pat@, to@, 0),
        decreases s.len() - i,
    {
        let ghost before = out@;
        if chars_match_at(s, pat, i) {
            chars_extend(&mut out, to);
            assert(out@ + replace_from(s@, pat@, to@, i + pat.len()) =~= before + (to@
                + replace_from(s@, pat@, to@, i + pat.len())));
            i += pat.len();
        } else {
            out.push(s[i]);
            assert(out@ + replace_from(s@, pat@, to@, i + 1) =~= before + (seq![s@[i as int]]
                + replace_from(s@, pat@, to@, i + 1)));
            i += 1;
        }
    }
    assert(out@ + Seq::<char>::empty() =~= out@);
    out
}

/// Pushes `x`, stated over deep views.
pub fn push_deep<T: DeepView>(v: &mut Vec<T>, x: T)
    ensures
        final(v).deep_view() == old(v).deep_view().push(x.deep_view()),
        final(v)@ == old(v)@.push(x),
{
    v.push(x);
    assert(v.deep_view() =~= old(v).deep_view().push(x.deep_view()));
}

pub fn strips_char(which: Strip, c: char) -> (b: bool)
    ensures
        b == strips(which, c),
{
    match which {
        Strip::Space => is_space_char(c),
        Strip::Is(d) => c == d,
        Strip::Quote => c == '\'' || c == '"',
        Strip::AnyQuote => c == '\'' || c == '"' || c == '`',
    }
}

pub fn chars_skip_start(s: &Vec<char>, which: Strip) -> (lo: usize)
    ensures
        lo == skip_start(s@, which, 0),
        lo <= s.len(),
{
    let mut i: usize = 0;
    while i < s.len() && strips_char(which, s[i])
        invariant
            i <= s.len(),
            skip_start(s@, which, 0) == skip_start(s@, which, i as int),
        decreases s.len() - i,
    {
        i += 1;
    }
    i
}

pub fn chars_skip_end(s: &Vec<char>, which: Strip, lo: usize) -> (hi: usize)
    requires
        lo <= s.len(),
    ensures
        hi == skip_end(s@, which, lo as int, s.len() as int),
        lo <= hi <= s.len(),
{
    let mut h: usize = s.len();
    while h > lo && strips_char(which, s[h - 1])
        invariant
            lo <= h <= s.len(),
            skip_end(s@, which, lo as int, s.len() as int) == skip_end(s@, which, lo as int, h as int),
        decreases h - lo,
    {
        h -= 1;
    }
    h
}

pub fn chars_next_char(s: &Vec<char>, c: char, start: usize) -> (e: usize)
    requires
        start <= s.len(),
    ensures
        e == next_char(s@, c, start as int),
        start <= e <= s.len(),
{
    let mut i: usize = start;
    while i < s.len() && s[i] != c
        invariant
            start <= i <= s.len(),
            next_char(s@, c, start as int) == next_char(s@, c, i as int),
        decreases s.len() - i,
    {
        i += 1;
    }
    i
}

pub fn chars_less(a: &Vec<char>, b: &Vec<char>) -> (r: bool)
    ensures
        r == less(a@, b@),
{
    let mut i: usize = 0;
    loop
        invariant
            i <= a.len(),
            less(a@, b@) == less_from(a@, b@, i as int),
        decreases a.len() - i,
    {
        if i >= b.len() {
            return false;
        }
        if i >= a.len() {
            return true;
        }
        if a[i] != b[i] {
            let x: u32 = a[i] as u32;
            let y: u32 = b[i] as u32;
            return x < y;
        }
        i += 1;
    }
}

} // verus!
