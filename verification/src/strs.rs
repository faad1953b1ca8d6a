//! The text primitives of `text`, offered on `&str` and `String`.

use crate::text;
use crate::text::{chars_extend, chars_find_from, chars_match_at, chars_slice, string_from_chars, to_chars};
use vstd::prelude::*;

verus! {

pub fn str_eq(a: &str, b: &str) -> (r: bool)
    ensures
        r == (a@ == b@),
{
    let av = to_chars(a);
    let bv = to_chars(b);
    if av.len() != bv.len() {
        return false;
    }
    let r = chars_match_at(&av, &bv, 0);
    assert(av@.subrange(0, av@.len() as int) =~= av@);
    r
}

/// Whether `pat` occurs somewhere in `s`.
pub fn str_contains(s: &str, pat: &str) -> (r: bool)
    ensures
        r == text::contains(s@, pat@),
        r == exists|k: int| 0 <= k && text::matches_at(s@, pat@, k),
{
    proof {
        text::lemma_find_from_is_first(s@, pat@, 0);
    }
    let sv = to_chars(s);
    let pv = to_chars(pat);
    chars_find_from(&sv, &pv, 0).is_some()
}

pub fn str_starts_with(s: &str, pat: &str) -> (r: bool)
    ensures
        r == text::starts_with(s@, pat@),
{
    let sv = to_chars(s);
    let pv = to_chars(pat);
    chars_match_at(&sv, &pv, 0)
}

pub fn str_ends_with(s: &str, pat: &str) -> (r: bool)
    ensures
        r == text::ends_with(s@, pat@),
{
    let sv = to_chars(s);
    let pv = to_chars(pat);
    if pv.len() > sv.len() {
        return false;
    }
    chars_match_at(&sv, &pv, sv.len() - pv.len())
}

/// The character position of the first occurrence of `pat`: `pat` occurs
/// there and nowhere before; `None` when it occurs nowhere.
pub fn str_find(s: &str, pat: &str) -> (r: Option<usize>)
    ensures
        match r {
            Some(i) => text::find(s@, pat@) == Some(i as int) && i + pat@.len() <= s@.len()
                && text::matches_at(s@, pat@, i as int) && forall|k: int|
                0 <= k < i ==> !text::matches_at(s@, pat@, k),
            None => text::find(s@, pat@) is None && forall|k: int| 0 <= k ==> !text::matches_at(s@, pat@, k),
        },
{
    proof {
        text::lemma_find_from_is_first(s@, pat@, 0);
    }
    let sv = to_chars(s);
    let pv = to_chars(pat);
    chars_find_from(&sv, &pv, 0)
}

/// The character position of the first occurrence of `pat` at or after `start`.
pub fn str_find_from(s: &str, pat: &str, start: usize) -> (r: Option<usize>)
    ensures
        match r {
            Some(i) => text::find_from(s@, pat@, start as int) == Some(i as int) && start <= i && i
                + pat@.len() <= s@.len(),
            None => text::find_from(s@, pat@, start as int) is None,
        },
{
    let sv = to_chars(s);
    let pv = to_chars(pat);
    chars_find_from(&sv, &pv, start)
}

/// The character position of the last occurrence of `pat`.
pub fn str_rfind(s: &str, pat: &str) -> (r: Option<usize>)
    ensures
        match r {
            Some(i) => text::rfind(s@, pat@) == Some(i as int) && i + pat@.len() <= s@.len(),
            None => text::rfind(s@, pat@) is None,
        },
{
    let sv = to_chars(s);
    let pv = to_chars(pat);
    text::chars_rfind(&sv, &pv)
}

pub fn str_replace(s: &str, pat: &str, to: &str) -> (r: String)
    ensures
        r@ == text::replace(s@, pat@, to@),
{
    let sv = to_chars(s);
    let pv = to_chars(pat);
    let tv = to_chars(to);
    let out = text::chars_replace(&sv, &pv, &tv);
    string_from_chars(&out)
}

/// Replaces every occurrence of `pat` that ends where a name ends.
pub fn str_replace_whole(s: &str, pat: &str, to: &str) -> (r: String)
    ensures
        r@ == text::replace_whole(s@, pat@, to@),
{
    let sv = to_chars(s);
    let pv = to_chars(pat);
    let tv = to_chars(to);
    let out = text::chars_replace_whole(&sv, &pv, &tv);
    string_from_chars(&out)
}

/// The characters of `s` from position `lo` up to `hi`.
pub fn str_slice(s: &str, lo: usize, hi: usize) -> (r: String)
    requires
        lo <= hi <= s@.len(),
    ensures
        r@ == s@.subrange(lo as int, hi as int),
{
    let sv = to_chars(s);
    let out = chars_slice(&sv, lo, hi);
    string_from_chars(&out)
}

/// The number of characters of `s`.
pub fn str_len(s: &str) -> (n: usize)
    ensures
        n == s@.len(),
{
    s.unicode_len()
}

pub fn str_trim_by(s: &str, which: text::Strip) -> (r: String)
    ensures
        r@ == text::trim_by(s@, which),
{
    let sv = to_chars(s);
    let lo = text::chars_skip_start(&sv, which);
    let hi = text::chars_skip_end(&sv, which, lo);
    let out = chars_slice(&sv, lo, hi);
    string_from_chars(&out)
}

pub fn str_trim(s: &str) -> (r: String)
    ensures
        r@ == text::trim(s@),
{
    str_trim_by(s, text::Strip::Space)
}

pub fn str_trim_matches(s: &str, c: char) -> (r: String)
    ensures
        r@ == text::trim_matches(s@, c),
{
    str_trim_by(s, text::Strip::Is(c))
}

pub fn str_trim_quotes(s: &str) -> (r: String)
    ensures
        r@ == text::trim_quotes(s@),
{
    str_trim_by(s, text::Strip::Quote)
}

/// The lowercase form of `s`.
pub fn str_lowercase(s: &str) -> (r: String)
    ensures
        r@ == text::lowercase(s@),
{
    text::to_lowercase(s)
}

/// The uppercase form of `s`.
pub fn str_uppercase(s: &str) -> (r: String)
    ensures
        r@ == text::uppercase(s@),
{
    text::to_uppercase(s)
}

pub fn str_trim_end_matches(s: &str, c: char) -> (r: String)
    ensures
        r@ == text::trim_end_matches(s@, c),
{
    let sv = to_chars(s);
    let hi = text::chars_skip_end(&sv, text::Strip::Is(c), 0);
    let out = chars_slice(&sv, 0, hi);
    string_from_chars(&out)
}

pub fn str_trim_start_matches(s: &str, c: char) -> (r: String)
    ensures
        r@ == text::trim_start_matches(s@, c),
{
    let sv = to_chars(s);
    let lo = text::chars_skip_start(&sv, text::Strip::Is(c));
    let out = chars_slice(&sv, lo, sv.len());
    string_from_chars(&out)
}

pub fn str_strip_prefix(s: &str, pat: &str) -> (r: Option<String>)
    ensures
        r.deep_view() == text::strip_prefix(s@, pat@),
{
    let sv = to_chars(s);
    let pv = to_chars(pat);
    if chars_match_at(&sv, &pv, 0) {
        let out = chars_slice(&sv, pv.len(), sv.len());
        Some(string_from_chars(&out))
    } else {
        None
    }
}

pub fn str_lines(s: &str) -> (r: Vec<String>)
    ensures
        r.deep_view() == text::lines(s@),
{
    let sv = to_chars(s);
    let mut out: Vec<String> = Vec::new();
    let mut i: usize = 0;
    assert(out.deep_view() =~= Seq::<Seq<char>>::empty());
    while i < sv.len()
        invariant
            i <= sv.len(),
            out.deep_view() + text::lines_from(sv@, i as int) == text::lines_from(sv@, 0),
        decreases sv.len() - i,
    {
        let ghost before = out.deep_view();
        let e = text::chars_next_char(&sv, '\n', i);
        if e < sv.len() {
            let stop: usize = if e > i && sv[e - 1] == '\r' {
                e - 1
            } else {
                e
            };
            let piece = chars_slice(&sv, i, stop);
            assert(piece@ =~= text::strip_cr(sv@.subrange(i as int, e as int)));
            text::push_deep(&mut out, string_from_chars(&piece));
            assert(out.deep_view() + text::lines_from(sv@, e + 1) =~= before + (seq![
                text::strip_cr(sv@.subrange(i as int, e as int)),
            ] + text::lines_from(sv@, e + 1)));
            i = e + 1;
        } else {
            let piece = chars_slice(&sv, i, sv.len());
            text::push_deep(&mut out, string_from_chars(&piece));
            assert(out.deep_view() + text::lines_from(sv@, sv.len() as int) =~= before + seq![
                sv@.subrange(i as int, sv.len() as int),
            ]);
            i = sv.len();
        }
    }
    assert(out.deep_view() + Seq::<Seq<char>>::empty() =~= out.deep_view());
    out
}

pub fn str_split(s: &str, c: char) -> (r: Vec<String>)
    ensures
        r.deep_view() == text::split(s@, c),
{
    let sv = to_chars(s);
    let mut out: Vec<String> = Vec::new();
    let mut i: usize = 0;
    assert(out.deep_view() =~= Seq::<Seq<char>>::empty());
    loop
        invariant
            i <= sv.len(),
            sv@ == s@,
            out.deep_view() + text::split_from(sv@, c, i as int) == text::split_from(sv@, c, 0),
        decreases sv.len() - i,
    {
        let ghost before = out.deep_view();
        let e = text::chars_next_char(&sv, c, i);
        if e < sv.len() {
            let piece = chars_slice(&sv, i, e);
            text::push_deep(&mut out, string_from_chars(&piece));
            assert(out.deep_view() + text::split_from(sv@, c, e + 1) =~= before + (seq![
                sv@.subrange(i as int, e as int),
            ] + text::split_from(sv@, c, e + 1)));
            i = e + 1;
        } else {
            let piece = chars_slice(&sv, i, sv.len());
            text::push_deep(&mut out, string_from_chars(&piece));
            assert(text::split_from(sv@, c, i as int) =~= seq![
                sv@.subrange(i as int, sv.len() as int),
            ]);
            assert(out.deep_view() =~= before + text::split_from(sv@, c, i as int));
            return out;
        }
    }
}

pub fn str_join(items: &Vec<String>, sep: &str) -> (r: String)
    ensures
        r@ == text::join(items.deep_view(), sep@),
{
    let sepv = to_chars(sep);
    let mut out: Vec<char> = Vec::new();
    let mut i: usize = 0;
    let ghost all = items.deep_view();
    while i < items.len()
        invariant
            i <= items.len(),
            all == items.deep_view(),
            sepv@ == sep@,
            out@ + text::join_from(all, sep@, i as int) == text::join_from(all, sep@, 0),
        decreases items.len() - i,
    {
        let ghost before = out@;
        if i > 0 {
            chars_extend(&mut out, &sepv);
        }
        let item = to_chars(items[i].as_str());
        assert(item@ == all[i as int]);
        chars_extend(&mut out, &item);
        assert(out@ + text::join_from(all, sep@, i + 1) =~= before + text::join_from(
            all,
            sep@,
            i as int,
        ));
        i += 1;
    }
    assert(out@ + Seq::<char>::empty() =~= out@);
    string_from_chars(&out)
}

pub fn str_less(a: &str, b: &str) -> (r: bool)
    ensures
        r == text::less(a@, b@),
{
    let av = to_chars(a);
    let bv = to_chars(b);
    text::chars_less(&av, &bv)
}

pub fn concat2(a: &str, b: &str) -> (r: String)
    ensures
        r@ == a@ + b@,
{
    let mut r = String::new();
    r.append(a);
    r.append(b);
    assert(r@ =~= a@ + b@);
    r
}

pub fn concat3(a: &str, b: &str, c: &str) -> (r: String)
    ensures
        r@ == a@ + b@ + c@,
{
    let mut r = concat2(a, b);
    r.append(c);
    r
}

pub fn concat4(a: &str, b: &str, c: &str, d: &str) -> (r: String)
    ensures
        r@ == a@ + b@ + c@ + d@,
{
    let mut r = concat3(a, b, c);
    r.append(d);
    r
}

pub fn concat5(a: &str, b: &str, c: &str, d: &str, e: &str) -> (r: String)
    ensures
        r@ == a@ + b@ + c@ + d@ + e@,
{
    let mut r = concat4(a, b, c, d);
    r.append(e);
    r
}

pub fn concat6(a: &str, b: &str, c: &str, d: &str, e: &str, f: &str) -> (r: String)
    ensures
        r@ == a@ + b@ + c@ + d@ + e@ + f@,
{
    let mut r = concat5(a, b, c, d, e);
    r.append(f);
    r
}

pub fn concat7(a: &str, b: &str, c: &str, d: &str, e: &str, f: &str, g: &str) -> (r: String)
    ensures
        r@ == a@ + b@ + c@ + d@ + e@ + f@ + g@,
{
    let mut r = concat6(a, b, c, d, e, f);
    r.append(g);
    r
}

/// An owned copy of `s`.
pub fn owned(s: &str) -> (r: String)
    ensures
        r@ == s@,
{
    s.to_owned()
}

/// Whether some element of `v` equals `s`.
pub fn list_contains(v: &Vec<String>, s: &str) -> (r: bool)
    ensures
        r == v.deep_view().contains(s@),
{
    let mut i: usize = 0;
    while i < v.len()
        invariant
            i <= v.len(),
            forall|j: int| 0 <= j < i ==> v.deep_view()[j] != s@,
        decreases v.len() - i,
    {
        if str_eq(v[i].as_str(), s) {
            assert(v.deep_view()[i as int] == s@);
            return true;
        }
        i += 1;
    }
    false
}

/// Some element of `items` contains `pat`.
pub open spec fn any_contains(items: Seq<Seq<char>>, pat: Seq<char>) -> bool {
    exists|i: int| 0 <= i < items.len() && text::contains(#[trigger] items[i], pat)
}

pub fn list_any_contains(v: &Vec<String>, pat: &str) -> (r: bool)
    ensures
        r == any_contains(v.deep_view(), pat@),
{
    let mut i: usize = 0;
    while i < v.len()
        invariant
            i <= v.len(),
            forall|j: int| 0 <= j < i ==> !text::contains(#[trigger] v.deep_view()[j], pat@),
        decreases v.len() - i,
    {
        if str_contains(v[i].as_str(), pat) {
            assert(text::contains(v.deep_view()[i as int], pat@));
            return true;
        }
        i += 1;
    }
    false
}

/// Appends copies of all of `src` to `dst`.
pub fn extend_strings(dst: &mut Vec<String>, src: &Vec<String>)
    ensures
        final(dst).deep_view() == old(dst).deep_view() + src.deep_view(),
{
    let mut i: usize = 0;
    assert(dst.deep_view() =~= old(dst).deep_view() + src.deep_view().subrange(0, 0));
    while i < src.len()
        invariant
            i <= src.len(),
            dst.deep_view() == old(dst).deep_view() + src.deep_view().subrange(0, i as int),
        decreases src.len() - i,
    {
        let ghost before = dst.deep_view();
        text::push_deep(dst, src[i].clone());
        i += 1;
        assert(dst.deep_view() =~= old(dst).deep_view() + src.deep_view().subrange(0, i as int));
    }
    assert(src.deep_view().subrange(0, src.len() as int) =~= src.deep_view());
}

/// A copy of a list of strings.
pub fn clone_strings(src: &Vec<String>) -> (r: Vec<String>)
    ensures
        r.deep_view() == src.deep_view(),
{
    let mut r: Vec<String> = Vec::new();
    assert(r.deep_view() =~= Seq::<Seq<char>>::empty());
    extend_strings(&mut r, src);
    assert(r.deep_view() =~= src.deep_view());
    r
}

} // verus!
