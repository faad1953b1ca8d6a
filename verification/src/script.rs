//! The line-oriented pass over a script: import statements and the
//! statements that stand between them and the exported object.

use crate::model::{ImportInfo, ImportItem, ImportItemModel, ImportModel, ScriptFacts, ScriptParsingState};
use crate::strs::{
    concat2, concat3, owned, str_contains, str_find, str_join, str_len, str_lines, str_slice, str_split,
    str_starts_with, str_strip_prefix, str_trim, str_trim_matches,
};
use crate::text;
use crate::text::{chars_slice, push_deep, string_from_chars, to_chars};
use vstd::prelude::*;

verus! {

/// An import path with the legacy alias `~/` turned into `@/`.
pub open spec fn rewritten_path(path: Seq<char>) -> Seq<char> {
    match text::strip_prefix(path, "~/"@) {
        Some(rest) => "@/"@ + rest,
        None => path,
    }
}

/// Rewrites an import path to the standard alias.
pub fn rewrite_import_path(path: &str) -> (r: String)
    ensures
        r@ == rewritten_path(path@),
{
    match str_strip_prefix(path, "~/") {
        Some(rest) => concat2("@/", rest.as_str()),
        None => owned(path),
    }
}

/// `s` without the quotes around it, when it has the same quote at both ends.
pub open spec fn unquoted(s: Seq<char>) -> Seq<char> {
    if s.len() >= 2 && ((s[0] == '\'' && s.last() == '\'') || (s[0] == '"' && s.last() == '"')) {
        s.subrange(1, s.len() - 1)
    } else {
        s
    }
}

pub fn unquote(s: &str) -> (r: String)
    ensures
        r@ == unquoted(s@),
{
    let v = to_chars(s);
    let n = v.len();
    if n >= 2 && ((v[0] == '\'' && v[n - 1] == '\'') || (v[0] == '"' && v[n - 1] == '"')) {
        let inner = chars_slice(&v, 1, n - 1);
        string_from_chars(&inner)
    } else {
        owned(s)
    }
}

/// Whether `s` has at least two characters, the first `open` and the last
/// `close`.
pub open spec fn is_wrapped(s: Seq<char>, open: char, close: char) -> bool {
    s.len() >= 2 && s[0] == open && s.last() == close
}

/// `s` without its first and last character.
pub open spec fn inner(s: Seq<char>) -> Seq<char> {
    if s.len() >= 2 {
        s.subrange(1, s.len() - 1)
    } else {
        s
    }
}

pub fn wrapped_in(s: &str, open: char, close: char) -> (r: bool)
    ensures
        r == is_wrapped(s@, open, close),
{
    let v = to_chars(s);
    let n = v.len();
    n >= 2 && v[0] == open && v[n - 1] == close
}

pub fn inner_of(s: &str) -> (r: String)
    ensures
        r@ == inner(s@),
{
    let n = str_len(s);
    if n >= 2 {
        str_slice(s, 1, n - 1)
    } else {
        owned(s)
    }
}

/// One item of a brace list of imports.
pub open spec fn named_item(item: Seq<char>) -> ImportItemModel {
    match text::find(item, " as "@) {
        Some(at) => ImportItemModel {
            name: text::trim(item.subrange(0, at)),
            alias: Some(text::trim(item.subrange(at + 4, item.len() as int))),
            is_default: false,
            is_namespace: false,
        },
        None => ImportItemModel { name: item, alias: None, is_default: false, is_namespace: false },
    }
}

/// The items that the pieces of a brace list from index `i` on add to `acc`;
/// a piece that is blank adds nothing.
pub open spec fn named_items_from(pieces: Seq<Seq<char>>, i: int, acc: Seq<ImportItemModel>) -> Seq<
    ImportItemModel,
>
    decreases pieces.len() - i,
{
    if i < 0 || i >= pieces.len() {
        acc
    } else {
        let item = text::trim(pieces[i]);
        if item.len() == 0 {
            named_items_from(pieces, i + 1, acc)
        } else {
            named_items_from(pieces, i + 1, acc.push(named_item(item)))
        }
    }
}

/// The names that the part of an import statement between `import` and
/// `from` brings in.
pub open spec fn import_items(content: Seq<char>) -> Seq<ImportItemModel> {
    if is_wrapped(content, '{', '}') {
        named_items_from(text::split(inner(content), ','), 0, Seq::empty())
    } else if text::starts_with(content, "* as "@) {
        seq![
            ImportItemModel {
                name: text::trim(content.subrange(5, content.len() as int)),
                alias: None,
                is_default: false,
                is_namespace: true,
            },
        ]
    } else {
        seq![ImportItemModel { name: content, alias: None, is_default: true, is_namespace: false }]
    }
}

/// The part of an import statement before ` from `, without the word
/// `import`.
pub open spec fn import_content(import_part: Seq<char>) -> Seq<char> {
    match text::strip_prefix(import_part, "import"@) {
        Some(rest) => text::trim(rest),
        None => text::trim(import_part),
    }
}

/// What an import statement on one line says, when the line has a ` from `.
pub open spec fn import_of_line(line: Seq<char>) -> Option<ImportModel> {
    match text::find(line, " from "@) {
        None => None,
        Some(at) => {
            let import_part = text::trim(line.subrange(0, at));
            let source_part = text::trim(line.subrange(at + 6, line.len() as int));
            let source = unquoted(text::trim(text::trim_matches(source_part, ';')));
            Some(
                ImportModel {
                    source: rewritten_path(source),
                    imports: import_items(import_content(import_part)),
                },
            )
        },
    }
}

fn parse_named_item(item: &str) -> (r: ImportItem)
    ensures
        r.deep_view() == named_item(item@),
{
    proof {
        reveal_strlit(" as ");
    }
    match str_find(item, " as ") {
        Some(at) => {
            let n = str_len(item);
            let name = str_trim(str_slice(item, 0, at).as_str());
            let alias = str_trim(str_slice(item, at + 4, n).as_str());
            ImportItem { name, alias: Some(alias), is_default: false, is_namespace: false }
        },
        None => ImportItem { name: owned(item), alias: None, is_default: false, is_namespace: false },
    }
}

fn parse_import_items(content: &str) -> (r: Vec<ImportItem>)
    ensures
        r.deep_view() == import_items(content@),
{
    let mut items: Vec<ImportItem> = Vec::new();
    assert(items.deep_view() =~= Seq::empty());
    if wrapped_in(content, '{', '}') {
        let named = inner_of(content);
        let pieces = str_split(named.as_str(), ',');
        let mut i: usize = 0;
        while i < pieces.len()
            invariant
                i <= pieces.len(),
                named_items_from(pieces.deep_view(), 0, Seq::empty()) == named_items_from(
                    pieces.deep_view(),
                    i as int,
                    items.deep_view(),
                ),
            decreases pieces.len() - i,
        {
            let item = str_trim(pieces[i].as_str());
            assert(pieces.deep_view()[i as int] == pieces@[i as int]@);
            if str_len(item.as_str()) > 0 {
                push_deep(&mut items, parse_named_item(item.as_str()));
            }
            i += 1;
        }
        items
    } else if str_starts_with(content, "* as ") {
        proof {
            reveal_strlit("* as ");
        }
        let n = str_len(content);
        let name = str_trim(str_slice(content, 5, n).as_str());
        push_deep(&mut items, ImportItem { name, alias: None, is_default: false, is_namespace: true });
        assert(items.deep_view() =~= import_items(content@));
        items
    } else {
        push_deep(
            &mut items,
            ImportItem { name: owned(content), alias: None, is_default: true, is_namespace: false },
        );
        assert(items.deep_view() =~= import_items(content@));
        items
    }
}

/// Reads one import statement, given as a single line.
pub fn parse_import_line(line: &str) -> (r: Option<ImportInfo>)
    ensures
        r.deep_view() == import_of_line(line@),
{
    proof {
        reveal_strlit(" from ");
    }
    match str_find(line, " from ") {
        None => None,
        Some(at) => {
            let n = str_len(line);
            let import_part = str_trim(str_slice(line, 0, at).as_str());
            let source_part = str_trim(str_slice(line, at + 6, n).as_str());
            let bare = str_trim(str_trim_matches(source_part.as_str(), ';').as_str());
            let source = unquote(bare.as_str());
            let content = match str_strip_prefix(import_part.as_str(), "import") {
                Some(rest) => str_trim(rest.as_str()),
                None => str_trim(import_part.as_str()),
            };
            let imports = parse_import_items(content.as_str());
            Some(ImportInfo { source: rewrite_import_path(source.as_str()), imports })
        },
    }
}

/// Where the line pass stands between two lines.
pub struct PrepassState {
    /// The imports read so far.
    pub imports: Seq<ImportModel>,
    /// The setup lines kept so far.
    pub setup_lines: Seq<Seq<char>>,
    /// The import statement being gathered over several lines.
    pub pending: Seq<char>,
    /// Whether an import statement is being gathered.
    pub gathering: bool,
    /// Whether the start of the exported object was reached.
    pub done: bool,
}

/// `imports` with the import that `line` states, if it states one.
pub open spec fn with_import(imports: Seq<ImportModel>, line: Seq<char>) -> Seq<ImportModel> {
    match import_of_line(line) {
        Some(info) => imports.push(info),
        None => imports,
    }
}

/// The line pass takes one line.
pub open spec fn prepass_step(st: PrepassState, line: Seq<char>) -> PrepassState {
    let trimmed = text::trim(line);
    if text::starts_with(trimmed, "import "@) {
        if text::contains(trimmed, " from "@) {
            PrepassState { imports: with_import(st.imports, trimmed), ..st }
        } else {
            PrepassState { pending: trimmed, gathering: true, ..st }
        }
    } else if st.gathering {
        let pending = st.pending + " "@ + trimmed;
        if text::contains(trimmed, " from "@) {
            PrepassState {
                imports: with_import(st.imports, pending),
                pending: Seq::empty(),
                gathering: false,
                ..st
            }
        } else {
            PrepassState { pending, ..st }
        }
    } else if text::starts_with(trimmed, "export default"@) {
        PrepassState { done: true, ..st }
    } else if trimmed.len() > 0 && !text::starts_with(trimmed, "//"@) && !text::starts_with(
        trimmed,
        "/*"@,
    ) {
        PrepassState { setup_lines: st.setup_lines.push(line), ..st }
    } else {
        st
    }
}

/// The line pass over the lines from index `i` on; it stops at the start of
/// the exported object.
pub open spec fn prepass_from(lines: Seq<Seq<char>>, i: int, st: PrepassState) -> PrepassState
    decreases lines.len() - i,
{
    if i < 0 || i >= lines.len() || st.done {
        st
    } else {
        prepass_from(lines, i + 1, prepass_step(st, lines[i]))
    }
}

/// The line pass over a whole script, starting with the imports already
/// known.
pub open spec fn prepass(script: Seq<char>, imports: Seq<ImportModel>) -> PrepassState {
    prepass_from(
        text::lines(script),
        0,
        PrepassState {
            imports,
            setup_lines: Seq::empty(),
            pending: Seq::empty(),
            gathering: false,
            done: false,
        },
    )
}

/// The facts after the line pass: the imports that the script states are
/// appended, and the setup content is set when there is any.
pub open spec fn after_prepass(script: Seq<char>, facts: ScriptFacts) -> ScriptFacts {
    let end = prepass(script, facts.imports);
    ScriptFacts {
        imports: end.imports,
        setup_content: if end.setup_lines.len() > 0 {
            Some(text::join(end.setup_lines, "\n"@))
        } else {
            facts.setup_content
        },
        ..facts
    }
}

fn push_import(imports: &mut Vec<ImportInfo>, line: &str)
    ensures
        final(imports).deep_view() == with_import(old(imports).deep_view(), line@),
{
    match parse_import_line(line) {
        Some(info) => {
            push_deep(imports, info);
        },
        None => {},
    }
}

/// Reads the import statements of a script and keeps the statements that
/// stand between them and the exported object.
pub fn extract_imports_and_setup(script_content: &str, state: &mut ScriptParsingState)
    ensures
        final(state).deep_view() == after_prepass(script_content@, old(state).deep_view()),
{
    let lines = str_lines(script_content);
    let mut setup_lines: Vec<String> = Vec::new();
    let mut pending = String::new();
    let mut gathering = false;
    let mut i: usize = 0;
    let ghost start = PrepassState {
        imports: old(state).deep_view().imports,
        setup_lines: Seq::empty(),
        pending: Seq::empty(),
        gathering: false,
        done: false,
    };
    let ghost all = lines.deep_view();
    let mut done = false;
    assert(setup_lines.deep_view() =~= Seq::empty());
    while i < lines.len() && !done
        invariant
            i <= lines.len(),
            all == lines.deep_view(),
            prepass_from(all, 0, start) == prepass_from(
                all,
                i as int,
                PrepassState {
                    imports: state.deep_view().imports,
                    setup_lines: setup_lines.deep_view(),
                    pending: pending@,
                    gathering,
                    done,
                },
            ),
            state.deep_view() == (ScriptFacts { imports: state.deep_view().imports, ..old(state).deep_view() }),
        decreases lines.len() - i,
    {
        assert(all[i as int] == lines@[i as int]@);
        let line = lines[i].as_str();
        let trimmed = str_trim(line);
        if str_starts_with(trimmed.as_str(), "import ") {
            if str_contains(trimmed.as_str(), " from ") {
                push_import(&mut state.imports, trimmed.as_str());
            } else {
                pending = trimmed;
                gathering = true;
            }
        } else if gathering {
            pending = concat3(pending.as_str(), " ", trimmed.as_str());
            if str_contains(trimmed.as_str(), " from ") {
                push_import(&mut state.imports, pending.as_str());
                gathering = false;
                pending = String::new();
            }
        } else if str_starts_with(trimmed.as_str(), "export default") {
            done = true;
        } else if str_len(trimmed.as_str()) > 0 && !str_starts_with(trimmed.as_str(), "//")
            && !str_starts_with(trimmed.as_str(), "/*") {
            push_deep(&mut setup_lines, owned(line));
        }
        i += 1;
    }
    if setup_lines.len() > 0 {
        state.setup_content = Some(str_join(&setup_lines, "\n"));
    }
}

} // verus!
