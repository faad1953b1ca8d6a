//! The unit for imports that the configuration renames, and for component
//! tags that it pairs with an import or with another tag.

use super::Transformer;
use crate::imports::{sort_names, sorted_names};
use crate::model::{
    AdditionalImportModel, ContextModel, DirectiveModel, ImportInfo, ImportItemModel, ImportModel,
    ImportRewrite, ImportRewriteModel, ReplacementModel, ResultModel, TemplateReplacement,
    TransformationContext, TransformationResult, TransformerConfig, TransformerConfigModel,
};
use crate::result::{empty_result, find_key, key_index};
use crate::strs::{concat2, concat3, concat5, owned, str_contains, str_join, str_lowercase};
use crate::text;
use crate::text::{char_is_uppercase, push_deep, string_from_chars, to_chars};
use vstd::prelude::*;

verus! {

/// The unit that renames imports and component tags.
#[derive(Debug, Clone, Copy)]
pub struct ImportRewriteTransformer;

/// The lowercase form of one character: the first character of what the
/// lowercase mapping gives.
pub open spec fn lower_char(c: char) -> char {
    let lowered = text::lowercase(seq![c]);
    if lowered.len() > 0 {
        lowered[0]
    } else {
        c
    }
}

/// The characters from index `i` on in kebab case, appended to `acc`: every
/// uppercase letter but the first character starts a new word.
pub open spec fn kebab_from(s: Seq<char>, i: int, acc: Seq<char>) -> Seq<char>
    decreases s.len() - i,
{
    if i < 0 || i >= s.len() {
        acc
    } else if i > 0 && text::is_uppercase(s[i]) {
        kebab_from(s, i + 1, acc.push('-').push(lower_char(s[i])))
    } else {
        kebab_from(s, i + 1, acc.push(lower_char(s[i])))
    }
}

/// A name in kebab case.
pub open spec fn kebab_case(s: Seq<char>) -> Seq<char> {
    kebab_from(s, 0, Seq::empty())
}

fn lower_char_of(c: char) -> (r: char)
    ensures
        r == lower_char(c),
{
    let mut one: Vec<char> = Vec::new();
    one.push(c);
    assert(one@ =~= seq![c]);
    let lowered = to_chars(str_lowercase(string_from_chars(&one).as_str()).as_str());
    if lowered.len() > 0 {
        lowered[0]
    } else {
        c
    }
}

/// Turns a name into kebab case.
pub fn to_kebab_case(s: &str) -> (r: String)
    ensures
        r@ == kebab_case(s@),
{
    let chars = to_chars(s);
    let mut out: Vec<char> = Vec::new();
    let mut i: usize = 0;
    while i < chars.len()
        invariant
            i <= chars.len(),
            kebab_from(chars@, 0, Seq::empty()) == kebab_from(chars@, i as int, out@),
        decreases chars.len() - i,
    {
        if i > 0 && char_is_uppercase(chars[i]) {
            out.push('-');
        }
        out.push(lower_char_of(chars[i]));
        i += 1;
    }
    string_from_chars(&out)
}

/// Whether the template uses the tag of a component, as written or in
/// lower case.
pub open spec fn template_uses_tag(template: Seq<char>, component: Seq<char>) -> bool {
    text::contains(template, "<"@ + text::lowercase(component)) || text::contains(template, "<"@ + component)
}

pub open spec fn any_renamed_import_from(
    imports: Seq<ImportModel>,
    table: Seq<(Seq<char>, ImportRewriteModel)>,
    i: int,
) -> bool
    decreases imports.len() - i,
{
    if i < 0 || i >= imports.len() {
        false
    } else {
        key_index(table, imports[i].source, 0) < table.len() || any_renamed_import_from(imports, table, i + 1)
    }
}

pub open spec fn any_tagged_directive_from(
    directives: Seq<DirectiveModel>,
    table: Seq<(Seq<char>, AdditionalImportModel)>,
    i: int,
) -> bool
    decreases directives.len() - i,
{
    if i < 0 || i >= directives.len() {
        false
    } else {
        key_index(table, directives[i].element_tag, 0) < table.len() || any_tagged_directive_from(
            directives,
            table,
            i + 1,
        )
    }
}

pub open spec fn any_used_tag_from(template: Seq<char>, table: Seq<(Seq<char>, AdditionalImportModel)>, i: int) -> bool
    decreases table.len() - i,
{
    if i < 0 || i >= table.len() {
        false
    } else {
        template_uses_tag(template, table[i].0) || any_used_tag_from(template, table, i + 1)
    }
}

/// Whether the script imports from a renamed source.
pub open spec fn has_renamed_import(context: ContextModel, config: TransformerConfigModel) -> bool {
    match config.imports_rewrite {
        Some(table) => any_renamed_import_from(context.script.imports, table, 0),
        None => false,
    }
}

/// Whether the template uses a component that the configuration knows.
pub open spec fn has_known_component(context: ContextModel, config: TransformerConfigModel) -> bool {
    match config.additional_imports {
        Some(table) => any_tagged_directive_from(context.template.vue_directives, table, 0) || (match context.sections.template_content {
            Some(template) => any_used_tag_from(template, table, 0),
            None => false,
        }),
        None => false,
    }
}

pub open spec fn applies(context: ContextModel, config: TransformerConfigModel) -> bool {
    has_renamed_import(context, config) || has_known_component(context, config)
}

/// The name under which a member is imported from the new source.
pub open spec fn renamed_member(rewrite: ImportRewriteModel, name: Seq<char>) -> Seq<char> {
    match rewrite.component_rewrite {
        Some(table) => {
            let i = key_index(table, name, 0);
            if 0 <= i < table.len() {
                table[i].1
            } else {
                name
            }
        },
        None => name,
    }
}

/// The renamed members for the named imports from index `i` on, appended.
pub open spec fn members_from(
    rewrite: ImportRewriteModel,
    items: Seq<ImportItemModel>,
    i: int,
    acc: Seq<Seq<char>>,
) -> Seq<Seq<char>>
    decreases items.len() - i,
{
    if i < 0 || i >= items.len() {
        acc
    } else if !items[i].is_default && !items[i].is_namespace {
        members_from(rewrite, items, i + 1, acc.push(renamed_member(rewrite, items[i].name)))
    } else {
        members_from(rewrite, items, i + 1, acc)
    }
}

/// The new names of the directives from index `i` on that the template
/// uses, appended.
pub open spec fn used_directives_from(
    template: Seq<char>,
    table: Seq<(Seq<char>, Seq<char>)>,
    i: int,
    acc: Seq<Seq<char>>,
) -> Seq<Seq<char>>
    decreases table.len() - i,
{
    if i < 0 || i >= table.len() {
        acc
    } else if text::contains(template, table[i].0) {
        used_directives_from(template, table, i + 1, acc.push(table[i].1))
    } else {
        used_directives_from(template, table, i + 1, acc)
    }
}

/// What is imported from the new source in the place of one import.
pub open spec fn renamed_items(context: ContextModel, rewrite: ImportRewriteModel, import: ImportModel) -> Seq<
    Seq<char>,
> {
    let members = members_from(rewrite, import.imports, 0, Seq::empty());
    match (rewrite.directives, context.sections.template_content) {
        (Some(table), Some(template)) => used_directives_from(template, table, 0, members),
        _ => members,
    }
}

/// The statements for the renamed imports from index `i` on, appended.
pub open spec fn renamed_imports_from(
    context: ContextModel,
    table: Seq<(Seq<char>, ImportRewriteModel)>,
    imports: Seq<ImportModel>,
    i: int,
    acc: Seq<Seq<char>>,
) -> Seq<Seq<char>>
    decreases imports.len() - i,
{
    if i < 0 || i >= imports.len() {
        acc
    } else {
        let k = key_index(table, imports[i].source, 0);
        if 0 <= k < table.len() && renamed_items(context, table[k].1, imports[i]).len() > 0 {
            renamed_imports_from(
                context,
                table,
                imports,
                i + 1,
                acc.push(
                    "import { "@ + text::join(
                        sorted_names(renamed_items(context, table[k].1, imports[i])),
                        ", "@,
                    ) + " } from '"@ + table[k].1.name + "';"@,
                ),
            )
        } else {
            renamed_imports_from(context, table, imports, i + 1, acc)
        }
    }
}

/// The import lines of the components from index `i` on that the template
/// uses, appended.
pub open spec fn component_imports_from(
    template: Seq<char>,
    table: Seq<(Seq<char>, AdditionalImportModel)>,
    i: int,
    acc: Seq<Seq<char>>,
) -> Seq<Seq<char>>
    decreases table.len() - i,
{
    if i < 0 || i >= table.len() {
        acc
    } else if template_uses_tag(template, table[i].0) && table[i].1.import_path is Some {
        component_imports_from(template, table, i + 1, acc.push(table[i].1.import_path->0))
    } else {
        component_imports_from(template, table, i + 1, acc)
    }
}

/// The import statements that the unit writes.
pub open spec fn rewritten_imports(context: ContextModel, config: TransformerConfigModel) -> Seq<Seq<char>> {
    let a = match config.imports_rewrite {
        Some(table) => renamed_imports_from(context, table, context.script.imports, 0, Seq::empty()),
        None => Seq::empty(),
    };
    match (config.additional_imports, context.sections.template_content) {
        (Some(table), Some(template)) => component_imports_from(template, table, 0, a),
        _ => a,
    }
}

/// The pairs that turn the tags of one component into those of another.
pub open spec fn tag_pairs(old: Seq<char>, new: Seq<char>, acc: Seq<ReplacementModel>) -> Seq<ReplacementModel> {
    acc.push(ReplacementModel { find: "<"@ + old, replace: "<"@ + new }).push(
        ReplacementModel { find: "</"@ + old + ">"@, replace: "</"@ + new + ">"@ },
    )
}

/// The pairs for the renamed components from index `i` on, as written and
/// in kebab case, appended.
pub open spec fn component_pairs_from(table: Seq<(Seq<char>, Seq<char>)>, i: int, acc: Seq<ReplacementModel>) -> Seq<
    ReplacementModel,
>
    decreases table.len() - i,
{
    if i < 0 || i >= table.len() {
        acc
    } else {
        component_pairs_from(
            table,
            i + 1,
            tag_pairs(
                kebab_case(table[i].0),
                kebab_case(table[i].1),
                tag_pairs(table[i].0, table[i].1, acc),
            ),
        )
    }
}

pub open spec fn import_pairs_from(
    table: Seq<(Seq<char>, ImportRewriteModel)>,
    imports: Seq<ImportModel>,
    i: int,
    acc: Seq<ReplacementModel>,
) -> Seq<ReplacementModel>
    decreases imports.len() - i,
{
    if i < 0 || i >= imports.len() {
        acc
    } else {
        let k = key_index(table, imports[i].source, 0);
        if 0 <= k < table.len() && table[k].1.component_rewrite is Some {
            import_pairs_from(
                table,
                imports,
                i + 1,
                component_pairs_from(table[k].1.component_rewrite->0, 0, acc),
            )
        } else {
            import_pairs_from(table, imports, i + 1, acc)
        }
    }
}

/// The pairs for the components from index `i` on that get another tag.
pub open spec fn retag_pairs_from(
    table: Seq<(Seq<char>, AdditionalImportModel)>,
    i: int,
    acc: Seq<ReplacementModel>,
) -> Seq<ReplacementModel>
    decreases table.len() - i,
{
    if i < 0 || i >= table.len() {
        acc
    } else if table[i].1.rewrite_to is Some {
        retag_pairs_from(table, i + 1, tag_pairs(kebab_case(table[i].0), table[i].1.rewrite_to->0, acc))
    } else {
        retag_pairs_from(table, i + 1, acc)
    }
}

/// The find and replace pairs for the template.
pub open spec fn replacements(context: ContextModel, config: TransformerConfigModel) -> Seq<ReplacementModel> {
    let a = match config.imports_rewrite {
        Some(table) => import_pairs_from(table, context.script.imports, 0, Seq::empty()),
        None => Seq::empty(),
    };
    match config.additional_imports {
        Some(table) => retag_pairs_from(table, 0, a),
        None => a,
    }
}

/// What the unit contributes.
pub open spec fn output(context: ContextModel, config: TransformerConfigModel) -> ResultModel {
    let imports = rewritten_imports(context, config);
    let r = if imports.len() > 0 {
        empty_result().with_imports("__rewritten__"@, imports)
    } else {
        empty_result()
    };
    r.with_replacements(replacements(context, config))
}

fn uses_tag(template: &str, component: &str) -> (r: bool)
    ensures
        r == template_uses_tag(template@, component@),
{
    str_contains(template, concat2("<", str_lowercase(component).as_str()).as_str()) || str_contains(
        template,
        concat2("<", component).as_str(),
    )
}

fn push_tag_pairs(out: &mut Vec<TemplateReplacement>, from: &str, to: &str)
    ensures
        final(out).deep_view() == tag_pairs(from@, to@, old(out).deep_view()),
{
    push_deep(out, TemplateReplacement { find: concat2("<", from), replace: concat2("<", to) });
    push_deep(out, TemplateReplacement { find: concat3("</", from, ">"), replace: concat3("</", to, ">") });
}

fn rename_member(rewrite: &ImportRewrite, name: &str) -> (r: String)
    ensures
        r@ == renamed_member(rewrite.deep_view(), name@),
{
    match &rewrite.component_rewrite {
        Some(table) => {
            let i = find_key(table, name);
            if i < table.len() {
                assert(table.deep_view()[i as int].1 == table@[i as int].1@);
                table[i].1.clone()
            } else {
                owned(name)
            }
        },
        None => owned(name),
    }
}

impl ImportRewriteTransformer {
    pub fn new() -> (r: Self) {
        ImportRewriteTransformer
    }

    fn renamed_import_present(context: &TransformationContext, config: &TransformerConfig) -> (r: bool)
        ensures
            r == has_renamed_import(context.deep_view(), config.deep_view()),
    {
        match &config.imports_rewrite {
            Some(table) => {
                let imports = &context.script_state.imports;
                let ghost all = imports.deep_view();
                let mut i: usize = 0;
                while i < imports.len()
                    invariant
                        i <= imports.len(),
                        all == imports.deep_view(),
                        all == context.deep_view().script.imports,
                        config.deep_view().imports_rewrite == Some(table.deep_view()),
                        any_renamed_import_from(all, table.deep_view(), 0) == any_renamed_import_from(
                            all,
                            table.deep_view(),
                            i as int,
                        ),
                    decreases imports.len() - i,
                {
                    assert(all[i as int] == imports@[i as int].deep_view());
                    if find_key(table, imports[i].source.as_str()) < table.len() {
                        return true;
                    }
                    i += 1;
                }
                false
            },
            None => false,
        }
    }

    fn known_component_present(context: &TransformationContext, config: &TransformerConfig) -> (r: bool)
        ensures
            r == has_known_component(context.deep_view(), config.deep_view()),
    {
        match &config.additional_imports {
            Some(table) => {
                let directives = &context.template_state.vue_directives;
                let ghost all = directives.deep_view();
                let mut i: usize = 0;
                while i < directives.len()
                    invariant
                        i <= directives.len(),
                        all == directives.deep_view(),
                        all == context.deep_view().template.vue_directives,
                        config.deep_view().additional_imports == Some(table.deep_view()),
                        any_tagged_directive_from(all, table.deep_view(), 0) == any_tagged_directive_from(
                            all,
                            table.deep_view(),
                            i as int,
                        ),
                    decreases directives.len() - i,
                {
                    assert(all[i as int] == directives@[i as int].deep_view());
                    if find_key(table, directives[i].element_tag.as_str()) < table.len() {
                        return true;
                    }
                    i += 1;
                }
                match &context.sfc_sections.template_content {
                    Some(template) => {
                        let ghost t = table.deep_view();
                        let mut k: usize = 0;
                        while k < table.len()
                            invariant
                                k <= table.len(),
                                t == table.deep_view(),
                                config.deep_view().additional_imports == Some(t),
                                context.deep_view().sections.template_content == Some(template@),
                                !any_tagged_directive_from(context.deep_view().template.vue_directives, t, 0),
                                any_used_tag_from(template@, t, 0) == any_used_tag_from(template@, t, k as int),
                            decreases table.len() - k,
                        {
                            assert(t[k as int].0 == table@[k as int].0@);
                            if uses_tag(template.as_str(), table[k].0.as_str()) {
                                return true;
                            }
                            k += 1;
                        }
                        false
                    },
                    None => false,
                }
            },
            None => false,
        }
    }

    /// Tells whether the unit applies.
    pub fn has_rewritable_imports(context: &TransformationContext, config: &TransformerConfig) -> (r: bool)
        ensures
            r == applies(context.deep_view(), config.deep_view()),
    {
        Self::renamed_import_present(context, config) || Self::known_component_present(context, config)
    }

    fn renamed_items_of(context: &TransformationContext, rewrite: &ImportRewrite, import: &ImportInfo) -> (r:
        Vec<String>)
        ensures
            r.deep_view() == renamed_items(context.deep_view(), rewrite.deep_view(), import.deep_view()),
    {
        let mut items: Vec<String> = Vec::new();
        assert(items.deep_view() =~= Seq::empty());
        let ghost all = import.imports.deep_view();
        let mut i: usize = 0;
        while i < import.imports.len()
            invariant
                i <= import.imports.len(),
                all == import.imports.deep_view(),
                members_from(rewrite.deep_view(), all, 0, Seq::empty()) == members_from(
                    rewrite.deep_view(),
                    all,
                    i as int,
                    items.deep_view(),
                ),
            decreases import.imports.len() - i,
        {
            let item = &import.imports[i];
            assert(all[i as int] == item.deep_view());
            if !item.is_default && !item.is_namespace {
                push_deep(&mut items, rename_member(rewrite, item.name.as_str()));
            }
            i += 1;
        }
        match (&rewrite.directives, &context.sfc_sections.template_content) {
            (Some(table), Some(template)) => {
                let ghost t = table.deep_view();
                let ghost start = items.deep_view();
                let mut k: usize = 0;
                while k < table.len()
                    invariant
                        k <= table.len(),
                        t == table.deep_view(),
                        used_directives_from(template@, t, 0, start) == used_directives_from(
                            template@,
                            t,
                            k as int,
                            items.deep_view(),
                        ),
                    decreases table.len() - k,
                {
                    assert(t[k as int] == (table@[k as int].0@, table@[k as int].1@));
                    if str_contains(template.as_str(), table[k].0.as_str()) {
                        push_deep(&mut items, table[k].1.clone());
                    }
                    k += 1;
                }
                items
            },
            _ => items,
        }
    }

    /// The import statements that the unit writes.
    pub fn generate_rewritten_imports(context: &TransformationContext, config: &TransformerConfig) -> (r: Vec<
        String,
    >)
        ensures
            r.deep_view() == rewritten_imports(context.deep_view(), config.deep_view()),
    {
        let mut out: Vec<String> = Vec::new();
        assert(out.deep_view() =~= Seq::empty());
        match &config.imports_rewrite {
            Some(table) => {
                let imports = &context.script_state.imports;
                let ghost all = imports.deep_view();
                let ghost t = table.deep_view();
                let mut i: usize = 0;
                while i < imports.len()
                    invariant
                        i <= imports.len(),
                        all == imports.deep_view(),
                        t == table.deep_view(),
                        renamed_imports_from(context.deep_view(), t, all, 0, Seq::empty())
                            == renamed_imports_from(context.deep_view(), t, all, i as int, out.deep_view()),
                    decreases imports.len() - i,
                {
                    assert(all[i as int] == imports@[i as int].deep_view());
                    let k = find_key(table, imports[i].source.as_str());
                    if k < table.len() {
                        let rewrite = &table[k].1;
                        assert(t[k as int].1 == rewrite.deep_view());
                        let items = Self::renamed_items_of(context, rewrite, &imports[i]);
                        if items.len() > 0 {
                            let list = str_join(&sort_names(&items), ", ");
                            push_deep(
                                &mut out,
                                concat5("import { ", list.as_str(), " } from '", rewrite.name.as_str(), "';"),
                            );
                        }
                    }
                    i += 1;
                }
            },
            None => {},
        }
        match (&config.additional_imports, &context.sfc_sections.template_content) {
            (Some(table), Some(template)) => {
                let ghost t = table.deep_view();
                let ghost start = out.deep_view();
                let mut k: usize = 0;
                while k < table.len()
                    invariant
                        k <= table.len(),
                        t == table.deep_view(),
                        component_imports_from(template@, t, 0, start) == component_imports_from(
                            template@,
                            t,
                            k as int,
                            out.deep_view(),
                        ),
                    decreases table.len() - k,
                {
                    assert(t[k as int] == (table@[k as int].0@, table@[k as int].1.deep_view()));
                    if uses_tag(template.as_str(), table[k].0.as_str()) {
                        match &table[k].1.import_path {
                            Some(path) => {
                                push_deep(&mut out, path.clone());
                            },
                            None => {},
                        }
                    }
                    k += 1;
                }
                out
            },
            _ => out,
        }
    }

    fn push_component_pairs(out: &mut Vec<TemplateReplacement>, table: &Vec<(String, String)>)
        ensures
            final(out).deep_view() == component_pairs_from(table.deep_view(), 0, old(out).deep_view()),
    {
        let ghost t = table.deep_view();
        let mut i: usize = 0;
        while i < table.len()
            invariant
                i <= table.len(),
                t == table.deep_view(),
                component_pairs_from(t, 0, old(out).deep_view()) == component_pairs_from(
                    t,
                    i as int,
                    out.deep_view(),
                ),
            decreases table.len() - i,
        {
            assert(t[i as int] == (table@[i as int].0@, table@[i as int].1@));
            let old_name = table[i].0.as_str();
            let new_name = table[i].1.as_str();
            push_tag_pairs(out, old_name, new_name);
            push_tag_pairs(out, to_kebab_case(old_name).as_str(), to_kebab_case(new_name).as_str());
            i += 1;
        }
    }

    /// The find and replace pairs for the template.
    pub fn generate_template_replacements(context: &TransformationContext, config: &TransformerConfig) -> (r:
        Vec<TemplateReplacement>)
        ensures
            r.deep_view() == replacements(context.deep_view(), config.deep_view()),
    {
        let mut out: Vec<TemplateReplacement> = Vec::new();
        assert(out.deep_view() =~= Seq::empty());
        match &config.imports_rewrite {
            Some(table) => {
                let imports = &context.script_state.imports;
                let ghost all = imports.deep_view();
                let ghost t = table.deep_view();
                let mut i: usize = 0;
                while i < imports.len()
                    invariant
                        i <= imports.len(),
                        all == imports.deep_view(),
                        t == table.deep_view(),
                        import_pairs_from(t, all, 0, Seq::empty()) == import_pairs_from(
                            t,
                            all,
                            i as int,
                            out.deep_view(),
                        ),
                    decreases imports.len() - i,
                {
                    assert(all[i as int] == imports@[i as int].deep_view());
                    let k = find_key(table, imports[i].source.as_str());
                    if k < table.len() {
                        assert(t[k as int].1 == table@[k as int].1.deep_view());
                        match &table[k].1.component_rewrite {
                            Some(components) => {
                                Self::push_component_pairs(&mut out, components);
                            },
                            None => {},
                        }
                    }
                    i += 1;
                }
            },
            None => {},
        }
        match &config.additional_imports {
            Some(table) => {
                let ghost t = table.deep_view();
                let ghost start = out.deep_view();
                let mut k: usize = 0;
                while k < table.len()
                    invariant
                        k <= table.len(),
                        t == table.deep_view(),
                        retag_pairs_from(t, 0, start) == retag_pairs_from(t, k as int, out.deep_view()),
                    decreases table.len() - k,
                {
                    assert(t[k as int] == (table@[k as int].0@, table@[k as int].1.deep_view()));
                    match &table[k].1.rewrite_to {
                        Some(target) => {
                            push_tag_pairs(&mut out, to_kebab_case(table[k].0.as_str()).as_str(), target.as_str());
                        },
                        None => {},
                    }
                    k += 1;
                }
                out
            },
            None => out,
        }
    }

    pub fn build(context: &TransformationContext, config: &TransformerConfig) -> (r: TransformationResult)
        ensures
            r.deep_view() == output(context.deep_view(), config.deep_view()),
    {
        let mut result = TransformationResult::new();
        let imports = Self::generate_rewritten_imports(context, config);
        if imports.len() > 0 {
            result.add_imports("__rewritten__", &imports);
        }
        result.extend_template_replacements(&Self::generate_template_replacements(context, config));
        result
    }
}

impl Default for ImportRewriteTransformer {
    fn default() -> Self {
        ImportRewriteTransformer
    }
}

impl Transformer for ImportRewriteTransformer {
    open spec fn applies(&self, context: ContextModel, config: TransformerConfigModel) -> bool {
        applies(context, config)
    }

    open spec fn output(&self, context: ContextModel, config: TransformerConfigModel) -> ResultModel {
        output(context, config)
    }

    open spec fn body_after(
        &self,
        body: Seq<char>,
        context: ContextModel,
        config: TransformerConfigModel,
    ) -> Seq<char> {
        body
    }

    open spec fn label(&self) -> Seq<char> {
        "import_rewrite"@
    }

    fn name(&self) -> &'static str {
        "import_rewrite"
    }

    fn should_transform(&self, context: &TransformationContext, config: &TransformerConfig) -> bool {
        Self::has_rewritable_imports(context, config)
    }

    fn transform(&self, context: &TransformationContext, config: &TransformerConfig) -> TransformationResult {
        Self::build(context, config)
    }

    fn transform_body(&self, body: &str, context: &TransformationContext, config: &TransformerConfig) -> String {
        owned(body)
    }
}

} // verus!
