//! The unit for mixins that the configuration pairs with composables.

use super::Transformer;
use crate::model::{
    ContextModel, ImportInfo, ImportModel, MixinConfig, MixinConfigModel, ResultModel, TransformationContext,
    TransformationResult, TransformerConfig, TransformerConfigModel,
};
use crate::result::{empty_result, find_key, key_index};
use crate::strs::{
    concat2, concat5, extend_strings, list_contains, owned, str_contains, str_eq, str_join, str_split,
    str_starts_with,
};
use crate::text;
use crate::text::push_deep;
use vstd::prelude::*;

verus! {

/// The unit that puts composables in the place of mixins.
#[derive(Debug, Clone, Copy)]
pub struct MixinTransformer;

/// Whether the source of an import holds the name of a mixin from index
/// `j` on.
pub open spec fn source_names_mixin_from(
    source: Seq<char>,
    table: Seq<(Seq<char>, MixinConfigModel)>,
    j: int,
) -> bool
    decreases table.len() - j,
{
    if j < 0 || j >= table.len() {
        false
    } else {
        text::contains(source, table[j].0) || source_names_mixin_from(source, table, j + 1)
    }
}

/// Whether an import from index `i` on names a configured mixin.
pub open spec fn any_mixin_import_from(
    imports: Seq<ImportModel>,
    table: Seq<(Seq<char>, MixinConfigModel)>,
    i: int,
) -> bool
    decreases imports.len() - i,
{
    if i < 0 || i >= imports.len() {
        false
    } else {
        source_names_mixin_from(imports[i].source, table, 0) || any_mixin_import_from(imports, table, i + 1)
    }
}

pub open spec fn applies(context: ContextModel, config: TransformerConfigModel) -> bool {
    match config.mixins {
        Some(table) => any_mixin_import_from(context.script.imports, table, 0),
        None => false,
    }
}

/// The last part of a path: what follows its last slash.
pub open spec fn last_part(path: Seq<char>) -> Seq<char> {
    let parts = text::split(path, '/');
    if parts.len() > 0 {
        parts.last()
    } else {
        path
    }
}

/// The names from index `i` on that are among `functions`, appended to
/// `acc`; with `once`, a name already there is not appended again.
pub open spec fn named_used_from(
    names: Seq<Seq<char>>,
    functions: Seq<Seq<char>>,
    once: bool,
    i: int,
    acc: Seq<Seq<char>>,
) -> Seq<Seq<char>>
    decreases names.len() - i,
{
    if i < 0 || i >= names.len() {
        acc
    } else if functions.contains(names[i]) && !(once && acc.contains(names[i])) {
        named_used_from(names, functions, once, i + 1, acc.push(names[i]))
    } else {
        named_used_from(names, functions, once, i + 1, acc)
    }
}

/// Whether a called expression is a call of `function`.
pub open spec fn calls_function(call: Seq<char>, function: Seq<char>) -> bool {
    call == function || text::starts_with(call, function + "("@)
}

/// The functions from index `j` on that `call` calls, appended once each.
pub open spec fn call_hits_from(call: Seq<char>, functions: Seq<Seq<char>>, j: int, acc: Seq<Seq<char>>) -> Seq<
    Seq<char>,
>
    decreases functions.len() - j,
{
    if j < 0 || j >= functions.len() {
        acc
    } else if calls_function(call, functions[j]) && !acc.contains(functions[j]) {
        call_hits_from(call, functions, j + 1, acc.push(functions[j]))
    } else {
        call_hits_from(call, functions, j + 1, acc)
    }
}

pub open spec fn called_used_from(
    calls: Seq<Seq<char>>,
    functions: Seq<Seq<char>>,
    i: int,
    acc: Seq<Seq<char>>,
) -> Seq<Seq<char>>
    decreases calls.len() - i,
{
    if i < 0 || i >= calls.len() {
        acc
    } else {
        called_used_from(calls, functions, i + 1, call_hits_from(calls[i], functions, 0, acc))
    }
}

/// The members of a composable that the component uses: by name in the
/// script, by call in the script, by name in the template, by call in the
/// template.
pub open spec fn used_functions(context: ContextModel, functions: Seq<Seq<char>>) -> Seq<Seq<char>> {
    let a = named_used_from(context.script.identifiers, functions, false, 0, Seq::empty());
    let b = called_used_from(context.script.function_calls, functions, 0, a);
    let c = named_used_from(context.template.identifiers, functions, true, 0, b);
    called_used_from(context.template.function_calls, functions, 0, c)
}

/// What the import of one mixin adds to the result.
pub open spec fn with_mixin(
    context: ContextModel,
    table: Seq<(Seq<char>, MixinConfigModel)>,
    import: ImportModel,
    acc: ResultModel,
) -> ResultModel {
    let i = key_index(table, last_part(import.source), 0);
    if 0 <= i < table.len() {
        let mixin = table[i].1;
        let used = used_functions(context, mixin.imports);
        if used.len() > 0 {
            let r = acc.with_import("@/composables/"@ + mixin.name, mixin.name).with_setup(
                "const { "@ + text::join(used, ", "@) + " } = "@ + mixin.name + "();"@,
            );
            ResultModel {
                resolved_identifiers: r.resolved_identifiers + used,
                skip_data_properties: r.skip_data_properties + used,
                ..r
            }
        } else {
            acc
        }
    } else {
        acc
    }
}

pub open spec fn mixins_from(
    context: ContextModel,
    table: Seq<(Seq<char>, MixinConfigModel)>,
    imports: Seq<ImportModel>,
    i: int,
    acc: ResultModel,
) -> ResultModel
    decreases imports.len() - i,
{
    if i < 0 || i >= imports.len() {
        acc
    } else {
        mixins_from(context, table, imports, i + 1, with_mixin(context, table, imports[i], acc))
    }
}

/// What the unit contributes.
pub open spec fn output(context: ContextModel, config: TransformerConfigModel) -> ResultModel {
    match config.mixins {
        Some(table) => mixins_from(context, table, context.script.imports, 0, empty_result()),
        None => empty_result(),
    }
}

fn add_named(names: &Vec<String>, functions: &Vec<String>, once: bool, out: &mut Vec<String>)
    ensures
        final(out).deep_view() == named_used_from(
            names.deep_view(),
            functions.deep_view(),
            once,
            0,
            old(out).deep_view(),
        ),
{
    let ghost all = names.deep_view();
    let mut i: usize = 0;
    while i < names.len()
        invariant
            i <= names.len(),
            all == names.deep_view(),
            named_used_from(all, functions.deep_view(), once, 0, old(out).deep_view()) == named_used_from(
                all,
                functions.deep_view(),
                once,
                i as int,
                out.deep_view(),
            ),
        decreases names.len() - i,
    {
        assert(all[i as int] == names@[i as int]@);
        let name = names[i].as_str();
        if list_contains(functions, name) && !(once && list_contains(out, name)) {
            push_deep(out, owned(name));
        }
        i += 1;
    }
}

fn add_called(calls: &Vec<String>, functions: &Vec<String>, out: &mut Vec<String>)
    ensures
        final(out).deep_view() == called_used_from(
            calls.deep_view(),
            functions.deep_view(),
            0,
            old(out).deep_view(),
        ),
{
    let ghost all = calls.deep_view();
    let ghost f = functions.deep_view();
    let mut i: usize = 0;
    while i < calls.len()
        invariant
            i <= calls.len(),
            all == calls.deep_view(),
            f == functions.deep_view(),
            called_used_from(all, f, 0, old(out).deep_view()) == called_used_from(
                all,
                f,
                i as int,
                out.deep_view(),
            ),
        decreases calls.len() - i,
    {
        assert(all[i as int] == calls@[i as int]@);
        let call = calls[i].as_str();
        let ghost start = out.deep_view();
        let mut j: usize = 0;
        while j < functions.len()
            invariant
                j <= functions.len(),
                f == functions.deep_view(),
                call_hits_from(call@, f, 0, start) == call_hits_from(call@, f, j as int, out.deep_view()),
            decreases functions.len() - j,
        {
            assert(f[j as int] == functions@[j as int]@);
            let function = functions[j].as_str();
            if (str_eq(call, function) || str_starts_with(call, concat2(function, "(").as_str()))
                && !list_contains(out, function) {
                push_deep(out, owned(function));
            }
            j += 1;
        }
        i += 1;
    }
}

impl MixinTransformer {
    pub fn new() -> (r: Self) {
        MixinTransformer
    }

    fn source_names_mixin(source: &str, table: &Vec<(String, MixinConfig)>) -> (r: bool)
        ensures
            r == source_names_mixin_from(source@, table.deep_view(), 0),
    {
        let ghost all = table.deep_view();
        let mut j: usize = 0;
        while j < table.len()
            invariant
                j <= table.len(),
                all == table.deep_view(),
                source_names_mixin_from(source@, all, 0) == source_names_mixin_from(source@, all, j as int),
            decreases table.len() - j,
        {
            assert(all[j as int].0 == table@[j as int].0@);
            if str_contains(source, table[j].0.as_str()) {
                return true;
            }
            j += 1;
        }
        false
    }

    /// Tells whether the script imports a configured mixin.
    pub fn has_mixin_usage(context: &TransformationContext, config: &TransformerConfig) -> (r: bool)
        ensures
            r == applies(context.deep_view(), config.deep_view()),
    {
        match &config.mixins {
            Some(table) => {
                let imports = &context.script_state.imports;
                let ghost all = imports.deep_view();
                let mut i: usize = 0;
                while i < imports.len()
                    invariant
                        i <= imports.len(),
                        all == imports.deep_view(),
                        all == context.deep_view().script.imports,
                        config.deep_view().mixins == Some(table.deep_view()),
                        any_mixin_import_from(all, table.deep_view(), 0) == any_mixin_import_from(
                            all,
                            table.deep_view(),
                            i as int,
                        ),
                    decreases imports.len() - i,
                {
                    assert(all[i as int] == imports@[i as int].deep_view());
                    if Self::source_names_mixin(imports[i].source.as_str(), table) {
                        return true;
                    }
                    i += 1;
                }
                false
            },
            None => false,
        }
    }

    /// The last part of an import path.
    pub fn extract_mixin_name_from_path(import_path: &str) -> (r: String)
        ensures
            r@ == last_part(import_path@),
    {
        let parts = str_split(import_path, '/');
        if parts.len() > 0 {
            assert(parts.deep_view().last() == parts@[parts.len() - 1]@);
            parts[parts.len() - 1].clone()
        } else {
            owned(import_path)
        }
    }

    /// The members of a composable that the component uses.
    pub fn find_used_mixin_functions(context: &TransformationContext, mixin_functions: &Vec<String>) -> (r:
        Vec<String>)
        ensures
            r.deep_view() == used_functions(context.deep_view(), mixin_functions.deep_view()),
    {
        let mut used: Vec<String> = Vec::new();
        assert(used.deep_view() =~= Seq::empty());
        add_named(&context.script_state.identifiers, mixin_functions, false, &mut used);
        add_called(&context.script_state.function_calls, mixin_functions, &mut used);
        add_named(&context.template_state.identifiers, mixin_functions, true, &mut used);
        add_called(&context.template_state.function_calls, mixin_functions, &mut used);
        used
    }

    fn add_mixin(
        context: &TransformationContext,
        table: &Vec<(String, MixinConfig)>,
        import: &ImportInfo,
        result: &mut TransformationResult,
    )
        ensures
            final(result).deep_view() == with_mixin(
                context.deep_view(),
                table.deep_view(),
                import.deep_view(),
                old(result).deep_view(),
            ),
    {
        let name = Self::extract_mixin_name_from_path(import.source.as_str());
        let i = find_key(table, name.as_str());
        if i < table.len() {
            let mixin = &table[i].1;
            assert(table.deep_view()[i as int].1 == mixin.deep_view());
            let used = Self::find_used_mixin_functions(context, &mixin.imports);
            if used.len() > 0 {
                result.add_import(concat2("@/composables/", mixin.name.as_str()).as_str(), mixin.name.as_str());
                result.add_setup(
                    concat5("const { ", str_join(&used, ", ").as_str(), " } = ", mixin.name.as_str(), "();"),
                );
                extend_strings(&mut result.resolved_identifiers, &used);
                extend_strings(&mut result.skip_data_properties, &used);
            }
        }
    }

    pub fn build(context: &TransformationContext, config: &TransformerConfig) -> (r: TransformationResult)
        ensures
            r.deep_view() == output(context.deep_view(), config.deep_view()),
    {
        let mut result = TransformationResult::new();
        match &config.mixins {
            Some(table) => {
                let imports = &context.script_state.imports;
                let ghost all = imports.deep_view();
                let mut i: usize = 0;
                while i < imports.len()
                    invariant
                        i <= imports.len(),
                        all == imports.deep_view(),
                        mixins_from(context.deep_view(), table.deep_view(), all, 0, empty_result())
                            == mixins_from(
                            context.deep_view(),
                            table.deep_view(),
                            all,
                            i as int,
                            result.deep_view(),
                        ),
                    decreases imports.len() - i,
                {
                    assert(all[i as int] == imports@[i as int].deep_view());
                    Self::add_mixin(context, table, &imports[i], &mut result);
                    i += 1;
                }
                result
            },
            None => result,
        }
    }
}

impl Default for MixinTransformer {
    fn default() -> Self {
        MixinTransformer
    }
}

impl Transformer for MixinTransformer {
    open spec fn applies(&self, context: ContextModel, config: TransformerConfigModel) -> bool {
        applies(context, config)
    }

    open spec fn output(&self, context: ContextModel, config: TransformerConfigModel) -> ResultModel {
        output(context, config)
    }

    open spec fn body_after(
        &self,
        body: Seq<char>,
        context: ContextModel,
        config: TransformerConfigModel,
    ) -> Seq<char> {
        body
    }

    open spec fn label(&self) -> Seq<char> {
        "mixin"@
    }

    fn name(&self) -> &'static str {
        "mixin"
    }

    fn should_transform(&self, context: &TransformationContext, config: &TransformerConfig) -> bool {
        Self::has_mixin_usage(context, config)
    }

    fn transform(&self, context: &TransformationContext, config: &TransformerConfig) -> TransformationResult {
        Self::build(context, config)
    }

    fn transform_body(&self, body: &str, context: &TransformationContext, config: &TransformerConfig) -> String {
        owned(body)
    }
}

} // verus!
