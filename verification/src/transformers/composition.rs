//! The unit that turns the object-based declarations of a component into
//! their function-based form: props, data, computed properties, methods
//! and watchers.

use super::{body_rewritten, transform_body_text, Transformer};
use crate::model::{
    ComputedDetail, ComputedModel, ContextModel, DataPropertyModel, ImportInfo, ImportItem, ImportItemModel,
    ImportModel, MethodModel, PropModel, ResultModel, TransformationContext, TransformationResult,
    TransformerConfig, TransformerConfigModel, WatcherModel,
};
use crate::patterns::{pattern_found, pattern_matches, pattern_replace, replaced};
use crate::result::{assign, empty_result, table_assign, RefTable};
use crate::strs::{
    concat2, concat3, concat4, concat5, concat6, concat7, owned, str_contains, str_eq, str_join, str_len,
    str_lines, str_starts_with, str_trim,
};
use crate::text;
use crate::text::push_deep;
use vstd::prelude::*;

verus! {

/// The unit for the declarations of the component itself.
#[derive(Debug, Clone, Copy)]
pub struct CompositionTransformer;

/// A statement that declares a component loaded on demand.
pub const ASYNC_COMPONENT_DETECTION_PATTERN: &'static str =
    "const\\s+\\w+\\s*=\\s*\\(\\s*\\)\\s*=>\\s*import\\s*\\(";

/// The same statement with its name and its import path captured.
pub const ASYNC_COMPONENT_TRANSFORM_PATTERN: &'static str =
    "(?s)const\\s+(\\w+)\\s*=\\s*\\(\\s*\\)\\s*=>\\s*import\\s*\\(([^)]+)\\)";

/// Whether the unit applies: the script declares something or has setup
/// content.
pub open spec fn applies(context: ContextModel) -> bool {
    let s = context.script;
    s.props.len() > 0 || s.data_properties.len() > 0 || s.computed_details.len() > 0 || s.methods.len()
        > 0 || s.method_details.len() > 0 || s.watchers.len() > 0 || s.setup_content is Some
}

/// Whether the setup content declares a component loaded on demand.
pub open spec fn has_async(context: ContextModel) -> bool {
    match context.script.setup_content {
        Some(setup) => pattern_found(ASYNC_COMPONENT_DETECTION_PATTERN@, setup),
        None => false,
    }
}

/// `list` with `item` appended when `keep` holds.
pub open spec fn push_if(list: Seq<Seq<char>>, keep: bool, item: Seq<char>) -> Seq<Seq<char>> {
    if keep {
        list.push(item)
    } else {
        list
    }
}

/// The names to import from the reactive framework.
pub open spec fn vue_imports(context: ContextModel) -> Seq<Seq<char>> {
    let s = context.script;
    let a = push_if(Seq::empty(), s.data_properties.len() > 0, "ref"@);
    let b = push_if(a, s.computed_details.len() > 0 || s.computed_properties.len() > 0, "computed"@);
    let c = push_if(b, s.watchers.len() > 0, "watch"@);
    push_if(c, has_async(context), "defineAsyncComponent"@)
}

/// The text of a truth value.
pub open spec fn bool_text(b: bool) -> Seq<char> {
    if b {
        "true"@
    } else {
        "false"@
    }
}

/// The lines that declare one prop, appended to `acc`.
pub open spec fn prop_lines(prop: PropModel, acc: Seq<Seq<char>>) -> Seq<Seq<char>> {
    let a = acc.push("  "@ + prop.name + ": {"@);
    let b = match prop.prop_type {
        Some(t) => a.push("    type: "@ + t + ","@),
        None => a,
    };
    let c = match prop.required {
        Some(r) => b.push("    required: "@ + bool_text(r) + ","@),
        None => b,
    };
    let d = match prop.default_value {
        Some(v) => c.push("    default: "@ + v + ","@),
        None => c,
    };
    d.push("  },"@)
}

/// The lines that declare the props from index `i` on, appended to `acc`.
pub open spec fn props_lines_from(props: Seq<PropModel>, i: int, acc: Seq<Seq<char>>) -> Seq<Seq<char>>
    decreases props.len() - i,
{
    if i < 0 || i >= props.len() {
        acc
    } else {
        props_lines_from(props, i + 1, prop_lines(props[i], acc))
    }
}

/// The `defineProps` statement, line by line; nothing without props.
pub open spec fn props_definition(context: ContextModel) -> Seq<Seq<char>> {
    let props = context.script.props;
    if props.len() > 0 {
        props_lines_from(props, 0, seq!["const props = defineProps({"@]).push("});"@).push(""@)
    } else {
        Seq::empty()
    }
}

/// The reactive declaration of a data field.
pub open spec fn ref_declaration(name: Seq<char>, value: Seq<char>) -> Seq<char> {
    "const "@ + name + " = ref("@ + value + ");"@
}

/// The initial value of a data field as written; `undefined` without one.
pub open spec fn initial_value(field: DataPropertyModel) -> Seq<char> {
    match field.value {
        Some(v) => v,
        None => "undefined"@,
    }
}

/// The declarations proposed for the data fields from index `i` on, set
/// into `acc` with priority 0.
pub open spec fn data_refs_from(
    context: ContextModel,
    config: TransformerConfigModel,
    data: Seq<DataPropertyModel>,
    i: int,
    acc: RefTable,
) -> RefTable
    decreases data.len() - i,
{
    if i < 0 || i >= data.len() {
        acc
    } else {
        data_refs_from(
            context,
            config,
            data,
            i + 1,
            assign(
                acc,
                data[i].name,
                ref_declaration(data[i].name, body_rewritten(context, config, initial_value(data[i]))),
                0,
            ),
        )
    }
}

/// The lines from index `i` on that are not blank, each after `indent`,
/// appended to `acc`.
pub open spec fn indented_from(lines: Seq<Seq<char>>, i: int, indent: Seq<char>, acc: Seq<Seq<char>>) -> Seq<
    Seq<char>,
>
    decreases lines.len() - i,
{
    if i < 0 || i >= lines.len() {
        acc
    } else if text::trim(lines[i]).len() == 0 {
        indented_from(lines, i + 1, indent, acc)
    } else {
        indented_from(lines, i + 1, indent, acc.push(indent + lines[i]))
    }
}

/// A rewritten body, line by line and indented, appended to `acc`.
pub open spec fn body_lines(
    context: ContextModel,
    config: TransformerConfigModel,
    body: Seq<char>,
    indent: Seq<char>,
    acc: Seq<Seq<char>>,
) -> Seq<Seq<char>> {
    indented_from(text::lines(body_rewritten(context, config, body)), 0, indent, acc)
}

/// The name of a setter's parameter; `v` where none was declared.
pub open spec fn setter_name(detail: ComputedModel) -> Seq<char> {
    match detail.setter_parameter {
        Some(p) => p,
        None => "v"@,
    }
}

/// The lines that declare one computed property, appended to `acc`.
pub open spec fn computed_lines(
    context: ContextModel,
    config: TransformerConfigModel,
    detail: ComputedModel,
    acc: Seq<Seq<char>>,
) -> Seq<Seq<char>> {
    if detail.getter is Some && detail.setter is Some {
        let a = acc.push("const "@ + detail.name + " = computed({"@).push("  get() {"@);
        let b = body_lines(context, config, detail.getter->0, "    "@, a).push("  },"@).push(
            "  set("@ + setter_name(detail) + ") {"@,
        );
        body_lines(context, config, detail.setter->0, "    "@, b).push("  },"@).push("});"@)
    } else if detail.getter is Some {
        let a = acc.push("const "@ + detail.name + " = computed(() => {"@);
        body_lines(context, config, detail.getter->0, "  "@, a).push("});"@)
    } else {
        acc.push("const "@ + detail.name + " = computed(() => {"@).push(
            "  // TODO: Implement computed logic"@,
        ).push("  return undefined;"@).push("});"@)
    }
}

pub open spec fn computed_from(
    context: ContextModel,
    config: TransformerConfigModel,
    details: Seq<ComputedModel>,
    i: int,
    acc: Seq<Seq<char>>,
) -> Seq<Seq<char>>
    decreases details.len() - i,
{
    if i < 0 || i >= details.len() {
        acc
    } else {
        computed_from(context, config, details, i + 1, computed_lines(context, config, details[i], acc))
    }
}

/// The computed category; a blank line ends it when there is anything.
pub open spec fn computed_properties(context: ContextModel, config: TransformerConfigModel) -> Seq<
    Seq<char>,
> {
    let details = context.script.computed_details;
    let lines = computed_from(context, config, details, 0, Seq::empty());
    if lines.len() > 0 {
        lines.push(""@)
    } else {
        lines
    }
}

/// Whether `name` is a lifecycle hook, which another unit writes out.
pub open spec fn is_hook(name: Seq<char>) -> bool {
    crate::extract::is_lifecycle(name)
}

/// The text before the parameter list of a function: `async ` or nothing.
pub open spec fn async_part(is_async: bool) -> Seq<char> {
    if is_async {
        "async "@
    } else {
        ""@
    }
}

/// The lines that declare one method, appended to `acc`.
pub open spec fn method_lines(
    context: ContextModel,
    config: TransformerConfigModel,
    method: MethodModel,
    acc: Seq<Seq<char>>,
) -> Seq<Seq<char>> {
    if is_hook(method.name) {
        acc
    } else {
        let head = "const "@ + method.name + " = "@ + async_part(method.is_async) + "("@ + text::join(
            method.parameters,
            ", "@,
        ) + ") => {"@;
        body_lines(context, config, method.body, "  "@, acc.push(head)).push("};"@)
    }
}

pub open spec fn methods_from(
    context: ContextModel,
    config: TransformerConfigModel,
    methods: Seq<MethodModel>,
    i: int,
    acc: Seq<Seq<char>>,
) -> Seq<Seq<char>>
    decreases methods.len() - i,
{
    if i < 0 || i >= methods.len() {
        acc
    } else {
        methods_from(context, config, methods, i + 1, method_lines(context, config, methods[i], acc))
    }
}

/// Whether a method known by name only is left to another unit.
pub open spec fn is_skipped_name(name: Seq<char>) -> bool {
    name == "mounted"@ || name == "created"@ || name == "beforeDestroy"@ || name == "activated"@ || name
        == "deactivated"@
}

/// The lines for methods of which only the names are known.
pub open spec fn named_methods_from(names: Seq<Seq<char>>, i: int, acc: Seq<Seq<char>>) -> Seq<Seq<char>>
    decreases names.len() - i,
{
    if i < 0 || i >= names.len() {
        acc
    } else if is_skipped_name(names[i]) {
        named_methods_from(names, i + 1, acc)
    } else {
        named_methods_from(
            names,
            i + 1,
            acc.push("const "@ + names[i] + " = () => {"@).push("  // TODO: Method body not parsed"@).push(
                "};"@,
            ),
        )
    }
}

/// The methods category.
pub open spec fn methods(context: ContextModel, config: TransformerConfigModel) -> Seq<Seq<char>> {
    let s = context.script;
    if s.method_details.len() > 0 {
        methods_from(context, config, s.method_details, 0, Seq::empty())
    } else {
        named_methods_from(s.methods, 0, Seq::empty())
    }
}

/// The lines that declare one watcher, appended to `acc`.
pub open spec fn watcher_lines(
    context: ContextModel,
    config: TransformerConfigModel,
    watcher: WatcherModel,
    acc: Seq<Seq<char>>,
) -> Seq<Seq<char>> {
    let head = "watch("@ + watcher.watched_property + ", "@ + async_part(watcher.is_async) + "("@
        + watcher.param_names.0 + ", "@ + watcher.param_names.1 + ") => {"@;
    body_lines(context, config, watcher.handler_body, "  "@, acc.push(head)).push("});"@)
}

pub open spec fn watchers_from(
    context: ContextModel,
    config: TransformerConfigModel,
    watchers: Seq<WatcherModel>,
    i: int,
    acc: Seq<Seq<char>>,
) -> Seq<Seq<char>>
    decreases watchers.len() - i,
{
    if i < 0 || i >= watchers.len() {
        acc
    } else {
        watchers_from(context, config, watchers, i + 1, watcher_lines(context, config, watchers[i], acc))
    }
}

/// The watchers category; a blank line ends it when there is a watcher.
pub open spec fn watchers(context: ContextModel, config: TransformerConfigModel) -> Seq<Seq<char>> {
    let all = context.script.watchers;
    let lines = watchers_from(context, config, all, 0, Seq::empty());
    if all.len() > 0 {
        lines.push(""@)
    } else {
        lines
    }
}

/// Which imported names a list is made of.
#[derive(Clone, Copy, Debug)]
pub enum Part {
    /// Every name.
    All,
    /// The default imports.
    Default,
    /// The named imports: neither default nor namespace.
    Named,
}

/// How one imported name is written in a statement.
pub open spec fn item_text(item: ImportItemModel) -> Seq<char> {
    if item.is_default {
        item.name
    } else if item.is_namespace {
        "* as "@ + item.name
    } else {
        match item.alias {
            Some(alias) => item.name + " as "@ + alias,
            None => item.name,
        }
    }
}

pub open spec fn in_part(part: Part, item: ImportItemModel) -> bool {
    match part {
        Part::All => true,
        Part::Default => item.is_default,
        Part::Named => !item.is_default && !item.is_namespace,
    }
}

/// The texts of the items of one part from index `i` on, appended to `acc`.
pub open spec fn parts_from(items: Seq<ImportItemModel>, part: Part, i: int, acc: Seq<Seq<char>>) -> Seq<
    Seq<char>,
>
    decreases items.len() - i,
{
    if i < 0 || i >= items.len() {
        acc
    } else if in_part(part, items[i]) {
        parts_from(items, part, i + 1, acc.push(item_text(items[i])))
    } else {
        parts_from(items, part, i + 1, acc)
    }
}

/// Whether another unit takes care of imports from `source`.
pub open spec fn is_foreign_source(source: Seq<char>) -> bool {
    text::contains(source, "@/mixins/"@) || text::contains(source, "bootstrap-vue"@) || text::contains(
        source,
        "@/composables/"@,
    ) || source == "vuex"@
}

/// The statement that keeps one import of the script; `None` where another
/// unit takes care of it or nothing is imported.
pub open spec fn kept_import(info: ImportModel) -> Option<Seq<char>> {
    let all = parts_from(info.imports, Part::All, 0, Seq::empty());
    let defaults = parts_from(info.imports, Part::Default, 0, Seq::empty());
    let named = parts_from(info.imports, Part::Named, 0, Seq::empty());
    let tail = " from '"@ + info.source + "';"@;
    if is_foreign_source(info.source) || all.len() == 0 {
        None
    } else if defaults.len() > 0 && named.len() == 0 {
        Some("import "@ + text::join(all, ", "@) + tail)
    } else if defaults.len() > 0 && named.len() > 0 {
        Some("import "@ + text::join(defaults, ", "@) + ", { "@ + text::join(named, ", "@) + " }"@ + tail)
    } else {
        Some("import { "@ + text::join(all, ", "@) + " }"@ + tail)
    }
}

/// The statements that keep the imports from index `i` on, appended.
pub open spec fn kept_imports_from(imports: Seq<ImportModel>, i: int, acc: Seq<Seq<char>>) -> Seq<Seq<char>>
    decreases imports.len() - i,
{
    if i < 0 || i >= imports.len() {
        acc
    } else {
        kept_imports_from(
            imports,
            i + 1,
            match kept_import(imports[i]) {
                Some(line) => acc.push(line),
                None => acc,
            },
        )
    }
}

/// The lines from index `i` on that are neither blank nor an import,
/// appended to `acc`.
pub open spec fn setup_lines_from(lines: Seq<Seq<char>>, i: int, acc: Seq<Seq<char>>) -> Seq<Seq<char>>
    decreases lines.len() - i,
{
    if i < 0 || i >= lines.len() {
        acc
    } else if !text::starts_with(text::trim(lines[i]), "import "@) && text::trim(lines[i]).len() > 0 {
        setup_lines_from(lines, i + 1, acc.push(lines[i]))
    } else {
        setup_lines_from(lines, i + 1, acc)
    }
}

/// The setup content as it goes into the output: components loaded on
/// demand are wrapped, imports and blank lines are left out, and a blank
/// line ends it when there is anything.
pub open spec fn setup_content(context: ContextModel) -> Seq<Seq<char>> {
    match context.script.setup_content {
        Some(setup) => {
            let wrapped = replaced(
                ASYNC_COMPONENT_TRANSFORM_PATTERN@,
                setup,
                "const $1 = defineAsyncComponent(() => import($2))"@,
            );
            let lines = setup_lines_from(text::lines(wrapped), 0, Seq::empty());
            if lines.len() > 0 {
                lines.push(""@)
            } else {
                lines
            }
        },
        None => Seq::empty(),
    }
}

/// What the unit contributes.
pub open spec fn output(context: ContextModel, config: TransformerConfigModel) -> ResultModel {
    let s = context.script;
    let kept = kept_imports_from(s.imports, 0, Seq::empty());
    let r0 = empty_result();
    let r1 = if kept.len() > 0 {
        r0.with_imports("__existing__"@, kept)
    } else {
        r0
    };
    let r2 = if vue_imports(context).len() > 0 {
        r1.with_imports("vue"@, vue_imports(context))
    } else {
        r1
    };
    let r3 = r2.with_setup_lines(setup_content(context)).with_setup_lines(props_definition(context));
    let r4 = ResultModel {
        data_refs: data_refs_from(context, config, s.data_properties, 0, Seq::empty()),
        ..r3
    };
    r4.with_computed_lines(computed_properties(context, config)).with_method_lines(
        methods(context, config),
    ).with_watcher_lines(watchers(context, config))
}

fn push_line(out: &mut Vec<String>, line: String)
    ensures
        final(out).deep_view() == old(out).deep_view().push(line@),
{
    push_deep(out, line);
}

/// Appends the lines of a text, indented, leaving blank lines out.
pub fn push_indented(out: &mut Vec<String>, body: &str, indent: &str)
    ensures
        final(out).deep_view() == indented_from(text::lines(body@), 0, indent@, old(out).deep_view()),
{
    let lines = str_lines(body);
    let ghost all = lines.deep_view();
    let mut i: usize = 0;
    while i < lines.len()
        invariant
            i <= lines.len(),
            all == lines.deep_view(),
            indented_from(all, 0, indent@, old(out).deep_view()) == indented_from(
                all,
                i as int,
                indent@,
                out.deep_view(),
            ),
        decreases lines.len() - i,
    {
        assert(all[i as int] == lines@[i as int]@);
        if str_len(str_trim(lines[i].as_str()).as_str()) > 0 {
            push_line(out, concat2(indent, lines[i].as_str()));
        }
        i += 1;
    }
}

/// Appends the lines of a rewritten body, indented, leaving blank lines
/// out.
pub fn push_body(
    out: &mut Vec<String>,
    context: &TransformationContext,
    config: &TransformerConfig,
    body: &str,
    indent: &str,
)
    ensures
        final(out).deep_view() == body_lines(
            context.deep_view(),
            config.deep_view(),
            body@,
            indent@,
            old(out).deep_view(),
        ),
{
    let rewritten = transform_body_text(body, context, config);
    push_indented(out, rewritten.as_str(), indent);
}

fn bool_word(b: bool) -> (r: &'static str)
    ensures
        r@ == bool_text(b),
{
    if b {
        "true"
    } else {
        "false"
    }
}

fn async_word(is_async: bool) -> (r: &'static str)
    ensures
        r@ == async_part(is_async),
{
    if is_async {
        "async "
    } else {
        ""
    }
}

impl CompositionTransformer {
    pub fn new() -> (r: Self) {
        CompositionTransformer
    }

    pub fn should_apply(context: &TransformationContext) -> (r: bool)
        ensures
            r == applies(context.deep_view()),
    {
        let s = &context.script_state;
        s.props.len() > 0 || s.data_properties.len() > 0 || s.computed_details.len() > 0 || s.methods.len()
            > 0 || s.method_details.len() > 0 || s.watchers.len() > 0 || s.setup_content.is_some()
    }

    /// Tells whether the setup content declares a component loaded on
    /// demand.
    pub fn has_async_components(context: &TransformationContext) -> (r: bool)
        ensures
            r == has_async(context.deep_view()),
    {
        match &context.script_state.setup_content {
            Some(setup) => pattern_matches(ASYNC_COMPONENT_DETECTION_PATTERN, setup.as_str()),
            None => false,
        }
    }

    /// The names to import from the reactive framework.
    pub fn generate_vue_imports(context: &TransformationContext) -> (r: Vec<String>)
        ensures
            r.deep_view() == vue_imports(context.deep_view()),
    {
        let s = &context.script_state;
        let mut out: Vec<String> = Vec::new();
        assert(out.deep_view() =~= Seq::empty());
        if s.data_properties.len() > 0 {
            push_line(&mut out, owned("ref"));
        }
        if s.computed_details.len() > 0 || s.computed_properties.len() > 0 {
            push_line(&mut out, owned("computed"));
        }
        if s.watchers.len() > 0 {
            push_line(&mut out, owned("watch"));
        }
        if Self::has_async_components(context) {
            push_line(&mut out, owned("defineAsyncComponent"));
        }
        out
    }

    /// The `defineProps` statement.
    pub fn generate_props_definition(context: &TransformationContext) -> (r: Vec<String>)
        ensures
            r.deep_view() == props_definition(context.deep_view()),
    {
        let props = &context.script_state.props;
        let mut out: Vec<String> = Vec::new();
        assert(out.deep_view() =~= Seq::empty());
        if props.len() > 0 {
            push_line(&mut out, owned("const props = defineProps({"));
            assert(out.deep_view() =~= seq!["const props = defineProps({"@]);
            let ghost all = props.deep_view();
            let ghost start = out.deep_view();
            let mut i: usize = 0;
            while i < props.len()
                invariant
                    i <= props.len(),
                    all == props.deep_view(),
                    props_lines_from(all, 0, start) == props_lines_from(all, i as int, out.deep_view()),
                decreases props.len() - i,
            {
                let prop = &props[i];
                assert(all[i as int] == prop.deep_view());
                push_line(&mut out, concat3("  ", prop.name.as_str(), ": {"));
                match &prop.prop_type {
                    Some(t) => {
                        push_line(&mut out, concat3("    type: ", t.as_str(), ","));
                    },
                    None => {},
                }
                match prop.required {
                    Some(required) => {
                        push_line(&mut out, concat3("    required: ", bool_word(required), ","));
                    },
                    None => {},
                }
                match &prop.default_value {
                    Some(v) => {
                        push_line(&mut out, concat3("    default: ", v.as_str(), ","));
                    },
                    None => {},
                }
                push_line(&mut out, owned("  },"));
                i += 1;
            }
            push_line(&mut out, owned("});"));
            push_line(&mut out, owned(""));
        }
        out
    }

    /// The reactive declarations proposed for the data fields.
    pub fn generate_data_refs(context: &TransformationContext, config: &TransformerConfig) -> (r: Vec<
        (String, (String, u8)),
    >)
        ensures
            r.deep_view() == data_refs_from(
                context.deep_view(),
                config.deep_view(),
                context.script_state.deep_view().data_properties,
                0,
                Seq::empty(),
            ),
    {
        let data = &context.script_state.data_properties;
        let mut out: Vec<(String, (String, u8))> = Vec::new();
        assert(out.deep_view() =~= Seq::empty());
        let ghost all = data.deep_view();
        let mut i: usize = 0;
        while i < data.len()
            invariant
                i <= data.len(),
                all == data.deep_view(),
                data_refs_from(context.deep_view(), config.deep_view(), all, 0, Seq::empty()) == data_refs_from(
                    context.deep_view(),
                    config.deep_view(),
                    all,
                    i as int,
                    out.deep_view(),
                ),
            decreases data.len() - i,
        {
            let field = &data[i];
            assert(all[i as int] == field.deep_view());
            let value = match &field.value {
                Some(v) => transform_body_text(v.as_str(), context, config),
                None => transform_body_text("undefined", context, config),
            };
            let declaration = concat5("const ", field.name.as_str(), " = ref(", value.as_str(), ");");
            table_assign(&mut out, field.name.as_str(), declaration.as_str(), 0);
            i += 1;
        }
        out
    }

    fn push_computed(
        out: &mut Vec<String>,
        context: &TransformationContext,
        config: &TransformerConfig,
        detail: &ComputedDetail,
    )
        ensures
            final(out).deep_view() == computed_lines(context.deep_view(), config.deep_view(), detail.deep_view(), old(out).deep_view()),
    {
        match (&detail.getter, &detail.setter) {
            (Some(getter), Some(setter)) => {
                push_line(out, concat3("const ", detail.name.as_str(), " = computed({"));
                push_line(out, owned("  get() {"));
                push_body(out, context, config, getter.as_str(), "    ");
                push_line(out, owned("  },"));
                let param = match &detail.setter_parameter {
                    Some(p) => p.as_str(),
                    None => "v",
                };
                push_line(out, concat3("  set(", param, ") {"));
                push_body(out, context, config, setter.as_str(), "    ");
                push_line(out, owned("  },"));
                push_line(out, owned("});"));
            },
            (Some(getter), None) => {
                push_line(out, concat3("const ", detail.name.as_str(), " = computed(() => {"));
                push_body(out, context, config, getter.as_str(), "  ");
                push_line(out, owned("});"));
            },
            _ => {
                push_line(out, concat3("const ", detail.name.as_str(), " = computed(() => {"));
                push_line(out, owned("  // TODO: Implement computed logic"));
                push_line(out, owned("  return undefined;"));
                push_line(out, owned("});"));
            },
        }
    }

    /// The computed category.
    pub fn generate_computed_properties(context: &TransformationContext, config: &TransformerConfig) -> (r:
        Vec<String>)
        ensures
            r.deep_view() == computed_properties(context.deep_view(), config.deep_view()),
    {
        let details = &context.script_state.computed_details;
        let mut out: Vec<String> = Vec::new();
        assert(out.deep_view() =~= Seq::empty());
        let ghost all = details.deep_view();
        let mut i: usize = 0;
        while i < details.len()
            invariant
                i <= details.len(),
                all == details.deep_view(),
                computed_from(context.deep_view(), config.deep_view(), all, 0, Seq::empty()) == computed_from(
                    context.deep_view(),
                    config.deep_view(),
                    all,
                    i as int,
                    out.deep_view(),
                ),
            decreases details.len() - i,
        {
            assert(all[i as int] == details@[i as int].deep_view());
            Self::push_computed(&mut out, context, config, &details[i]);
            i += 1;
        }
        if out.len() > 0 {
            push_line(&mut out, owned(""));
        }
        out
    }

    /// The methods category.
    pub fn generate_methods(context: &TransformationContext, config: &TransformerConfig) -> (r: Vec<String>)
        ensures
            r.deep_view() == methods(context.deep_view(), config.deep_view()),
    {
        let s = &context.script_state;
        let mut out: Vec<String> = Vec::new();
        assert(out.deep_view() =~= Seq::empty());
        if s.method_details.len() > 0 {
            let ghost all = s.method_details.deep_view();
            let mut i: usize = 0;
            while i < s.method_details.len()
                invariant
                    i <= s.method_details.len(),
                    all == s.method_details.deep_view(),
                    methods_from(context.deep_view(), config.deep_view(), all, 0, Seq::empty()) == methods_from(
                        context.deep_view(),
                        config.deep_view(),
                        all,
                        i as int,
                        out.deep_view(),
                    ),
                decreases s.method_details.len() - i,
            {
                let method = &s.method_details[i];
                assert(all[i as int] == method.deep_view());
                if !crate::extract::is_lifecycle_name(method.name.as_str()) {
                    let params = str_join(&method.parameters, ", ");
                    push_line(
                        &mut out,
                        concat7(
                            "const ",
                            method.name.as_str(),
                            " = ",
                            async_word(method.is_async),
                            "(",
                            params.as_str(),
                            ") => {",
                        ),
                    );
                    push_body(&mut out, context, config, method.body.as_str(), "  ");
                    push_line(&mut out, owned("};"));
                }
                i += 1;
            }
        } else {
            let ghost all = s.methods.deep_view();
            let mut i: usize = 0;
            while i < s.methods.len()
                invariant
                    i <= s.methods.len(),
                    all == s.methods.deep_view(),
                    named_methods_from(all, 0, Seq::empty()) == named_methods_from(
                        all,
                        i as int,
                        out.deep_view(),
                    ),
                decreases s.methods.len() - i,
            {
                let name = s.methods[i].as_str();
                assert(all[i as int] == name@);
                let skipped = str_eq(name, "mounted") || str_eq(name, "created") || str_eq(
                    name,
                    "beforeDestroy",
                ) || str_eq(name, "activated") || str_eq(name, "deactivated");
                if !skipped {
                    push_line(&mut out, concat3("const ", name, " = () => {"));
                    push_line(&mut out, owned("  // TODO: Method body not parsed"));
                    push_line(&mut out, owned("};"));
                }
                i += 1;
            }
        }
        out
    }

    /// The watchers category.
    pub fn generate_watchers(context: &TransformationContext, config: &TransformerConfig) -> (r: Vec<String>)
        ensures
            r.deep_view() == watchers(context.deep_view(), config.deep_view()),
    {
        let all_watchers = &context.script_state.watchers;
        let mut out: Vec<String> = Vec::new();
        assert(out.deep_view() =~= Seq::empty());
        let ghost all = all_watchers.deep_view();
        let mut i: usize = 0;
        while i < all_watchers.len()
            invariant
                i <= all_watchers.len(),
                all == all_watchers.deep_view(),
                watchers_from(context.deep_view(), config.deep_view(), all, 0, Seq::empty()) == watchers_from(
                    context.deep_view(),
                    config.deep_view(),
                    all,
                    i as int,
                    out.deep_view(),
                ),
            decreases all_watchers.len() - i,
        {
            let watcher = &all_watchers[i];
            assert(all[i as int] == watcher.deep_view());
            let head = concat4(
                "watch(",
                watcher.watched_property.as_str(),
                ", ",
                async_word(watcher.is_async),
            );
            push_line(
                &mut out,
                concat6(
                    head.as_str(),
                    "(",
                    watcher.param_names.0.as_str(),
                    ", ",
                    watcher.param_names.1.as_str(),
                    ") => {",
                ),
            );
            push_body(&mut out, context, config, watcher.handler_body.as_str(), "  ");
            push_line(&mut out, owned("});"));
            i += 1;
        }
        if all_watchers.len() > 0 {
            push_line(&mut out, owned(""));
        }
        out
    }

    fn item_word(item: &ImportItem) -> (r: String)
        ensures
            r@ == item_text(item.deep_view()),
    {
        if item.is_default {
            item.name.clone()
        } else if item.is_namespace {
            concat2("* as ", item.name.as_str())
        } else {
            match &item.alias {
                Some(alias) => concat3(item.name.as_str(), " as ", alias.as_str()),
                None => item.name.clone(),
            }
        }
    }

    fn parts(items: &Vec<ImportItem>, part: Part) -> (r: Vec<String>)
        ensures
            r.deep_view() == parts_from(items.deep_view(), part, 0, Seq::empty()),
    {
        let mut out: Vec<String> = Vec::new();
        assert(out.deep_view() =~= Seq::empty());
        let ghost all = items.deep_view();
        let mut i: usize = 0;
        while i < items.len()
            invariant
                i <= items.len(),
                all == items.deep_view(),
                parts_from(all, part, 0, Seq::empty()) == parts_from(all, part, i as int, out.deep_view()),
            decreases items.len() - i,
        {
            let item = &items[i];
            assert(all[i as int] == item.deep_view());
            let keep = match part {
                Part::All => true,
                Part::Default => item.is_default,
                Part::Named => !item.is_default && !item.is_namespace,
            };
            if keep {
                push_line(&mut out, Self::item_word(item));
            }
            i += 1;
        }
        out
    }

    fn keep_import(info: &ImportInfo) -> (r: Option<String>)
        ensures
            r.deep_view() == kept_import(info.deep_view()),
    {
        let source = info.source.as_str();
        if str_contains(source, "@/mixins/") || str_contains(source, "bootstrap-vue") || str_contains(
            source,
            "@/composables/",
        ) || str_eq(source, "vuex") {
            return None;
        }
        let all = Self::parts(&info.imports, Part::All);
        let defaults = Self::parts(&info.imports, Part::Default);
        let named = Self::parts(&info.imports, Part::Named);
        if all.len() == 0 {
            return None;
        }
        let tail = concat3(" from '", source, "';");
        if defaults.len() > 0 && named.len() == 0 {
            let r = concat3("import ", str_join(&all, ", ").as_str(), tail.as_str());
            assert(r@ =~= "import "@ + text::join(all.deep_view(), ", "@) + (" from '"@ + source@ + "';"@));
            Some(r)
        } else if defaults.len() > 0 && named.len() > 0 {
            let r = concat6(
                "import ",
                str_join(&defaults, ", ").as_str(),
                ", { ",
                str_join(&named, ", ").as_str(),
                " }",
                tail.as_str(),
            );
            assert(r@ =~= "import "@ + text::join(defaults.deep_view(), ", "@) + ", { "@ + text::join(
                named.deep_view(),
                ", "@,
            ) + " }"@ + (" from '"@ + source@ + "';"@));
            Some(r)
        } else {
            let r = concat4("import { ", str_join(&all, ", ").as_str(), " }", tail.as_str());
            assert(r@ =~= "import { "@ + text::join(all.deep_view(), ", "@) + " }"@ + (" from '"@ + source@
                + "';"@));
            Some(r)
        }
    }

    /// The statements that keep the imports of the script.
    pub fn generate_existing_imports(context: &TransformationContext) -> (r: Vec<String>)
        ensures
            r.deep_view() == kept_imports_from(context.script_state.deep_view().imports, 0, Seq::empty()),
    {
        let imports = &context.script_state.imports;
        let mut out: Vec<String> = Vec::new();
        assert(out.deep_view() =~= Seq::empty());
        let ghost all = imports.deep_view();
        let mut i: usize = 0;
        while i < imports.len()
            invariant
                i <= imports.len(),
                all == imports.deep_view(),
                kept_imports_from(all, 0, Seq::empty()) == kept_imports_from(all, i as int, out.deep_view()),
            decreases imports.len() - i,
        {
            assert(all[i as int] == imports@[i as int].deep_view());
            match Self::keep_import(&imports[i]) {
                Some(line) => {
                    push_line(&mut out, line);
                },
                None => {},
            }
            i += 1;
        }
        out
    }

    /// The setup content as it goes into the output.
    pub fn generate_setup_content(context: &TransformationContext) -> (r: Vec<String>)
        ensures
            r.deep_view() == setup_content(context.deep_view()),
    {
        let mut out: Vec<String> = Vec::new();
        assert(out.deep_view() =~= Seq::empty());
        match &context.script_state.setup_content {
            Some(setup) => {
                let wrapped = pattern_replace(
                    ASYNC_COMPONENT_TRANSFORM_PATTERN,
                    setup.as_str(),
                    "const $1 = defineAsyncComponent(() => import($2))",
                );
                let lines = str_lines(wrapped.as_str());
                let ghost all = lines.deep_view();
                let mut i: usize = 0;
                while i < lines.len()
                    invariant
                        i <= lines.len(),
                        all == lines.deep_view(),
                        setup_lines_from(all, 0, Seq::empty()) == setup_lines_from(
                            all,
                            i as int,
                            out.deep_view(),
                        ),
                    decreases lines.len() - i,
                {
                    assert(all[i as int] == lines@[i as int]@);
                    let trimmed = str_trim(lines[i].as_str());
                    if !str_starts_with(trimmed.as_str(), "import ") && str_len(trimmed.as_str()) > 0 {
                        push_line(&mut out, lines[i].clone());
                    }
                    i += 1;
                }
                if out.len() > 0 {
                    push_line(&mut out, owned(""));
                }
                out
            },
            None => out,
        }
    }

    pub fn build(context: &TransformationContext, config: &TransformerConfig) -> (r: TransformationResult)
        ensures
            r.deep_view() == output(context.deep_view(), config.deep_view()),
    {
        let mut result = TransformationResult::new();
        let kept = Self::generate_existing_imports(context);
        if kept.len() > 0 {
            result.add_imports("__existing__", &kept);
        }
        let vue = Self::generate_vue_imports(context);
        if vue.len() > 0 {
            result.add_imports("vue", &vue);
        }
        result.extend_setup_code(Self::generate_setup_content(context));
        result.extend_setup_code(Self::generate_props_definition(context));
        result.data_refs = Self::generate_data_refs(context, config);
        result.extend_computed(&Self::generate_computed_properties(context, config));
        result.extend_methods(&Self::generate_methods(context, config));
        result.extend_watchers(&Self::generate_watchers(context, config));
        result
    }
}

impl Default for CompositionTransformer {
    fn default() -> Self {
        CompositionTransformer
    }
}

impl Transformer for CompositionTransformer {
    open spec fn applies(&self, context: ContextModel, config: TransformerConfigModel) -> bool {
        applies(context)
    }

    open spec fn output(&self, context: ContextModel, config: TransformerConfigModel) -> ResultModel {
        output(context, config)
    }

    open spec fn body_after(
        &self,
        body: Seq<char>,
        context: ContextModel,
        config: TransformerConfigModel,
    ) -> Seq<char> {
        body
    }

    open spec fn label(&self) -> Seq<char> {
        "composition"@
    }

    fn name(&self) -> &'static str {
        "composition"
    }

    fn should_transform(&self, context: &TransformationContext, config: &TransformerConfig) -> bool {
        Self::should_apply(context)
    }

    fn transform(&self, context: &TransformationContext, config: &TransformerConfig) -> TransformationResult {
        Self::build(context, config)
    }

    fn transform_body(&self, body: &str, context: &TransformationContext, config: &TransformerConfig) -> String {
        owned(body)
    }
}

} // verus!
