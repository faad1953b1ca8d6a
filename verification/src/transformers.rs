//! The rewrite units, the contract they share, and the orchestrator that
//! runs them and merges what they contribute.

pub mod assets;
pub mod axios;
pub mod body_transforms;
pub mod composition;
pub mod emit;
pub mod filters;
pub mod head;
pub mod i18n;
pub mod import_rewrite;
pub mod mixin;
pub mod nuxt;
pub mod router;
pub mod usage;
pub mod vue2;
pub mod vuex;

use crate::model::{
    ContextModel, ResultModel, TransformationContext, TransformationResult, TransformerConfig,
    TransformerConfigModel,
};
use crate::result::{
    add_names, empty_result, find_key, key_index, keys_distinct, lemma_merge_keeps_well_formed,
    lemma_table_steps_keep_keys_distinct, merged, remove_key, table_add_names, table_merge_imports,
    table_merge_refs, table_remove, ImportTable, RefTable,
};
use crate::strs::{clone_strings, extend_strings, list_contains, owned, str_less};
use crate::text;
use crate::text::push_deep;
use crate::transformers::assets::AssetsTransformer;
use crate::transformers::axios::AxiosTransformer;
use crate::transformers::body_transforms::{apply_reactive_transforms, reactive_body};
use crate::transformers::composition::CompositionTransformer;
use crate::transformers::emit::EmitTransformer;
use crate::transformers::filters::FiltersTransformer;
use crate::transformers::head::HeadTransformer;
use crate::transformers::i18n::I18nTransformer;
use crate::transformers::import_rewrite::ImportRewriteTransformer;
use crate::transformers::mixin::MixinTransformer;
use crate::transformers::nuxt::NuxtTransformer;
use crate::transformers::router::RouterTransformer;
use crate::transformers::vue2::Vue2Transformer;
use crate::transformers::vuex::VuexTransformer;
use vstd::prelude::*;

verus! {

/// The contract of a rewrite unit.
///
/// A unit reads the fact models and the configuration and nothing else. It
/// says whether it applies, what it contributes when it does, and how it
/// rewrites a body that was extracted from the script.
pub trait Transformer {
    /// Whether the unit has anything to do for this component.
    spec fn applies(&self, context: ContextModel, config: TransformerConfigModel) -> bool;

    /// What the unit contributes to the output.
    spec fn output(&self, context: ContextModel, config: TransformerConfigModel) -> ResultModel;

    /// A body after the unit's own rewrite.
    spec fn body_after(
        &self,
        body: Seq<char>,
        context: ContextModel,
        config: TransformerConfigModel,
    ) -> Seq<char>;

    /// The unit's name.
    spec fn label(&self) -> Seq<char>;

    /// The unit's name.
    fn name(&self) -> (r: &'static str)
        ensures
            r@ == self.label(),
    ;

    /// Tells whether the unit applies.
    fn should_transform(&self, context: &TransformationContext, config: &TransformerConfig) -> (r: bool)
        ensures
            r == self.applies(context.deep_view(), config.deep_view()),
    ;

    /// Makes the unit's contribution.
    fn transform(&self, context: &TransformationContext, config: &TransformerConfig) -> (r:
        TransformationResult)
        ensures
            r.deep_view() == self.output(context.deep_view(), config.deep_view()),
    ;

    /// Applies the unit's own rewrite to a body; a unit without one hands
    /// the body back.
    fn transform_body(&self, body: &str, context: &TransformationContext, config: &TransformerConfig) -> (r:
        String)
        ensures
            r@ == self.body_after(body@, context.deep_view(), config.deep_view()),
    ;
}

/// The rewrite units that exist.
#[derive(Clone, Copy, Debug)]
pub enum TransformerKind {
    Axios,
    ImportRewrite,
    Mixin,
    Nuxt,
    Router,
    Vue2,
    Filters,
    Vuex,
    Composition,
    Emit,
    I18n,
    Head,
    Assets,
}

/// The units in the order of their registration.
pub open spec fn registered() -> Seq<TransformerKind> {
    seq![
        TransformerKind::Axios,
        TransformerKind::ImportRewrite,
        TransformerKind::Mixin,
        TransformerKind::Nuxt,
        TransformerKind::Router,
        TransformerKind::Vue2,
        TransformerKind::Filters,
        TransformerKind::Vuex,
        TransformerKind::Composition,
        TransformerKind::Emit,
        TransformerKind::I18n,
        TransformerKind::Head,
        TransformerKind::Assets,
    ]
}

/// Whether a unit applies.
pub open spec fn unit_applies(
    kind: TransformerKind,
    context: ContextModel,
    config: TransformerConfigModel,
) -> bool {
    match kind {
        TransformerKind::Axios => axios::uses_axios(context),
        TransformerKind::ImportRewrite => import_rewrite::applies(context, config),
        TransformerKind::Mixin => mixin::applies(context, config),
        TransformerKind::Nuxt => nuxt::applies(context),
        TransformerKind::Router => router::applies(context),
        TransformerKind::Vue2 => vue2::applies(context),
        TransformerKind::Filters => filters::applies(context),
        TransformerKind::Vuex => vuex::applies(context),
        TransformerKind::Composition => composition::applies(context),
        TransformerKind::Emit => emit::applies(context),
        TransformerKind::I18n => i18n::applies(context, config),
        TransformerKind::Head => head::applies(context),
        TransformerKind::Assets => assets::applies(context, config),
    }
}

/// Whether a unit rewrites bodies.
pub open spec fn rewrites_bodies(kind: TransformerKind) -> bool {
    match kind {
        TransformerKind::Axios => true,
        TransformerKind::ImportRewrite => false,
        TransformerKind::Mixin => false,
        TransformerKind::Nuxt => true,
        TransformerKind::Router => true,
        TransformerKind::Vue2 => true,
        TransformerKind::Filters => true,
        TransformerKind::Vuex => true,
        TransformerKind::Composition => false,
        TransformerKind::Emit => true,
        TransformerKind::I18n => true,
        TransformerKind::Head => false,
        TransformerKind::Assets => false,
    }
}

/// A body after the rewrite of one unit.
pub open spec fn unit_body(
    kind: TransformerKind,
    body: Seq<char>,
    context: ContextModel,
    config: TransformerConfigModel,
) -> Seq<char> {
    match kind {
        TransformerKind::Axios => axios::body_after(body, context),
        TransformerKind::ImportRewrite => body,
        TransformerKind::Mixin => body,
        TransformerKind::Nuxt => nuxt::body_after(body, context),
        TransformerKind::Router => router::body_after(body, context),
        TransformerKind::Vue2 => vue2::body_after(body, context),
        TransformerKind::Filters => filters::body_after(body),
        TransformerKind::Vuex => vuex::body_after(body, context),
        TransformerKind::Composition => body,
        TransformerKind::Emit => emit::body_after(body, context),
        TransformerKind::I18n => i18n::body_after(body, context, config),
        TransformerKind::Head => body,
        TransformerKind::Assets => body,
    }
}

/// What a unit contributes.
pub open spec fn unit_output(
    kind: TransformerKind,
    context: ContextModel,
    config: TransformerConfigModel,
) -> ResultModel {
    match kind {
        TransformerKind::Axios => axios::output(context),
        TransformerKind::ImportRewrite => import_rewrite::output(context, config),
        TransformerKind::Mixin => mixin::output(context, config),
        TransformerKind::Nuxt => nuxt::output(context, config),
        TransformerKind::Router => router::output(context),
        TransformerKind::Vue2 => vue2::output(context, config),
        TransformerKind::Filters => filters::output(context),
        TransformerKind::Vuex => vuex::output(context),
        TransformerKind::Composition => composition::output(context, config),
        TransformerKind::Emit => emit::output(context),
        TransformerKind::I18n => i18n::output(context),
        TransformerKind::Head => head::output(context, config),
        TransformerKind::Assets => assets::output(context),
    }
}

/// The units from index `i` on that apply and rewrite bodies, appended to
/// `acc`.
pub open spec fn body_units_from(
    kinds: Seq<TransformerKind>,
    i: int,
    acc: Seq<TransformerKind>,
    context: ContextModel,
    config: TransformerConfigModel,
) -> Seq<TransformerKind>
    decreases kinds.len() - i,
{
    if i < 0 || i >= kinds.len() {
        acc
    } else if unit_applies(kinds[i], context, config) && rewrites_bodies(kinds[i]) {
        body_units_from(kinds, i + 1, acc.push(kinds[i]), context, config)
    } else {
        body_units_from(kinds, i + 1, acc, context, config)
    }
}

/// A body after the rewrites of the units from index `i` on, in order.
pub open spec fn units_body_from(
    kinds: Seq<TransformerKind>,
    i: int,
    body: Seq<char>,
    context: ContextModel,
    config: TransformerConfigModel,
) -> Seq<char>
    decreases kinds.len() - i,
{
    if i < 0 || i >= kinds.len() {
        body
    } else {
        units_body_from(kinds, i + 1, unit_body(kinds[i], body, context, config), context, config)
    }
}

/// A body after the given unit rewrites and then the generic rewrite,
/// which always comes last.
pub open spec fn all_body_transforms(
    body: Seq<char>,
    context: ContextModel,
    config: TransformerConfigModel,
    units: Seq<TransformerKind>,
) -> Seq<char> {
    reactive_body(context, config, units_body_from(units, 0, body, context, config))
}

/// The fully rewritten form of a body: the rewrite of every unit that
/// applies, in the order of registration, then the generic rewrite.
pub open spec fn body_rewritten(
    context: ContextModel,
    config: TransformerConfigModel,
    body: Seq<char>,
) -> Seq<char> {
    all_body_transforms(
        body,
        context,
        config,
        body_units_from(registered(), 0, Seq::empty(), context, config),
    )
}

/// Whether what the orchestrator takes a unit to be is what the unit says
/// of itself under the shared contract.
pub open spec fn unit_matches<T: Transformer>(
    unit: T,
    kind: TransformerKind,
    body: Seq<char>,
    context: ContextModel,
    config: TransformerConfigModel,
) -> bool {
    &&& unit_name(kind) == unit.label()
    &&& unit_applies(kind, context, config) == unit.applies(context, config)
    &&& unit_output(kind, context, config) == unit.output(context, config)
    &&& unit_body(kind, body, context, config) == unit.body_after(body, context, config)
}

/// The orchestrator runs the units by their shared contract: for every
/// registered kind, the name, the applicability, the contribution and the
/// body rewrite that it works with are those of the unit of that kind.
pub proof fn lemma_units_follow_the_contract(
    kind: TransformerKind,
    body: Seq<char>,
    context: ContextModel,
    config: TransformerConfigModel,
)
    ensures
        match kind {
            TransformerKind::Axios => unit_matches(AxiosTransformer, kind, body, context, config),
            TransformerKind::ImportRewrite => unit_matches(ImportRewriteTransformer, kind, body, context, config),
            TransformerKind::Mixin => unit_matches(MixinTransformer, kind, body, context, config),
            TransformerKind::Nuxt => unit_matches(NuxtTransformer, kind, body, context, config),
            TransformerKind::Router => unit_matches(RouterTransformer, kind, body, context, config),
            TransformerKind::Vue2 => unit_matches(Vue2Transformer, kind, body, context, config),
            TransformerKind::Filters => unit_matches(FiltersTransformer, kind, body, context, config),
            TransformerKind::Vuex => unit_matches(VuexTransformer, kind, body, context, config),
            TransformerKind::Composition => unit_matches(CompositionTransformer, kind, body, context, config),
            TransformerKind::Emit => unit_matches(EmitTransformer, kind, body, context, config),
            TransformerKind::I18n => unit_matches(I18nTransformer, kind, body, context, config),
            TransformerKind::Head => unit_matches(HeadTransformer, kind, body, context, config),
            TransformerKind::Assets => unit_matches(AssetsTransformer, kind, body, context, config),
        },
{
}

/// Tells whether a unit applies.
pub fn kind_applies(kind: TransformerKind, context: &TransformationContext, config: &TransformerConfig) -> (r:
    bool)
    ensures
        r == unit_applies(kind, context.deep_view(), config.deep_view()),
{
    match kind {
        TransformerKind::Axios => AxiosTransformer::has_axios_usage(context),
        TransformerKind::ImportRewrite => ImportRewriteTransformer::has_rewritable_imports(context, config),
        TransformerKind::Mixin => MixinTransformer::has_mixin_usage(context, config),
        TransformerKind::Nuxt => NuxtTransformer::should_apply(context),
        TransformerKind::Router => RouterTransformer::has_route_usage(context)
            || RouterTransformer::has_router_usage(context),
        TransformerKind::Vue2 => Vue2Transformer::context_has_vue2_methods(context),
        TransformerKind::Filters => FiltersTransformer::has_filter_usage(context),
        TransformerKind::Vuex => VuexTransformer::has_vuex_usage(context),
        TransformerKind::Composition => CompositionTransformer::should_apply(context),
        TransformerKind::Emit => EmitTransformer::has_emit_usage(context),
        TransformerKind::I18n => I18nTransformer::should_apply(context, config),
        TransformerKind::Head => context.script_state.head_method.is_some(),
        TransformerKind::Assets => AssetsTransformer::should_apply(context, config),
    }
}

/// Tells whether a unit rewrites bodies.
pub fn kind_rewrites_bodies(kind: TransformerKind) -> (r: bool)
    ensures
        r == rewrites_bodies(kind),
{
    match kind {
        TransformerKind::Axios => true,
        TransformerKind::ImportRewrite => false,
        TransformerKind::Mixin => false,
        TransformerKind::Nuxt => true,
        TransformerKind::Router => true,
        TransformerKind::Vue2 => true,
        TransformerKind::Filters => true,
        TransformerKind::Vuex => true,
        TransformerKind::Composition => false,
        TransformerKind::Emit => true,
        TransformerKind::I18n => true,
        TransformerKind::Head => false,
        TransformerKind::Assets => false,
    }
}

/// Applies the body rewrite of one unit.
pub fn kind_rewrite_body(
    kind: TransformerKind,
    body: &str,
    context: &TransformationContext,
    config: &TransformerConfig,
) -> (r: String)
    ensures
        r@ == unit_body(kind, body@, context.deep_view(), config.deep_view()),
{
    match kind {
        TransformerKind::Axios => AxiosTransformer::rewrite_body(body, context),
        TransformerKind::ImportRewrite => owned(body),
        TransformerKind::Mixin => owned(body),
        TransformerKind::Nuxt => NuxtTransformer::rewrite_body(body, context),
        TransformerKind::Router => RouterTransformer::rewrite_body(body, context),
        TransformerKind::Vue2 => Vue2Transformer::rewrite_body(body, context),
        TransformerKind::Filters => FiltersTransformer::rewrite_body(body),
        TransformerKind::Vuex => VuexTransformer::rewrite_body(body, context),
        TransformerKind::Composition => owned(body),
        TransformerKind::Emit => EmitTransformer::rewrite_body(body, context),
        TransformerKind::I18n => I18nTransformer::apply_i18n_transforms(body, context, config),
        TransformerKind::Head => owned(body),
        TransformerKind::Assets => owned(body),
    }
}

/// Runs one unit.
pub fn kind_transform(kind: TransformerKind, context: &TransformationContext, config: &TransformerConfig) -> (r:
    TransformationResult)
    ensures
        r.deep_view() == unit_output(kind, context.deep_view(), config.deep_view()),
{
    match kind {
        TransformerKind::Axios => AxiosTransformer::build(context),
        TransformerKind::ImportRewrite => ImportRewriteTransformer::build(context, config),
        TransformerKind::Mixin => MixinTransformer::build(context, config),
        TransformerKind::Nuxt => NuxtTransformer::build(context, config),
        TransformerKind::Router => RouterTransformer::build(context),
        TransformerKind::Vue2 => Vue2Transformer::build(context, config),
        TransformerKind::Filters => FiltersTransformer::build(context),
        TransformerKind::Vuex => VuexTransformer::build(context),
        TransformerKind::Composition => CompositionTransformer::build(context, config),
        TransformerKind::Emit => EmitTransformer::build(context),
        TransformerKind::I18n => I18nTransformer::build(context),
        TransformerKind::Head => HeadTransformer::build(context, config),
        TransformerKind::Assets => AssetsTransformer::build(context),
    }
}

/// The name of a unit.
pub open spec fn unit_name(kind: TransformerKind) -> Seq<char> {
    match kind {
        TransformerKind::Axios => "axios"@,
        TransformerKind::ImportRewrite => "import_rewrite"@,
        TransformerKind::Mixin => "mixin"@,
        TransformerKind::Nuxt => "nuxt"@,
        TransformerKind::Router => "router"@,
        TransformerKind::Vue2 => "vue2"@,
        TransformerKind::Filters => "filters"@,
        TransformerKind::Vuex => "vuex"@,
        TransformerKind::Composition => "composition"@,
        TransformerKind::Emit => "emit"@,
        TransformerKind::I18n => "i18n"@,
        TransformerKind::Head => "head"@,
        TransformerKind::Assets => "assets"@,
    }
}

/// The name of a unit.
pub fn kind_name(kind: TransformerKind) -> (r: &'static str)
    ensures
        r@ == unit_name(kind),
{
    match kind {
        TransformerKind::Axios => "axios",
        TransformerKind::ImportRewrite => "import_rewrite",
        TransformerKind::Mixin => "mixin",
        TransformerKind::Nuxt => "nuxt",
        TransformerKind::Router => "router",
        TransformerKind::Vue2 => "vue2",
        TransformerKind::Filters => "filters",
        TransformerKind::Vuex => "vuex",
        TransformerKind::Composition => "composition",
        TransformerKind::Emit => "emit",
        TransformerKind::I18n => "i18n",
        TransformerKind::Head => "head",
        TransformerKind::Assets => "assets",
    }
}

/// The registered units, in order.
pub fn registered_kinds() -> (r: Vec<TransformerKind>)
    ensures
        r@ == registered(),
{
    let mut v: Vec<TransformerKind> = Vec::new();
    v.push(TransformerKind::Axios);
    v.push(TransformerKind::ImportRewrite);
    v.push(TransformerKind::Mixin);
    v.push(TransformerKind::Nuxt);
    v.push(TransformerKind::Router);
    v.push(TransformerKind::Vue2);
    v.push(TransformerKind::Filters);
    v.push(TransformerKind::Vuex);
    v.push(TransformerKind::Composition);
    v.push(TransformerKind::Emit);
    v.push(TransformerKind::I18n);
    v.push(TransformerKind::Head);
    v.push(TransformerKind::Assets);
    assert(v@ =~= registered());
    v
}

/// Picks, out of `kinds`, the units that apply and rewrite bodies.
pub fn body_units(kinds: &Vec<TransformerKind>, context: &TransformationContext, config: &TransformerConfig) -> (r:
    Vec<TransformerKind>)
    ensures
        r@ == body_units_from(kinds@, 0, Seq::empty(), context.deep_view(), config.deep_view()),
{
    let mut out: Vec<TransformerKind> = Vec::new();
    let mut i: usize = 0;
    while i < kinds.len()
        invariant
            i <= kinds.len(),
            body_units_from(kinds@, 0, Seq::empty(), context.deep_view(), config.deep_view()) == body_units_from(
                kinds@,
                i as int,
                out@,
                context.deep_view(),
                config.deep_view(),
            ),
        decreases kinds.len() - i,
    {
        if kind_applies(kinds[i], context, config) && kind_rewrites_bodies(kinds[i]) {
            out.push(kinds[i]);
        }
        i += 1;
    }
    out
}

/// Applies the given unit rewrites to a body, then the generic rewrite.
pub fn apply_all_body_transforms(
    body: &str,
    context: &TransformationContext,
    config: &TransformerConfig,
    additional_transforms: &Vec<TransformerKind>,
) -> (r: String)
    ensures
        r@ == all_body_transforms(body@, context.deep_view(), config.deep_view(), additional_transforms@),
{
    let mut current = owned(body);
    let mut i: usize = 0;
    while i < additional_transforms.len()
        invariant
            i <= additional_transforms.len(),
            units_body_from(additional_transforms@, 0, body@, context.deep_view(), config.deep_view()) == units_body_from(
                additional_transforms@,
                i as int,
                current@,
                context.deep_view(),
                config.deep_view(),
            ),
        decreases additional_transforms.len() - i,
    {
        current = kind_rewrite_body(additional_transforms[i], current.as_str(), context, config);
        i += 1;
    }
    apply_reactive_transforms(current.as_str(), context, config)
}

/// Rewrites a body in full.
pub fn transform_body_text(body: &str, context: &TransformationContext, config: &TransformerConfig) -> (r:
    String)
    ensures
        r@ == body_rewritten(context.deep_view(), config.deep_view(), body@),
{
    let units = body_units(&registered_kinds(), context, config);
    apply_all_body_transforms(body, context, config, &units)
}

/// Whether the proposal `a` is emitted before the proposal `b`: the higher
/// priority first, and the alphabet among equals.
pub open spec fn ref_before(a: (Seq<char>, (Seq<char>, u8)), b: (Seq<char>, (Seq<char>, u8))) -> bool {
    a.1.1 > b.1.1 || (a.1.1 == b.1.1 && text::less(a.0, b.0))
}

/// Where a proposal goes into an ordered table, scanning back from `j`.
pub open spec fn ref_slot(sorted: RefTable, entry: (Seq<char>, (Seq<char>, u8)), j: int) -> int
    decreases j,
{
    if 0 < j <= sorted.len() && ref_before(entry, sorted[j - 1]) {
        ref_slot(sorted, entry, j - 1)
    } else {
        j
    }
}

/// The proposals from index `i` on sorted into `acc`.
pub open spec fn ordered_refs_from(refs: RefTable, i: int, acc: RefTable) -> RefTable
    decreases refs.len() - i,
{
    if i < 0 || i >= refs.len() {
        acc
    } else {
        ordered_refs_from(refs, i + 1, acc.insert(ref_slot(acc, refs[i], acc.len() as int), refs[i]))
    }
}

/// The proposals in the order of emission.
pub open spec fn ordered_refs(refs: RefTable) -> RefTable {
    ordered_refs_from(refs, 0, Seq::empty())
}

/// The declarations of the proposals from index `i` on, appended to `acc`.
pub open spec fn declarations_from(refs: RefTable, i: int, acc: Seq<Seq<char>>) -> Seq<Seq<char>>
    decreases refs.len() - i,
{
    if i < 0 || i >= refs.len() {
        acc
    } else {
        declarations_from(refs, i + 1, acc.push(refs[i].1.0))
    }
}

/// The table without the entries of the sources from index `i` on; a
/// source on the keep-list stays.
pub open spec fn without_sources_from(
    table: ImportTable,
    sources: Seq<Seq<char>>,
    keep: Seq<Seq<char>>,
    i: int,
) -> ImportTable
    decreases sources.len() - i,
{
    if i < 0 || i >= sources.len() {
        table
    } else if keep.contains(sources[i]) {
        without_sources_from(table, sources, keep, i + 1)
    } else {
        without_sources_from(remove_key(table, sources[i]), sources, keep, i + 1)
    }
}

/// The sources that are never removed.
pub open spec fn keep_list(config: TransformerConfigModel) -> Seq<Seq<char>> {
    match config.import_keeplist {
        Some(keep) => keep,
        None => Seq::empty(),
    }
}

/// The table with `name` among the names of `path`, added when missing.
pub open spec fn ensure_name(table: ImportTable, path: Seq<char>, name: Seq<char>) -> ImportTable {
    let i = key_index(table, path, 0);
    if 0 <= i < table.len() && table[i].1.contains(name) {
        table
    } else {
        add_names(table, path, seq![name])
    }
}

/// The results of the units from index `i` on merged into `acc`.
pub open spec fn merge_results_from(units: Seq<(Seq<char>, ResultModel)>, i: int, acc: ResultModel) -> ResultModel
    decreases units.len() - i,
{
    if i < 0 || i >= units.len() {
        acc
    } else {
        merge_results_from(units, i + 1, merged(acc, units[i].1))
    }
}

/// Whether a unit from index `i` on contributes a computed declaration.
pub open spec fn any_computed_from(units: Seq<(Seq<char>, ResultModel)>, i: int) -> bool
    decreases units.len() - i,
{
    if i < 0 || i >= units.len() {
        false
    } else {
        units[i].1.computed_properties.len() > 0 || any_computed_from(units, i + 1)
    }
}

/// The merged result made ready for assembly: sources marked for removal
/// leave the import table unless they are on the keep-list, the surviving
/// reactive declarations go to the end of the reactive state in their order
/// of emission, and `computed` is imported when a unit declared a computed
/// property.
pub open spec fn finalized(m: ResultModel, has_computed: bool, keep: Seq<Seq<char>>) -> ResultModel {
    let kept = without_sources_from(m.imports_to_add, m.imports_to_remove, keep, 0);
    ResultModel {
        imports_to_add: if has_computed {
            ensure_name(kept, "vue"@, "computed"@)
        } else {
            kept
        },
        reactive_state: declarations_from(ordered_refs(m.data_refs), 0, m.reactive_state),
        ..m
    }
}

/// The results of the units merged into `start`, in the order given, and
/// made ready for assembly.
pub open spec fn merged_results(
    start: ResultModel,
    units: Seq<(Seq<char>, ResultModel)>,
    keep: Seq<Seq<char>>,
) -> ResultModel {
    finalized(merge_results_from(units, 0, start), any_computed_from(units, 0), keep)
}

/// The results of the units from index `i` on that apply, with their
/// names, appended to `acc`.
pub open spec fn outputs_from(
    kinds: Seq<TransformerKind>,
    i: int,
    acc: Seq<(Seq<char>, ResultModel)>,
    context: ContextModel,
    config: TransformerConfigModel,
) -> Seq<(Seq<char>, ResultModel)>
    decreases kinds.len() - i,
{
    if i < 0 || i >= kinds.len() {
        acc
    } else if unit_applies(kinds[i], context, config) {
        outputs_from(
            kinds,
            i + 1,
            acc.push((unit_name(kinds[i]), unit_output(kinds[i], context, config))),
            context,
            config,
        )
    } else {
        outputs_from(kinds, i + 1, acc, context, config)
    }
}

/// What the given units make of a component: every unit that applies
/// contributes, in the order given, and the contributions are merged.
pub open spec fn orchestrated(
    kinds: Seq<TransformerKind>,
    context: ContextModel,
    config: TransformerConfigModel,
) -> ResultModel {
    merged_results(empty_result(), outputs_from(kinds, 0, Seq::empty(), context, config), keep_list(config))
}

/// Removing sources keeps every source of the table once.
pub proof fn lemma_without_sources_keeps_keys_distinct(
    table: ImportTable,
    sources: Seq<Seq<char>>,
    keep: Seq<Seq<char>>,
    i: int,
)
    requires
        keys_distinct(table),
        0 <= i,
    ensures
        keys_distinct(without_sources_from(table, sources, keep, i)),
    decreases sources.len() - i,
{
    if i < sources.len() {
        if keep.contains(sources[i]) {
            lemma_without_sources_keeps_keys_distinct(table, sources, keep, i + 1);
        } else {
            lemma_table_steps_keep_keys_distinct(table, Seq::empty(), sources[i], Seq::empty(), Seq::empty(), 0);
            lemma_without_sources_keeps_keys_distinct(remove_key(table, sources[i]), sources, keep, i + 1);
        }
    }
}

/// Merging the results of units keeps every key of the tables once.
pub proof fn lemma_merge_results_keep_well_formed(units: Seq<(Seq<char>, ResultModel)>, i: int, acc: ResultModel)
    requires
        acc.well_formed(),
        0 <= i,
    ensures
        merge_results_from(units, i, acc).well_formed(),
    decreases units.len() - i,
{
    if i < units.len() {
        lemma_merge_keeps_well_formed(acc, units[i].1);
        lemma_merge_results_keep_well_formed(units, i + 1, merged(acc, units[i].1));
    }
}

/// What the orchestrator hands to the assembler holds each import source
/// and each property name once, whatever the units contributed.
pub proof fn lemma_merged_results_are_well_formed(
    start: ResultModel,
    units: Seq<(Seq<char>, ResultModel)>,
    keep: Seq<Seq<char>>,
)
    requires
        start.well_formed(),
    ensures
        merged_results(start, units, keep).well_formed(),
{
    lemma_merge_results_keep_well_formed(units, 0, start);
    let m = merge_results_from(units, 0, start);
    lemma_without_sources_keeps_keys_distinct(m.imports_to_add, m.imports_to_remove, keep, 0);
    let kept = without_sources_from(m.imports_to_add, m.imports_to_remove, keep, 0);
    lemma_table_steps_keep_keys_distinct(kept, Seq::empty(), "vue"@, seq!["computed"@], Seq::empty(), 0);
}

/// Whether the proposals stand in the order of emission: from the highest
/// priority to the lowest, and by the alphabet of the names among equals.
pub open spec fn emission_order(refs: RefTable) -> bool {
    forall|i: int, j: int|
        0 <= i < j < refs.len() ==> (#[trigger] refs[i]).1.1 > (#[trigger] refs[j]).1.1 || (refs[i].1.1
            == refs[j].1.1 && !text::less(refs[j].0, refs[i].0))
}

/// What is not emitted before a second proposal, while that is not emitted
/// before a third, is not emitted before the third.
proof fn lemma_not_before_chain(
    a: (Seq<char>, (Seq<char>, u8)),
    b: (Seq<char>, (Seq<char>, u8)),
    c: (Seq<char>, (Seq<char>, u8)),
)
    requires
        !ref_before(a, b),
        !ref_before(b, c),
    ensures
        !ref_before(a, c),
{
    if a.1.1 == b.1.1 && b.1.1 == c.1.1 && text::less(a.0, c.0) {
        if a.0 != b.0 {
            text::lemma_less_connected(a.0, b.0, 0);
            text::lemma_less_transitive(b.0, a.0, c.0, 0);
        }
    }
}

/// Sorting proposals into a table that stands in the order of emission
/// gives a table in the order of emission.
pub proof fn lemma_ordering_sorts(refs: RefTable, i: int, acc: RefTable)
    requires
        0 <= i <= refs.len(),
        emission_order(acc),
    ensures
        emission_order(ordered_refs_from(refs, i, acc)),
        ordered_refs_from(refs, i, acc).len() == acc.len() + refs.len() - i,
    decreases refs.len() - i,
{
    if i < refs.len() {
        let x = refs[i];
        let slot = ref_slot(acc, x, acc.len() as int);
        lemma_ref_slot(acc, x, acc.len() as int);
        let next = acc.insert(slot, x);
        assert forall|k: int| 0 <= k < next.len() implies (#[trigger] next[k]) == (if k < slot {
            acc[k]
        } else if k == slot {
            x
        } else {
            acc[k - 1]
        }) by {}
        assert forall|p: int, q: int| 0 <= p < q < next.len() implies !ref_before(
            #[trigger] next[q],
            #[trigger] next[p],
        ) by {
            if q < slot {
                assert(next[p] == acc[p] && next[q] == acc[q]);
            } else if q == slot {
                assert(next[p] == acc[p]);
                if p < slot - 1 {
                    assert(!ref_before(acc[slot - 1], acc[p]));
                    lemma_not_before_chain(x, acc[slot - 1], acc[p]);
                }
            } else if p == slot {
                assert(next[q] == acc[q - 1]);
                assert(ref_before(x, acc[q - 1]));
                if text::less(x.0, acc[q - 1].0) && text::less(acc[q - 1].0, x.0) {
                    text::lemma_less_transitive(x.0, acc[q - 1].0, x.0, 0);
                    text::lemma_less_irreflexive(x.0, 0);
                }
            } else if p > slot {
                assert(next[p] == acc[p - 1] && next[q] == acc[q - 1]);
            } else {
                assert(next[p] == acc[p] && next[q] == acc[q - 1]);
            }
        }
        assert(emission_order(next)) by {
            assert forall|p: int, q: int| 0 <= p < q < next.len() implies (#[trigger] next[p]).1.1 > (
            #[trigger] next[q]).1.1 || (next[p].1.1 == next[q].1.1 && !text::less(next[q].0, next[p].0)) by {
                assert(!ref_before(next[q], next[p]));
            }
        }
        lemma_ordering_sorts(refs, i + 1, next);
    }
}

/// The place of a proposal lies behind everything that it is not emitted
/// before, and in front of everything that it is emitted before.
pub proof fn lemma_ref_slot(sorted: RefTable, entry: (Seq<char>, (Seq<char>, u8)), j: int)
    requires
        0 <= j <= sorted.len(),
    ensures
        0 <= ref_slot(sorted, entry, j) <= j,
        ref_slot(sorted, entry, j) > 0 ==> !ref_before(entry, sorted[ref_slot(sorted, entry, j) - 1]),
        forall|m: int| ref_slot(sorted, entry, j) <= m < j ==> ref_before(entry, #[trigger] sorted[m]),
    decreases j,
{
    if 0 < j && ref_before(entry, sorted[j - 1]) {
        lemma_ref_slot(sorted, entry, j - 1);
    }
}

/// The declarations are emitted one for each proposal, in the order of the
/// table, behind what was there.
pub proof fn lemma_declarations_from(refs: RefTable, j: int, acc: Seq<Seq<char>>)
    requires
        0 <= j <= refs.len(),
    ensures
        declarations_from(refs, j, acc).len() == acc.len() + refs.len() - j,
        forall|i: int| 0 <= i < acc.len() ==> (#[trigger] declarations_from(refs, j, acc)[i]) == acc[i],
        forall|i: int|
            j <= i < refs.len() ==> (#[trigger] declarations_from(refs, j, acc)[acc.len() + i - j])
                == refs[i].1.0,
    decreases refs.len() - j,
{
    if j < refs.len() {
        let next = acc.push(refs[j].1.0);
        lemma_declarations_from(refs, j + 1, next);
        let all = declarations_from(refs, j, acc);
        assert forall|i: int| 0 <= i < acc.len() implies (#[trigger] all[i]) == acc[i] by {
            assert(next[i] == acc[i]);
        }
        assert forall|i: int| j <= i < refs.len() implies (#[trigger] all[acc.len() + i - j])
            == refs[i].1.0 by {
            if i == j {
                assert(all[acc.len() as int] == next[acc.len() as int]);
            } else {
                assert(all[next.len() + i - (j + 1)] == refs[i].1.0);
            }
        }
    }
}

/// The reactive declarations come out by priority, then by name: behind
/// what the reactive state held, the result holds one declaration for each
/// proposal of the table, those of a higher priority before those of a
/// lower one, and among those of one priority in the alphabet of the
/// property names.
pub proof fn lemma_declarations_come_out_sorted(m: ResultModel, has_computed: bool, keep: Seq<Seq<char>>)
    ensures
        ({
            let ordered = ordered_refs(m.data_refs);
            let state = finalized(m, has_computed, keep).reactive_state;
            &&& emission_order(ordered)
            &&& ordered.len() == m.data_refs.len()
            &&& state.len() == m.reactive_state.len() + ordered.len()
            &&& forall|i: int| 0 <= i < m.reactive_state.len() ==> (#[trigger] state[i]) == m.reactive_state[i]
            &&& forall|i: int|
                0 <= i < ordered.len() ==> (#[trigger] state[m.reactive_state.len() + i - 0]) == ordered[i].1.0
        }),
{
    lemma_ordering_sorts(m.data_refs, 0, Seq::empty());
    lemma_declarations_from(ordered_refs(m.data_refs), 0, m.reactive_state);
}

/// Ordering loses no proposal: what is in `acc` or among the proposals
/// from index `i` on is in the ordered table.
pub proof fn lemma_ordering_keeps_all(refs: RefTable, i: int, acc: RefTable)
    requires
        0 <= i <= refs.len(),
    ensures
        forall|k: int| 0 <= k < acc.len() ==> ordered_refs_from(refs, i, acc).contains(#[trigger] acc[k]),
        forall|k: int| i <= k < refs.len() ==> ordered_refs_from(refs, i, acc).contains(#[trigger] refs[k]),
    decreases refs.len() - i,
{
    if i < refs.len() {
        let slot = ref_slot(acc, refs[i], acc.len() as int);
        lemma_ref_slot(acc, refs[i], acc.len() as int);
        let next = acc.insert(slot, refs[i]);
        lemma_ordering_keeps_all(refs, i + 1, next);
        assert(next[slot] == refs[i]);
        assert forall|k: int| 0 <= k < acc.len() implies ordered_refs_from(refs, i, acc).contains(
            #[trigger] acc[k],
        ) by {
            if k < slot {
                assert(next[k] == acc[k]);
            } else {
                assert(next[k + 1] == acc[k]);
            }
        }
    }
}

/// Emission loses no declaration: what is in `acc` or declared by a
/// proposal from index `i` on is among the emitted lines.
pub proof fn lemma_declarations_keep_all(refs: RefTable, i: int, acc: Seq<Seq<char>>)
    requires
        0 <= i <= refs.len(),
    ensures
        forall|k: int| 0 <= k < acc.len() ==> declarations_from(refs, i, acc).contains(#[trigger] acc[k]),
        forall|k: int| i <= k < refs.len() ==> declarations_from(refs, i, acc).contains((#[trigger] refs[k]).1.0),
    decreases refs.len() - i,
{
    if i < refs.len() {
        let next = acc.push(refs[i].1.0);
        lemma_declarations_keep_all(refs, i + 1, next);
        assert(next[acc.len() as int] == refs[i].1.0);
        assert forall|k: int| 0 <= k < acc.len() implies declarations_from(refs, i, acc).contains(
            #[trigger] acc[k],
        ) by {
            assert(next[k] == acc[k]);
        }
    }
}

/// Every proposal that is in the table when the merge is over has its
/// declaration in the reactive state of the result.
pub proof fn lemma_surviving_proposals_are_emitted(
    m: ResultModel,
    has_computed: bool,
    keep: Seq<Seq<char>>,
    k: int,
)
    requires
        0 <= k < m.data_refs.len(),
    ensures
        finalized(m, has_computed, keep).reactive_state.contains(m.data_refs[k].1.0),
{
    lemma_ordering_keeps_all(m.data_refs, 0, Seq::empty());
    let ordered = ordered_refs(m.data_refs);
    assert(ordered.contains(m.data_refs[k]));
    let j = choose|j: int| 0 <= j < ordered.len() && ordered[j] == m.data_refs[k];
    lemma_declarations_keep_all(ordered, 0, m.reactive_state);
    assert(declarations_from(ordered, 0, m.reactive_state).contains(ordered[j].1.0));
}

/// Priority decides, not the order of registration: when one unit proposes
/// a declaration for a property with a lower priority and another unit one
/// with a strictly higher priority, the merged result holds the
/// declaration of the higher priority in its reactive state, whichever of
/// the two units comes first.
pub proof fn lemma_higher_priority_is_emitted(
    low_unit: (Seq<char>, ResultModel),
    high_unit: (Seq<char>, ResultModel),
    name: Seq<char>,
    low: Seq<char>,
    low_priority: u8,
    high: Seq<char>,
    high_priority: u8,
    keep: Seq<Seq<char>>,
)
    requires
        low_priority < high_priority,
        low_unit.1.data_refs == seq![(name, (low, low_priority))],
        high_unit.1.data_refs == seq![(name, (high, high_priority))],
    ensures
        merged_results(empty_result(), seq![low_unit, high_unit], keep).reactive_state.contains(high),
        merged_results(empty_result(), seq![high_unit, low_unit], keep).reactive_state.contains(high),
{
    let empty: RefTable = Seq::empty();
    crate::result::lemma_priority_wins(empty, name, low, low_priority, high, high_priority);
    let first = seq![low_unit, high_unit];
    let second = seq![high_unit, low_unit];
    let m1 = merge_results_from(first, 0, empty_result());
    let m2 = merge_results_from(second, 0, empty_result());
    assert(m1 == merged(merged(empty_result(), low_unit.1), high_unit.1)) by {
        assert(merge_results_from(first, 2, merged(merged(empty_result(), first[0].1), first[1].1))
            == merged(merged(empty_result(), first[0].1), first[1].1));
        assert(merge_results_from(first, 1, merged(empty_result(), first[0].1)) == merge_results_from(
            first,
            2,
            merged(merged(empty_result(), first[0].1), first[1].1),
        ));
    }
    assert(m2 == merged(merged(empty_result(), high_unit.1), low_unit.1)) by {
        assert(merge_results_from(second, 2, merged(merged(empty_result(), second[0].1), second[1].1))
            == merged(merged(empty_result(), second[0].1), second[1].1));
        assert(merge_results_from(second, 1, merged(empty_result(), second[0].1)) == merge_results_from(
            second,
            2,
            merged(merged(empty_result(), second[0].1), second[1].1),
        ));
    }
    let low_refs = low_unit.1.data_refs;
    let high_refs = high_unit.1.data_refs;
    assert(crate::result::merge_refs_from(empty, low_refs, 0) == crate::result::propose(
        empty,
        name,
        low,
        low_priority,
    )) by {
        assert(crate::result::merge_refs_from(
            crate::result::propose(empty, name, low, low_priority),
            low_refs,
            1,
        ) == crate::result::propose(empty, name, low, low_priority));
    }
    assert(crate::result::merge_refs_from(empty, high_refs, 0) == crate::result::propose(
        empty,
        name,
        high,
        high_priority,
    )) by {
        assert(crate::result::merge_refs_from(
            crate::result::propose(empty, name, high, high_priority),
            high_refs,
            1,
        ) == crate::result::propose(empty, name, high, high_priority));
    }
    let a = crate::result::propose(empty, name, low, low_priority);
    let b = crate::result::propose(empty, name, high, high_priority);
    assert(m1.data_refs == crate::result::propose(a, name, high, high_priority)) by {
        assert(crate::result::merge_refs_from(
            crate::result::propose(a, name, high, high_priority),
            high_refs,
            1,
        ) == crate::result::propose(a, name, high, high_priority));
    }
    assert(m2.data_refs == crate::result::propose(b, name, low, low_priority)) by {
        assert(crate::result::merge_refs_from(crate::result::propose(b, name, low, low_priority), low_refs, 1)
            == crate::result::propose(b, name, low, low_priority));
    }
    crate::result::lemma_key_index_bounds(m1.data_refs, name, 0);
    crate::result::lemma_key_index_bounds(m2.data_refs, name, 0);
    let k1 = key_index(m1.data_refs, name, 0);
    let k2 = key_index(m2.data_refs, name, 0);
    lemma_surviving_proposals_are_emitted(m1, any_computed_from(first, 0), keep, k1);
    lemma_surviving_proposals_are_emitted(m2, any_computed_from(second, 0), keep, k2);
}

/// Puts proposals in their order of emission.
pub fn order_refs(refs: &Vec<(String, (String, u8))>) -> (r: Vec<(String, (String, u8))>)
    ensures
        r.deep_view() == ordered_refs(refs.deep_view()),
{
    let mut out: Vec<(String, (String, u8))> = Vec::new();
    assert(out.deep_view() =~= Seq::empty());
    let ghost all = refs.deep_view();
    let mut i: usize = 0;
    while i < refs.len()
        invariant
            i <= refs.len(),
            all == refs.deep_view(),
            ordered_refs_from(all, 0, Seq::empty()) == ordered_refs_from(all, i as int, out.deep_view()),
        decreases refs.len() - i,
    {
        let entry = (refs[i].0.clone(), (refs[i].1.0.clone(), refs[i].1.1));
        assert(all[i as int] == entry.deep_view());
        let mut j: usize = out.len();
        while j > 0 && (entry.1.1 > out[j - 1].1.1 || (entry.1.1 == out[j - 1].1.1 && str_less(
            entry.0.as_str(),
            out[j - 1].0.as_str(),
        )))
            invariant
                j <= out.len(),
                ref_slot(out.deep_view(), entry.deep_view(), out.len() as int) == ref_slot(
                    out.deep_view(),
                    entry.deep_view(),
                    j as int,
                ),
            decreases j,
        {
            assert(out.deep_view()[j - 1] == out@[j - 1].deep_view());
            j -= 1;
        }
        assert(j > 0 ==> out.deep_view()[j - 1] == out@[j - 1].deep_view());
        let ghost before = out.deep_view();
        let ghost e = entry.deep_view();
        out.insert(j, entry);
        assert(out.deep_view() =~= before.insert(j as int, e));
        i += 1;
    }
    out
}

fn remove_sources(table: &mut Vec<(String, Vec<String>)>, sources: &Vec<String>, keep: &Vec<String>)
    ensures
        final(table).deep_view() == without_sources_from(
            old(table).deep_view(),
            sources.deep_view(),
            keep.deep_view(),
            0,
        ),
{
    let ghost all = sources.deep_view();
    let mut i: usize = 0;
    while i < sources.len()
        invariant
            i <= sources.len(),
            all == sources.deep_view(),
            without_sources_from(old(table).deep_view(), all, keep.deep_view(), 0) == without_sources_from(
                table.deep_view(),
                all,
                keep.deep_view(),
                i as int,
            ),
        decreases sources.len() - i,
    {
        assert(all[i as int] == sources@[i as int]@);
        if !list_contains(keep, sources[i].as_str()) {
            table_remove(table, sources[i].as_str());
        }
        i += 1;
    }
}

fn keep_list_of(config: &TransformerConfig) -> (r: Vec<String>)
    ensures
        r.deep_view() == keep_list(config.deep_view()),
{
    match &config.import_keeplist {
        Some(keep) => clone_strings(keep),
        None => {
            let r: Vec<String> = Vec::new();
            assert(r.deep_view() =~= Seq::empty());
            r
        },
    }
}

fn append_declarations(lines: &mut Vec<String>, refs: &Vec<(String, (String, u8))>)
    ensures
        final(lines).deep_view() == declarations_from(refs.deep_view(), 0, old(lines).deep_view()),
{
    let ghost all = refs.deep_view();
    let mut i: usize = 0;
    while i < refs.len()
        invariant
            i <= refs.len(),
            all == refs.deep_view(),
            declarations_from(all, 0, old(lines).deep_view()) == declarations_from(
                all,
                i as int,
                lines.deep_view(),
            ),
        decreases refs.len() - i,
    {
        assert(all[i as int] == refs@[i as int].deep_view());
        push_deep(lines, refs[i].1.0.clone());
        i += 1;
    }
}

fn ensure_import(table: &mut Vec<(String, Vec<String>)>, path: &str, name: &str)
    ensures
        final(table).deep_view() == ensure_name(old(table).deep_view(), path@, name@),
{
    let i = find_key(table, path);
    if i < table.len() {
        assert(table.deep_view()[i as int].1 == table@[i as int].1.deep_view());
        if list_contains(&table[i].1, name) {
            return ;
        }
    }
    let mut names: Vec<String> = Vec::new();
    names.push(owned(name));
    assert(names.deep_view() =~= seq![name@]);
    table_add_names(table, path, &names);
}

/// The orchestrator: it holds the registered units and runs them.
#[derive(Debug, Clone)]
pub struct TransformerOrchestrator {
    transformers: Vec<TransformerKind>,
}

/// What rewrites a body in full, for the units to call.
#[derive(Debug, Clone, Copy)]
pub struct BodyTransformer;

impl BodyTransformer {
    /// Rewrites a body in full.
    pub fn apply(&self, body: &str, context: &TransformationContext, config: &TransformerConfig) -> (r: String)
        ensures
            r@ == body_rewritten(context.deep_view(), config.deep_view(), body@),
    {
        transform_body_text(body, context, config)
    }
}

impl TransformerOrchestrator {
    /// The units that this orchestrator runs, in order.
    pub closed spec fn units(&self) -> Seq<TransformerKind> {
        self.transformers@
    }

    /// An orchestrator with every unit registered.
    pub fn new() -> (r: Self)
        ensures
            r.units() == registered(),
    {
        TransformerOrchestrator { transformers: registered_kinds() }
    }

    /// The units that apply and rewrite bodies, in the order of
    /// registration.
    pub fn collect_body_transforms(&self, context: &TransformationContext, config: &TransformerConfig) -> (r:
        Vec<TransformerKind>)
        ensures
            r@ == body_units_from(self.units(), 0, Seq::empty(), context.deep_view(), config.deep_view()),
    {
        body_units(&self.transformers, context, config)
    }

    /// Rewrites a method body with every unit that applies, then with the
    /// generic rewrite.
    pub fn transform_method_body(&self, body: &str, context: &TransformationContext, config: &TransformerConfig) -> (r:
        String)
        ensures
            r@ == all_body_transforms(
                body@,
                context.deep_view(),
                config.deep_view(),
                body_units_from(self.units(), 0, Seq::empty(), context.deep_view(), config.deep_view()),
            ),
    {
        let units = self.collect_body_transforms(context, config);
        apply_all_body_transforms(body, context, config, &units)
    }

    /// What rewrites a body in full with all registered units.
    pub fn get_body_transformer() -> (r: BodyTransformer) {
        BodyTransformer
    }

    /// Runs every unit that applies and merges what they contribute.
    pub fn transform(&self, context: &TransformationContext, config: &TransformerConfig) -> (r:
        TransformationResult)
        ensures
            r.deep_view() == orchestrated(self.units(), context.deep_view(), config.deep_view()),
            r.deep_view().well_formed(),
    {
        let mut all_results: Vec<(&'static str, TransformationResult)> = Vec::new();
        assert(all_results.deep_view() =~= Seq::empty());
        let mut i: usize = 0;
        while i < self.transformers.len()
            invariant
                i <= self.transformers.len(),
                outputs_from(self.transformers@, 0, Seq::empty(), context.deep_view(), config.deep_view())
                    == outputs_from(
                    self.transformers@,
                    i as int,
                    all_results.deep_view(),
                    context.deep_view(),
                    config.deep_view(),
                ),
            decreases self.transformers.len() - i,
        {
            let kind = self.transformers[i];
            if kind_applies(kind, context, config) {
                let unit = (kind_name(kind), kind_transform(kind, context, config));
                push_deep(&mut all_results, unit);
            }
            i += 1;
        }
        let mut result = TransformationResult::new();
        Self::merge_results_intelligently(&mut result, all_results, &keep_list_of(config));
        result
    }

    /// Merges the results of the units into `result`, in the order given,
    /// and makes the outcome ready for assembly. The sources in `keep` are
    /// never removed from the imports.
    pub fn merge_results_intelligently(
        result: &mut TransformationResult,
        all_results: Vec<(&'static str, TransformationResult)>,
        keep: &Vec<String>,
    )
        ensures
            final(result).deep_view() == merged_results(
                old(result).deep_view(),
                all_results.deep_view(),
                keep.deep_view(),
            ),
            old(result).deep_view().well_formed() ==> final(result).deep_view().well_formed(),
    {
        let ghost units = all_results.deep_view();
        proof {
            if result.deep_view().well_formed() {
                lemma_merged_results_are_well_formed(result.deep_view(), units, keep.deep_view());
            }
        }
        let mut has_computed = false;
        let mut all = all_results;
        let mut i: usize = 0;
        let n = all.len();
        let mut merged_so_far: usize = 0;
        while i < n
            invariant
                i <= n,
                n == all.len(),
                units == all.deep_view(),
                merge_results_from(units, 0, old(result).deep_view()) == merge_results_from(
                    units,
                    i as int,
                    result.deep_view(),
                ),
                any_computed_from(units, 0) == (has_computed || any_computed_from(units, i as int)),
            decreases n - i,
        {
            assert(units[i as int].1 == all@[i as int].1.deep_view());
            if all[i].1.computed_properties.len() > 0 {
                has_computed = true;
            }
            Self::merge_one(result, &all[i].1);
            i += 1;
        }
        let removals = clone_strings(&result.imports_to_remove);
        remove_sources(&mut result.imports_to_add, &removals, keep);
        let sorted = order_refs(&result.data_refs);
        append_declarations(&mut result.reactive_state, &sorted);
        if has_computed {
            ensure_import(&mut result.imports_to_add, "vue", "computed");
        }
    }

    fn merge_one(result: &mut TransformationResult, unit: &TransformationResult)
        ensures
            final(result).deep_view() == merged(old(result).deep_view(), unit.deep_view()),
    {
        table_merge_imports(&mut result.imports_to_add, &unit.imports_to_add);
        extend_strings(&mut result.imports_to_remove, &unit.imports_to_remove);
        extend_strings(&mut result.setup, &unit.setup);
        extend_strings(&mut result.reactive_state, &unit.reactive_state);
        extend_strings(&mut result.computed_properties, &unit.computed_properties);
        extend_strings(&mut result.methods, &unit.methods);
        extend_strings(&mut result.watchers, &unit.watchers);
        extend_strings(&mut result.lifecycle_hooks, &unit.lifecycle_hooks);
        crate::result::extend_replacements(&mut result.template_replacements, &unit.template_replacements);
        extend_strings(&mut result.additional_scripts, &unit.additional_scripts);
        extend_strings(&mut result.skip_data_properties, &unit.skip_data_properties);
        extend_strings(&mut result.resolved_identifiers, &unit.resolved_identifiers);
        table_merge_refs(&mut result.data_refs, &unit.data_refs);
    }

    /// The names of the registered units, in order.
    pub fn available_transformers(&self) -> (r: Vec<&'static str>)
        ensures
            r@.len() == self.units().len(),
            forall|i: int| 0 <= i < r@.len() ==> (#[trigger] r@[i])@ == unit_name(self.units()[i]),
    {
        let mut out: Vec<&'static str> = Vec::new();
        let mut i: usize = 0;
        while i < self.transformers.len()
            invariant
                i <= self.transformers.len(),
                out@.len() == i,
                forall|k: int| 0 <= k < i ==> (#[trigger] out@[k])@ == unit_name(self.transformers@[k]),
            decreases self.transformers.len() - i,
        {
            out.push(kind_name(self.transformers[i]));
            i += 1;
        }
        out
    }
}

impl Default for TransformerOrchestrator {
    fn default() -> (r: Self)
        ensures
            r.units() == registered(),
    {
        TransformerOrchestrator::new()
    }
}

} // verus!
