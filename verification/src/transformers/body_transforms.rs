//! The rewrite that every method, getter, watcher and hook body goes
//! through last: accesses through `this` become accesses to reactive
//! values, props and local functions, and what stays unresolved is flagged.

use crate::model::{
    ContextModel, DataPropertyInfo, DataPropertyModel, MixinConfigModel, PropInfo, PropModel,
    TransformationContext, TransformerConfig, TransformerConfigModel,
};
use crate::patterns::{
    all_captures, capture_group, fills_from, group, interleave, pieces_between, replace_matches,
    text_before, Fill,
};
use crate::strs::{
    concat2, concat4, list_contains, owned, str_contains, str_eq, str_len, str_replace, str_replace_whole,
};
use crate::text;
use crate::text::push_deep;
use vstd::prelude::*;

verus! {

/// The pattern of an access through `this`: `this.` and a name.
pub const THIS_PROPERTY_PATTERN: &'static str = "this\\.([a-zA-Z_$][a-zA-Z0-9_$]*)";

/// Where a name sorts into a list that is ordered from long to short: after
/// every entry that is at least as long, scanning back from index `j`.
pub open spec fn length_slot(sorted: Seq<Seq<char>>, name: Seq<char>, j: int) -> int
    decreases j,
{
    if 0 < j <= sorted.len() && sorted[j - 1].len() < name.len() {
        length_slot(sorted, name, j - 1)
    } else {
        j
    }
}

/// The names from index `i` on sorted into `acc`, longest first; names of
/// one length keep their order.
pub open spec fn longest_first_from(names: Seq<Seq<char>>, i: int, acc: Seq<Seq<char>>) -> Seq<Seq<char>>
    decreases names.len() - i,
{
    if i < 0 || i >= names.len() {
        acc
    } else {
        longest_first_from(
            names,
            i + 1,
            acc.insert(length_slot(acc, names[i], acc.len() as int), names[i]),
        )
    }
}

/// The names ordered from long to short, so that a name is replaced before
/// any name that is a part of it.
pub open spec fn longest_first(names: Seq<Seq<char>>) -> Seq<Seq<char>> {
    longest_first_from(names, 0, Seq::empty())
}

/// Orders names from long to short.
pub fn sort_longest_first(names: &Vec<String>) -> (r: Vec<String>)
    ensures
        r.deep_view() == longest_first(names.deep_view()),
{
    let mut out: Vec<String> = Vec::new();
    assert(out.deep_view() =~= Seq::empty());
    let ghost all = names.deep_view();
    let mut i: usize = 0;
    while i < names.len()
        invariant
            i <= names.len(),
            all == names.deep_view(),
            out.len() == i,
            longest_first_from(all, 0, Seq::empty()) == longest_first_from(all, i as int, out.deep_view()),
        decreases names.len() - i,
    {
        let name = names[i].clone();
        assert(all[i as int] == name@);
        let width = str_len(name.as_str());
        let mut j: usize = out.len();
        while j > 0 && str_len(out[j - 1].as_str()) < width
            invariant
                j <= out.len(),
                width == name@.len(),
                length_slot(out.deep_view(), name@, out.len() as int) == length_slot(
                    out.deep_view(),
                    name@,
                    j as int,
                ),
            decreases j,
        {
            assert(out.deep_view()[j - 1] == out@[j - 1]@);
            j -= 1;
        }
        assert(j > 0 ==> out.deep_view()[j - 1] == out@[j - 1]@);
        let ghost before = out.deep_view();
        out.insert(j, name);
        assert(out.deep_view() =~= before.insert(j as int, name@));
        i += 1;
    }
    out
}

/// How an access through `this` to a known name is rewritten.
#[derive(Clone, Copy, Debug)]
pub enum RefForm {
    /// `this.x` becomes `x.value`.
    Value,
    /// `this.x` becomes `props.x`.
    Prop,
    /// `this.x(` becomes `x(`.
    Call,
    /// `this.x` becomes `x`, unless the body still calls `this.x(`.
    Bare,
}

/// The body with the accesses to one name rewritten. An access counts
/// only where the name ends: `this.count` inside `this.countItems` is an
/// access to another name and stays.
pub open spec fn rewrite_one(body: Seq<char>, form: RefForm, name: Seq<char>) -> Seq<char> {
    let access = "this."@ + name;
    match form {
        RefForm::Value => text::replace_whole(body, access, name + ".value"@),
        RefForm::Prop => text::replace_whole(body, access, "props."@ + name),
        RefForm::Call => text::replace(body, access + "("@, name + "("@),
        RefForm::Bare => if text::contains(body, access) && !text::contains(body, access + "("@) {
            text::replace_whole(body, access, name)
        } else {
            body
        },
    }
}

/// A shorter name does not capture a longer one: a body in which every
/// occurrence of `this.` and the name runs on into a longer name is left
/// as it is by the rewrite of that name.
pub proof fn lemma_longer_name_is_not_captured(body: Seq<char>, name: Seq<char>)
    requires
        forall|k: int| 0 <= k ==> !text::whole_at(body, "this."@ + name, k),
    ensures
        rewrite_one(body, RefForm::Value, name) == body,
        rewrite_one(body, RefForm::Prop, name) == body,
        rewrite_one(body, RefForm::Bare, name) == body,
{
    text::lemma_replace_whole_leaves_longer_names(body, "this."@ + name, name + ".value"@, 0);
    text::lemma_replace_whole_leaves_longer_names(body, "this."@ + name, "props."@ + name, 0);
    text::lemma_replace_whole_leaves_longer_names(body, "this."@ + name, name, 0);
    assert(body.subrange(0, body.len() as int) =~= body);
}

/// The body with the accesses to the names from index `i` on rewritten, one
/// name after the other.
pub open spec fn rewrite_names_from(body: Seq<char>, form: RefForm, names: Seq<Seq<char>>, i: int) -> Seq<char>
    decreases names.len() - i,
{
    if i < 0 || i >= names.len() {
        body
    } else {
        rewrite_names_from(rewrite_one(body, form, names[i]), form, names, i + 1)
    }
}

fn rewrite_one_name(body: &str, form: RefForm, name: &str) -> (r: String)
    ensures
        r@ == rewrite_one(body@, form, name@),
{
    let access = concat2("this.", name);
    match form {
        RefForm::Value => str_replace_whole(body, access.as_str(), concat2(name, ".value").as_str()),
        RefForm::Prop => str_replace_whole(body, access.as_str(), concat2("props.", name).as_str()),
        RefForm::Call => str_replace(
            body,
            concat2(access.as_str(), "(").as_str(),
            concat2(name, "(").as_str(),
        ),
        RefForm::Bare => {
            if str_contains(body, access.as_str()) && !str_contains(
                body,
                concat2(access.as_str(), "(").as_str(),
            ) {
                str_replace_whole(body, access.as_str(), name)
            } else {
                owned(body)
            }
        },
    }
}

/// Rewrites the accesses to each of `names` in turn.
pub fn rewrite_names(body: String, form: RefForm, names: &Vec<String>) -> (r: String)
    ensures
        r@ == rewrite_names_from(body@, form, names.deep_view(), 0),
{
    let mut current = body;
    let ghost all = names.deep_view();
    let mut i: usize = 0;
    while i < names.len()
        invariant
            i <= names.len(),
            all == names.deep_view(),
            rewrite_names_from(body@, form, all, 0) == rewrite_names_from(current@, form, all, i as int),
        decreases names.len() - i,
    {
        assert(all[i as int] == names@[i as int]@);
        current = rewrite_one_name(current.as_str(), form, names[i].as_str());
        i += 1;
    }
    current
}

/// The names of the data fields.
pub open spec fn data_names(data: Seq<DataPropertyModel>) -> Seq<Seq<char>> {
    data.map_values(|d: DataPropertyModel| d.name)
}

/// The names of the props.
pub open spec fn prop_names(props: Seq<PropModel>) -> Seq<Seq<char>> {
    props.map_values(|p: PropModel| p.name)
}

pub fn data_names_of(data: &Vec<DataPropertyInfo>) -> (r: Vec<String>)
    ensures
        r.deep_view() == data_names(data.deep_view()),
{
    let mut out: Vec<String> = Vec::new();
    let mut i: usize = 0;
    while i < data.len()
        invariant
            i <= data.len(),
            out.len() == i,
            forall|j: int| 0 <= j < i ==> #[trigger] out.deep_view()[j] == data@[j].name@,
        decreases data.len() - i,
    {
        push_deep(&mut out, data[i].name.clone());
        i += 1;
    }
    assert(out.deep_view() =~= data_names(data.deep_view()));
    out
}

pub fn prop_names_of(props: &Vec<PropInfo>) -> (r: Vec<String>)
    ensures
        r.deep_view() == prop_names(props.deep_view()),
{
    let mut out: Vec<String> = Vec::new();
    let mut i: usize = 0;
    while i < props.len()
        invariant
            i <= props.len(),
            out.len() == i,
            forall|j: int| 0 <= j < i ==> #[trigger] out.deep_view()[j] == props@[j].name@,
        decreases props.len() - i,
    {
        push_deep(&mut out, props[i].name.clone());
        i += 1;
    }
    assert(out.deep_view() =~= prop_names(props.deep_view()));
    out
}

/// The names that the framework itself puts on every component instance.
pub open spec fn is_framework_name(name: Seq<char>) -> bool {
    name == "$axios"@ || name == "$http"@ || name == "$api"@ || name == "$fetch"@ || name == "$route"@
        || name == "$router"@ || name == "$store"@ || name == "$vuex"@ || name == "$t"@ || name
        == "$i18n"@ || name == "$n"@ || name == "$d"@ || name == "$config"@ || name == "$nextTick"@
        || name == "$refs"@ || name == "$emit"@ || name == "$nuxt"@ || name == "$options"@ || name
        == "$parent"@ || name == "$children"@ || name == "$el"@ || name == "$data"@ || name
        == "$props"@ || name == "$attrs"@ || name == "$slots"@ || name == "$scopedSlots"@ || name
        == "$set"@ || name == "$delete"@ || name == "$watch"@ || name == "$forceUpdate"@ || name
        == "$destroy"@
}

pub fn is_framework_variable(name: &str) -> (r: bool)
    ensures
        r == is_framework_name(name@),
{
    str_eq(name, "$axios") || str_eq(name, "$http") || str_eq(name, "$api") || str_eq(name, "$fetch")
        || str_eq(name, "$route") || str_eq(name, "$router") || str_eq(name, "$store") || str_eq(
        name,
        "$vuex",
    ) || str_eq(name, "$t") || str_eq(name, "$i18n") || str_eq(name, "$n") || str_eq(name, "$d")
        || str_eq(name, "$config") || str_eq(name, "$nextTick") || str_eq(name, "$refs") || str_eq(
        name,
        "$emit",
    ) || str_eq(name, "$nuxt") || str_eq(name, "$options") || str_eq(name, "$parent") || str_eq(
        name,
        "$children",
    ) || str_eq(name, "$el") || str_eq(name, "$data") || str_eq(name, "$props") || str_eq(
        name,
        "$attrs",
    ) || str_eq(name, "$slots") || str_eq(name, "$scopedSlots") || str_eq(name, "$set") || str_eq(
        name,
        "$delete",
    ) || str_eq(name, "$watch") || str_eq(name, "$forceUpdate") || str_eq(name, "$destroy")
}

/// Whether a configured composable hands out a member called `name`.
pub open spec fn is_mixin_member(config: TransformerConfigModel, name: Seq<char>) -> bool {
    match config.mixins {
        Some(table) => hands_out(table, name),
        None => false,
    }
}

/// Whether one of the composables of `table` hands out `name`.
pub open spec fn hands_out(table: Seq<(Seq<char>, MixinConfigModel)>, name: Seq<char>) -> bool {
    exists|i: int| 0 <= i < table.len() && (#[trigger] table[i]).1.imports.contains(name)
}

pub fn is_mixin_property(config: &TransformerConfig, name: &str) -> (r: bool)
    ensures
        r == is_mixin_member(config.deep_view(), name@),
{
    match &config.mixins {
        Some(table) => {
            let mut i: usize = 0;
            while i < table.len()
                invariant
                    i <= table.len(),
                    config.mixins == Some(*table),
                    forall|j: int|
                        0 <= j < i ==> !(#[trigger] table.deep_view()[j]).1.imports.contains(name@),
                decreases table.len() - i,
            {
                assert(table.deep_view()[i as int].1.imports == table@[i as int].1.imports.deep_view());
                if list_contains(&table[i].1.imports, name) {
                    assert(table.deep_view()[i as int].1.imports.contains(name@));
                    assert(hands_out(table.deep_view(), name@));
                    return true;
                }
                i += 1;
            }
            false
        },
        None => false,
    }
}

/// Whether the component itself declares `name`: as a data field, a
/// computed property, a prop or a method.
pub open spec fn is_component_member(context: ContextModel, name: Seq<char>) -> bool {
    let script = context.script;
    data_names(script.data_properties).contains(name) || script.computed_properties.contains(name)
        || prop_names(script.props).contains(name) || script.methods.contains(name)
}

pub fn is_known_member(context: &TransformationContext, name: &str) -> (r: bool)
    ensures
        r == is_component_member(context.deep_view(), name@),
{
    let data = data_names_of(&context.script_state.data_properties);
    let props = prop_names_of(&context.script_state.props);
    list_contains(&data, name) || list_contains(&context.script_state.computed_properties, name)
        || list_contains(&props, name) || list_contains(&context.script_state.methods, name)
}

/// The visible mark put on an access to a name that nothing declares.
pub open spec fn flagged(name: Seq<char>) -> Seq<char> {
    "/* FIXME: "@ + name + " */ "@ + name
}

/// What takes the place of `this.name` once every known name was handled:
/// the bare name where the component, the framework or a configured
/// composable knows it, and the flagged name everywhere else.
pub open spec fn resolution(
    context: ContextModel,
    config: TransformerConfigModel,
    name: Seq<char>,
) -> Seq<char> {
    if is_component_member(context, name) || is_framework_name(name) || is_mixin_member(config, name) {
        name
    } else {
        flagged(name)
    }
}

/// Chooses what takes the place of `this.name`.
pub fn resolve_reference(context: &TransformationContext, config: &TransformerConfig, name: &str) -> (r: String)
    ensures
        r@ == resolution(context.deep_view(), config.deep_view(), name@),
{
    if is_known_member(context, name) || is_framework_variable(name) || is_mixin_property(config, name) {
        owned(name)
    } else {
        concat4("/* FIXME: ", name, " */ ", name)
    }
}

/// An access through `this` to a name that neither the component nor the
/// framework nor any configured composable knows is never dropped or
/// renamed: what replaces it starts with the mark that names it and ends
/// with the name itself.
pub proof fn lemma_unresolved_is_flagged(
    context: ContextModel,
    config: TransformerConfigModel,
    name: Seq<char>,
)
    requires
        !is_component_member(context, name),
        !is_framework_name(name),
        !is_mixin_member(config, name),
    ensures
        resolution(context, config, name) == "/* FIXME: "@ + name + " */ "@ + name,
        text::starts_with(resolution(context, config, name), "/* FIXME: "@ + name + " */ "@),
        text::ends_with(resolution(context, config, name), name),
{
    let mark = "/* FIXME: "@ + name + " */ "@;
    let r = resolution(context, config, name);
    assert(r.subrange(0, mark.len() as int) =~= mark);
    assert(r.subrange(r.len() - name.len(), r.len() as int) =~= name);
}

/// The replacements for the accesses that the matches from index `i` on
/// found, appended to `acc`.
pub open spec fn resolutions_from(
    context: ContextModel,
    config: TransformerConfigModel,
    found: Seq<Seq<Option<Seq<char>>>>,
    i: int,
    acc: Seq<Seq<char>>,
) -> Seq<Seq<char>>
    decreases found.len() - i,
{
    if i < 0 || i >= found.len() {
        acc
    } else {
        resolutions_from(context, config, found, i + 1, acc.push(resolution(context, config, group(found[i], 1))))
    }
}

/// The replacements come one for each match, in order.
pub proof fn lemma_resolutions_from(
    context: ContextModel,
    config: TransformerConfigModel,
    found: Seq<Seq<Option<Seq<char>>>>,
    j: int,
    acc: Seq<Seq<char>>,
)
    requires
        0 <= j <= found.len(),
    ensures
        resolutions_from(context, config, found, j, acc).len() == acc.len() + found.len() - j,
        forall|i: int|
            0 <= i < acc.len() ==> (#[trigger] resolutions_from(context, config, found, j, acc)[i]) == acc[i],
        forall|i: int|
            j <= i < found.len() ==> (#[trigger] resolutions_from(context, config, found, j, acc)[acc.len() + i
                - j]) == resolution(context, config, group(found[i], 1)),
    decreases found.len() - j,
{
    if j < found.len() {
        let next = acc.push(resolution(context, config, group(found[j], 1)));
        lemma_resolutions_from(context, config, found, j + 1, next);
        let all = resolutions_from(context, config, found, j, acc);
        assert forall|i: int| 0 <= i < acc.len() implies (#[trigger] all[i]) == acc[i] by {
            assert(next[i] == acc[i]);
        }
        assert forall|i: int| j <= i < found.len() implies (#[trigger] all[acc.len() + i - j]) == resolution(
            context,
            config,
            group(found[i], 1),
        ) by {
            if i == j {
                assert(all[acc.len() as int] == next[acc.len() as int]);
            } else {
                assert(all[next.len() + i - (j + 1)] == resolution(context, config, group(found[i], 1)));
            }
        }
    }
}

/// An unresolved reference stays visible: if the search for accesses
/// through `this` gave one piece of text more than it gave matches, and one
/// of the matches names something that neither the component nor the
/// framework nor any configured composable knows, then the rewritten body
/// holds that name wrapped in its mark.
pub proof fn lemma_flagged_reference_is_in_the_body(
    context: ContextModel,
    config: TransformerConfigModel,
    pieces: Seq<Seq<char>>,
    found: Seq<Seq<Option<Seq<char>>>>,
    i: int,
)
    requires
        pieces.len() == found.len() + 1,
        0 <= i < found.len(),
        !is_component_member(context, group(found[i], 1)),
        !is_framework_name(group(found[i], 1)),
        !is_mixin_member(config, group(found[i], 1)),
    ensures
        text::contains(with_resolutions(context, config, pieces, found), flagged(group(found[i], 1))),
{
    let empty: Seq<Seq<char>> = Seq::empty();
    let fills = resolutions_from(context, config, found, 0, empty);
    lemma_resolutions_from(context, config, found, 0, empty);
    assert(fills[empty.len() + i - 0] == resolution(context, config, group(found[i], 1)));
    crate::patterns::lemma_interleave_holds_fill(pieces, fills, 0, i);
}

/// The body put together again from the text between the accesses through
/// `this` and the replacement chosen for each access.
pub open spec fn with_resolutions(
    context: ContextModel,
    config: TransformerConfigModel,
    pieces: Seq<Seq<char>>,
    found: Seq<Seq<Option<Seq<char>>>>,
) -> Seq<char> {
    interleave(pieces, resolutions_from(context, config, found, 0, Seq::empty()))
}

/// The rule for an access through `this` that is left once the known
/// names were rewritten: the name stays, with a mark before it where
/// nothing knows it.
pub struct ReferenceFill<'a> {
    pub context: &'a TransformationContext,
    pub config: &'a TransformerConfig,
}

impl<'a> Fill for ReferenceFill<'a> {
    open spec fn fill(&self, caps: Seq<Option<Seq<char>>>, before: Seq<char>) -> Seq<char> {
        resolution(self.context.deep_view(), self.config.deep_view(), group(caps, 1))
    }

    fn make(&self, caps: &Vec<Option<String>>, before: &str) -> (r: String) {
        resolve_reference(self.context, self.config, capture_group(caps, 1).as_str())
    }
}

/// What the rule chooses for the matches is the resolution of each name.
pub proof fn lemma_fills_are_resolutions(
    rule: &ReferenceFill,
    pieces: Seq<Seq<char>>,
    found: Seq<Seq<Option<Seq<char>>>>,
    i: int,
    acc: Seq<Seq<char>>,
)
    ensures
        fills_from(rule, pieces, found, i, acc) == resolutions_from(
            rule.context.deep_view(),
            rule.config.deep_view(),
            found,
            i,
            acc,
        ),
    decreases found.len() - i,
{
    if 0 <= i < found.len() {
        lemma_fills_are_resolutions(
            rule,
            pieces,
            found,
            i + 1,
            acc.push(rule.fill(found[i], text_before(pieces, found, i))),
        );
    }
}

/// The body with every remaining access through `this` resolved or flagged.
pub open spec fn flag_unresolved(
    context: ContextModel,
    config: TransformerConfigModel,
    body: Seq<char>,
) -> Seq<char> {
    with_resolutions(
        context,
        config,
        pieces_between(THIS_PROPERTY_PATTERN@, body),
        all_captures(THIS_PROPERTY_PATTERN@, body),
    )
}

/// The body with the accesses to what the component declares rewritten:
/// data fields and computed properties become `.value` accesses, props
/// become `props.` accesses, methods become local functions, each group
/// taken from the longest name to the shortest.
pub open spec fn known_rewritten(context: ContextModel, body: Seq<char>) -> Seq<char> {
    let script = context.script;
    let data = longest_first(data_names(script.data_properties));
    let computed = longest_first(script.computed_properties);
    let props = longest_first(prop_names(script.props));
    let methods = longest_first(script.methods);
    let b1 = rewrite_names_from(body, RefForm::Value, data, 0);
    let b2 = rewrite_names_from(b1, RefForm::Value, computed, 0);
    let b3 = rewrite_names_from(b2, RefForm::Prop, props, 0);
    let b4 = rewrite_names_from(b3, RefForm::Call, methods, 0);
    rewrite_names_from(b4, RefForm::Bare, methods, 0)
}

/// The body after the generic rewrite: the accesses to what the component
/// declares are rewritten, and what is left is resolved or flagged.
pub open spec fn reactive_body(
    context: ContextModel,
    config: TransformerConfigModel,
    body: Seq<char>,
) -> Seq<char> {
    flag_unresolved(context, config, known_rewritten(context, body))
}

/// The accesses through `this` that are left once the known names were
/// rewritten, each with its groups.
pub open spec fn remaining_accesses(context: ContextModel, body: Seq<char>) -> Seq<Seq<Option<Seq<char>>>> {
    all_captures(THIS_PROPERTY_PATTERN@, known_rewritten(context, body))
}

/// Whether nothing knows `name`: neither the component, nor the framework,
/// nor a configured composable.
pub open spec fn is_unresolved(context: ContextModel, config: TransformerConfigModel, name: Seq<char>) -> bool {
    !is_component_member(context, name) && !is_framework_name(name) && !is_mixin_member(config, name)
}

/// Applies the generic rewrite to a body.
///
/// Every access through `this` that is left once the known names were
/// rewritten, and that names something that nothing knows, stands in the
/// result wrapped in its mark.
pub fn apply_reactive_transforms(body: &str, context: &TransformationContext, config: &TransformerConfig) -> (r:
    String)
    ensures
        r@ == reactive_body(context.deep_view(), config.deep_view(), body@),
        forall|i: int|
            0 <= i < remaining_accesses(context.deep_view(), body@).len() && is_unresolved(
                context.deep_view(),
                config.deep_view(),
                group(#[trigger] remaining_accesses(context.deep_view(), body@)[i], 1),
            ) ==> text::contains(r@, flagged(group(remaining_accesses(context.deep_view(), body@)[i], 1))),
{
    let data = sort_longest_first(&data_names_of(&context.script_state.data_properties));
    let computed = sort_longest_first(&context.script_state.computed_properties);
    let props = sort_longest_first(&prop_names_of(&context.script_state.props));
    let methods = sort_longest_first(&context.script_state.methods);
    let b1 = rewrite_names(owned(body), RefForm::Value, &data);
    let b2 = rewrite_names(b1, RefForm::Value, &computed);
    let b3 = rewrite_names(b2, RefForm::Prop, &props);
    let b4 = rewrite_names(b3, RefForm::Call, &methods);
    let b5 = rewrite_names(b4, RefForm::Bare, &methods);
    let rule = ReferenceFill { context, config };
    let r = replace_matches(THIS_PROPERTY_PATTERN, b5.as_str(), &rule);
    proof {
        let c = context.deep_view();
        let g = config.deep_view();
        let all = remaining_accesses(c, body@);
        let pieces = pieces_between(THIS_PROPERTY_PATTERN@, b5@);
        lemma_fills_are_resolutions(&rule, pieces, all, 0, Seq::empty());
        assert forall|i: int|
            0 <= i < all.len() && is_unresolved(c, g, group(#[trigger] all[i], 1)) implies text::contains(
            r@,
            flagged(group(all[i], 1)),
        ) by {
            lemma_flagged_reference_is_in_the_body(c, g, pieces, all, i);
        }
    }
    r
}

} // verus!
