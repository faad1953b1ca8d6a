//! Questions that several units ask of the facts.

use crate::model::{ContextModel, DataPropertyInfo, DataPropertyModel, TransformationContext};
use crate::strs::{any_contains, list_any_contains, list_contains, str_contains};
use crate::text;
use vstd::prelude::*;

verus! {

/// Whether the initial value of some data field holds `word`.
pub open spec fn any_value_contains(data: Seq<DataPropertyModel>, word: Seq<char>) -> bool {
    exists|i: int|
        0 <= i < data.len() && (#[trigger] data[i]).value is Some && text::contains(data[i].value->0, word)
}

/// Tells whether the initial value of some data field holds `word`.
pub fn values_mention(data: &Vec<DataPropertyInfo>, word: &str) -> (r: bool)
    ensures
        r == any_value_contains(data.deep_view(), word@),
{
    let mut i: usize = 0;
    while i < data.len()
        invariant
            i <= data.len(),
            forall|j: int|
                0 <= j < i ==> !((#[trigger] data.deep_view()[j]).value is Some && text::contains(
                    data.deep_view()[j].value->0,
                    word@,
                )),
        decreases data.len() - i,
    {
        assert(data.deep_view()[i as int] == data@[i as int].deep_view());
        let hit = match &data[i].value {
            Some(v) => str_contains(v.as_str(), word),
            None => false,
        };
        if hit {
            assert(data.deep_view()[i as int].value is Some && text::contains(
                data.deep_view()[i as int].value->0,
                word@,
            ));
            return true;
        }
        i += 1;
    }
    false
}

/// Whether a called expression of the script or of the template holds
/// `word`.
pub open spec fn any_call_contains(context: ContextModel, word: Seq<char>) -> bool {
    any_contains(context.script.function_calls, word) || any_contains(context.template.function_calls, word)
}

pub fn calls_mention(context: &TransformationContext, word: &str) -> (r: bool)
    ensures
        r == any_call_contains(context.deep_view(), word@),
{
    list_any_contains(&context.script_state.function_calls, word) || list_any_contains(
        &context.template_state.function_calls,
        word,
    )
}

/// Whether the script or the template refers to the name `name`.
pub open spec fn is_named(context: ContextModel, name: Seq<char>) -> bool {
    context.script.identifiers.contains(name) || context.template.identifiers.contains(name)
}

pub fn names(context: &TransformationContext, name: &str) -> (r: bool)
    ensures
        r == is_named(context.deep_view(), name@),
{
    list_contains(&context.script_state.identifiers, name) || list_contains(
        &context.template_state.identifiers,
        name,
    )
}

/// Whether the function `name` is used: called with `call`, or named.
pub open spec fn uses_function(context: ContextModel, call: Seq<char>, name: Seq<char>) -> bool {
    any_call_contains(context, call) || is_named(context, name)
}

pub fn function_used(context: &TransformationContext, call: &str, name: &str) -> (r: bool)
    ensures
        r == uses_function(context.deep_view(), call@, name@),
{
    calls_mention(context, call) || names(context, name)
}

} // verus!
