//! The unit for asset paths in the template.

use super::router::{template_has, template_mentions};
use super::Transformer;
use crate::model::{
    ContextModel, ReplacementModel, ResultModel, TemplateReplacement, TransformationContext,
    TransformationResult, TransformerConfig, TransformerConfigModel,
};
use crate::patterns::{all_captures, capture_group, capture_has_group, group, has_group, pattern_captures};
use crate::result::empty_result;
use crate::strs::{concat2, concat3, owned, str_ends_with, str_trim_matches};
use crate::text;
use crate::text::push_deep;
use vstd::prelude::*;

verus! {

/// The unit that rewrites asset paths.
#[derive(Debug, Clone, Copy)]
pub struct AssetsTransformer;

pub const REQUIRE_SRC_PATTERN: &'static str = ":src=\"require\\(([^)]+)\\)\"";

pub const SVG_SRC_PATTERN: &'static str = "src=\"([^\"]*\\.svg)\"";

/// Whether the template refers to assets in a way that needs rewriting.
pub open spec fn has_assets(context: ContextModel) -> bool {
    template_mentions(context, "~/assets/"@) || template_mentions(context, "~assets/"@) || template_mentions(
        context,
        "require("@,
    )
}

pub open spec fn applies(context: ContextModel, config: TransformerConfigModel) -> bool {
    config.enable_asset_transforms && has_assets(context)
}

/// The `src` attribute that takes the place of a bound `require` call: the
/// path without its quotes, as a resource address when it is an SVG.
pub open spec fn required_src(path: Seq<char>) -> Seq<char> {
    let clean = text::trim_matches(text::trim_matches(path, '\''), '"');
    if text::ends_with(clean, ".svg"@) {
        "src=\""@ + (clean + "?url"@) + "\""@
    } else {
        "src=\""@ + clean + "\""@
    }
}

/// The pairs for the `require` matches from index `i` on, appended.
pub open spec fn require_pairs_from(found: Seq<Seq<Option<Seq<char>>>>, i: int, acc: Seq<ReplacementModel>) -> Seq<
    ReplacementModel,
>
    decreases found.len() - i,
{
    if i < 0 || i >= found.len() {
        acc
    } else if has_group(found[i], 1) {
        require_pairs_from(
            found,
            i + 1,
            acc.push(ReplacementModel { find: group(found[i], 0), replace: required_src(group(found[i], 1)) }),
        )
    } else {
        require_pairs_from(found, i + 1, acc)
    }
}

/// The pairs for the SVG matches from index `i` on, appended.
pub open spec fn svg_pairs_from(found: Seq<Seq<Option<Seq<char>>>>, i: int, acc: Seq<ReplacementModel>) -> Seq<
    ReplacementModel,
>
    decreases found.len() - i,
{
    if i < 0 || i >= found.len() {
        acc
    } else if has_group(found[i], 1) && !text::ends_with(group(found[i], 1), "?url"@) {
        svg_pairs_from(
            found,
            i + 1,
            acc.push(
                ReplacementModel {
                    find: group(found[i], 0),
                    replace: "src=\""@ + group(found[i], 1) + "?url\""@,
                },
            ),
        )
    } else {
        svg_pairs_from(found, i + 1, acc)
    }
}

/// The find and replace pairs for the template.
pub open spec fn replacements(context: ContextModel) -> Seq<ReplacementModel> {
    let fixed = seq![
        ReplacementModel { find: "~/assets/"@, replace: "@/assets/"@ },
        ReplacementModel { find: "~assets/"@, replace: "@/assets/"@ },
    ];
    match context.sections.template_content {
        Some(template) => {
            let a = if text::contains(template, "require("@) {
                require_pairs_from(all_captures(REQUIRE_SRC_PATTERN@, template), 0, fixed)
            } else {
                fixed
            };
            if text::contains(template, ".svg"@) {
                svg_pairs_from(all_captures(SVG_SRC_PATTERN@, template), 0, a)
            } else {
                a
            }
        },
        None => fixed,
    }
}

/// What the unit contributes.
pub open spec fn output(context: ContextModel) -> ResultModel {
    empty_result().with_replacements(replacements(context))
}

fn src_for(path: &str) -> (r: String)
    ensures
        r@ == required_src(path@),
{
    let clean = str_trim_matches(str_trim_matches(path, '\'').as_str(), '"');
    if str_ends_with(clean.as_str(), ".svg") {
        concat3("src=\"", concat2(clean.as_str(), "?url").as_str(), "\"")
    } else {
        concat3("src=\"", clean.as_str(), "\"")
    }
}

impl AssetsTransformer {
    pub fn new() -> (r: Self) {
        AssetsTransformer
    }

    pub fn has_asset_transformations(context: &TransformationContext) -> (r: bool)
        ensures
            r == has_assets(context.deep_view()),
    {
        template_has(context, "~/assets/") || template_has(context, "~assets/") || template_has(
            context,
            "require(",
        )
    }

    pub fn should_apply(context: &TransformationContext, config: &TransformerConfig) -> (r: bool)
        ensures
            r == applies(context.deep_view(), config.deep_view()),
    {
        config.enable_asset_transforms && Self::has_asset_transformations(context)
    }

    /// The find and replace pairs for the template.
    pub fn generate_template_replacements(context: &TransformationContext) -> (r: Vec<TemplateReplacement>)
        ensures
            r.deep_view() == replacements(context.deep_view()),
    {
        let mut out: Vec<TemplateReplacement> = Vec::new();
        push_deep(&mut out, TemplateReplacement { find: owned("~/assets/"), replace: owned("@/assets/") });
        push_deep(&mut out, TemplateReplacement { find: owned("~assets/"), replace: owned("@/assets/") });
        assert(out.deep_view() =~= seq![
            ReplacementModel { find: "~/assets/"@, replace: "@/assets/"@ },
            ReplacementModel { find: "~assets/"@, replace: "@/assets/"@ },
        ]);
        match &context.sfc_sections.template_content {
            Some(template) => {
                if crate::strs::str_contains(template.as_str(), "require(") {
                    let found = pattern_captures(REQUIRE_SRC_PATTERN, template.as_str());
                    let ghost all = found.deep_view();
                    let ghost start = out.deep_view();
                    let mut i: usize = 0;
                    while i < found.len()
                        invariant
                            i <= found.len(),
                            all == found.deep_view(),
                            require_pairs_from(all, 0, start) == require_pairs_from(
                                all,
                                i as int,
                                out.deep_view(),
                            ),
                        decreases found.len() - i,
                    {
                        assert(all[i as int] == found@[i as int].deep_view());
                        if capture_has_group(&found[i], 1) {
                            push_deep(
                                &mut out,
                                TemplateReplacement {
                                    find: capture_group(&found[i], 0),
                                    replace: src_for(capture_group(&found[i], 1).as_str()),
                                },
                            );
                        }
                        i += 1;
                    }
                }
                if crate::strs::str_contains(template.as_str(), ".svg") {
                    let found = pattern_captures(SVG_SRC_PATTERN, template.as_str());
                    let ghost all = found.deep_view();
                    let ghost start = out.deep_view();
                    let mut i: usize = 0;
                    while i < found.len()
                        invariant
                            i <= found.len(),
                            all == found.deep_view(),
                            svg_pairs_from(all, 0, start) == svg_pairs_from(all, i as int, out.deep_view()),
                        decreases found.len() - i,
                    {
                        assert(all[i as int] == found@[i as int].deep_view());
                        let path = capture_group(&found[i], 1);
                        if capture_has_group(&found[i], 1) && !str_ends_with(path.as_str(), "?url") {
                            push_deep(
                                &mut out,
                                TemplateReplacement {
                                    find: capture_group(&found[i], 0),
                                    replace: concat3("src=\"", path.as_str(), "?url\""),
                                },
                            );
                        }
                        i += 1;
                    }
                }
                out
            },
            None => out,
        }
    }

    pub fn build(context: &TransformationContext) -> (r: TransformationResult)
        ensures
            r.deep_view() == output(context.deep_view()),
    {
        let mut result = TransformationResult::new();
        result.extend_template_replacements(&Self::generate_template_replacements(context));
        result
    }
}

impl Default for AssetsTransformer {
    fn default() -> Self {
        AssetsTransformer
    }
}

impl Transformer for AssetsTransformer {
    open spec fn applies(&self, context: ContextModel, config: TransformerConfigModel) -> bool {
        applies(context, config)
    }

    open spec fn output(&self, context: ContextModel, config: TransformerConfigModel) -> ResultModel {
        output(context)
    }

    open spec fn body_after(
        &self,
        body: Seq<char>,
        context: ContextModel,
        config: TransformerConfigModel,
    ) -> Seq<char> {
        body
    }

    open spec fn label(&self) -> Seq<char> {
        "assets"@
    }

    fn name(&self) -> &'static str {
        "assets"
    }

    fn should_transform(&self, context: &TransformationContext, config: &TransformerConfig) -> bool {
        Self::should_apply(context, config)
    }

    fn transform(&self, context: &TransformationContext, config: &TransformerConfig) -> TransformationResult {
        Self::build(context)
    }

    fn transform_body(&self, body: &str, context: &TransformationContext, config: &TransformerConfig) -> String {
        owned(body)
    }
}

} // verus!
