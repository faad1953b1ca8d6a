//! The whole rewrite of a component file.

use crate::assemble::{assemble, assembled, section_text, trimmed_section};
use crate::extract::{parse_script_section, script_facts};
use crate::model::{
    empty_script_facts, empty_template_facts, ContextModel, RewriteOptions, RewriteOptionsModel, ScriptFacts,
    ScriptParsingState, TemplateFacts, TemplateParsingState, TransformationContext, TransformerConfig,
    TransformerConfigModel,
};
use crate::sections::{parse_sfc_sections, split_sections, SectionsModel, TransformError};
use crate::syntax::javascript_tree;
use crate::template::{parse_template_section, template_facts, template_parses};
use crate::transformers::{orchestrated, registered, TransformerOrchestrator};
use vstd::prelude::*;

verus! {

/// The configuration that a rewrite runs with: the two standard toggles on,
/// and the tables that the options bring.
pub open spec fn config_of(options: Option<RewriteOptionsModel>) -> TransformerConfigModel {
    match options {
        Some(o) => TransformerConfigModel {
            enable_i18n: true,
            enable_vuex_to_pinia: false,
            enable_asset_transforms: true,
            pinia_store_path: None,
            mixins: o.mixins,
            imports_rewrite: o.imports_rewrite,
            additional_imports: o.additional_imports,
            import_keeplist: o.import_keeplist,
        },
        None => TransformerConfigModel {
            enable_i18n: true,
            enable_vuex_to_pinia: false,
            enable_asset_transforms: true,
            pinia_store_path: None,
            mixins: None,
            imports_rewrite: None,
            additional_imports: None,
            import_keeplist: None,
        },
    }
}

/// The facts of the script section; none without one.
pub open spec fn script_of(sections: SectionsModel) -> ScriptFacts {
    match section_text(sections.script_content) {
        Some(script) => script_facts(script, empty_script_facts()),
        None => empty_script_facts(),
    }
}

/// The facts of the template section; none without one.
pub open spec fn template_of(sections: SectionsModel) -> TemplateFacts {
    match section_text(sections.template_content) {
        Some(template) => template_facts(template, empty_template_facts()),
        None => empty_template_facts(),
    }
}

/// Whether the grammar accepts what the sections hold.
pub open spec fn sections_parse(sections: SectionsModel) -> bool {
    (match section_text(sections.script_content) {
        Some(script) => javascript_tree(script) is Some,
        None => true,
    }) && (match section_text(sections.template_content) {
        Some(template) => template_parses(template),
        None => true,
    })
}

/// What rewriting a component file gives: the new file, or the error.
pub open spec fn rewritten(sfc: Seq<char>, options: Option<RewriteOptionsModel>) -> Result<
    Seq<char>,
    TransformError,
> {
    match split_sections(sfc) {
        Err(e) => Err(e),
        Ok(sections) => if sections_parse(sections) {
            let context = ContextModel {
                script: script_of(sections),
                template: template_of(sections),
                sections,
            };
            Ok(assembled(sections, orchestrated(registered(), context, config_of(options))))
        } else {
            Err(TransformError::GrammarParseFailure)
        },
    }
}

fn make_config(options: Option<RewriteOptions>) -> (r: TransformerConfig)
    ensures
        r.deep_view() == config_of(options.deep_view()),
{
    match options {
        Some(o) => TransformerConfig {
            enable_i18n: true,
            enable_vuex_to_pinia: false,
            enable_asset_transforms: true,
            pinia_store_path: None,
            mixins: o.mixins,
            imports_rewrite: o.imports_rewrite,
            additional_imports: o.additional_imports,
            import_keeplist: o.import_keeplist,
        },
        None => TransformerConfig {
            enable_i18n: true,
            enable_vuex_to_pinia: false,
            enable_asset_transforms: true,
            pinia_store_path: None,
            mixins: None,
            imports_rewrite: None,
            additional_imports: None,
            import_keeplist: None,
        },
    }
}

/// Rewrites a component file from the object-based API to the
/// function-based one.
///
/// Fails with `MalformedNesting` when a section is opened and never closed,
/// and with `GrammarParseFailure` when the grammar rejects the script or
/// an expression of the template. Otherwise the result is the
/// assembled file.
pub fn rewrite_sfc(sfc: &str, options: Option<RewriteOptions>) -> (r: Result<String, TransformError>)
    ensures
        match r {
            Ok(text) => rewritten(sfc@, options.deep_view()) == Ok::<Seq<char>, TransformError>(text@),
            Err(e) => rewritten(sfc@, options.deep_view()) == Err::<Seq<char>, TransformError>(e),
        },
{
    let sections = match parse_sfc_sections(sfc) {
        Ok(sections) => sections,
        Err(e) => {
            return Err(e);
        },
    };
    let mut script_state = ScriptParsingState::new();
    let mut template_state = TemplateParsingState::new();
    let mut parsed = true;
    match &trimmed_section(&sections.script_content) {
        Some(script) => {
            match parse_script_section(script.as_str(), &mut script_state) {
                Ok(()) => {},
                Err(_) => {
                    parsed = false;
                },
            }
        },
        None => {},
    }
    match &trimmed_section(&sections.template_content) {
        Some(template) => {
            match parse_template_section(template.as_str(), &mut template_state) {
                Ok(()) => {},
                Err(_) => {
                    parsed = false;
                },
            }
        },
        None => {},
    }
    if !parsed {
        return Err(TransformError::GrammarParseFailure);
    }
    let config = make_config(options);
    let context = TransformationContext { script_state, template_state, sfc_sections: sections };
    let orchestrator = TransformerOrchestrator::new();
    let result = orchestrator.transform(&context, &config);
    Ok(assemble(&context.sfc_sections, &result))
}

} // verus!
