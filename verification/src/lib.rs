//! A source-to-source transpiler for single-file components: the
//! object-based component API becomes the function-based one.

pub mod assemble;
pub mod extract;
pub mod imports;
pub mod markup;
pub mod members;
pub mod model;
pub mod patterns;
pub mod pipeline;
pub mod result;
pub mod script;
pub mod sections;
pub mod strs;
pub mod syntax;
pub mod template;
pub mod text;
pub mod transformers;
pub mod visit;

pub use crate::extract::parse_script_section;
pub use crate::model::{
    AdditionalImport, ComputedDetail, ComputedProperty, DataPropertyInfo, FunctionCallDetail, ImportInfo,
    ImportItem, ImportRewrite, LifecycleHook, MethodDefinition, MethodDetail, MixinConfig,
    MustacheExpression, MustacheExpressionInfo, ParsedSFC, ParsedScript, ParsedTemplate, PropDefinition,
    PropInfo, RewriteOptions, ScriptParsingState, TemplateParsingState, TemplateReplacement,
    TransformationContext, TransformationResult, TransformerConfig, VueDirective, VueDirectiveInfo,
    WatcherDefinition, WatcherDetail,
};
pub use crate::pipeline::rewrite_sfc;
pub use crate::sections::{parse_sfc_sections, SfcSections, TransformError};
pub use crate::template::parse_template_section;
pub use crate::visit::walk_tree_recursive_template;
