//! The fact models, the options and the result model.

use crate::sections::{SectionsModel, SfcSections};
use vstd::prelude::*;

verus! {

/// A mixin that has a composable to take its place.
#[derive(Debug, Clone)]
pub struct MixinConfig {
    /// The composable that replaces the mixin.
    pub name: String,
    /// The members that the composable hands out.
    pub imports: Vec<String>,
}

/// The mathematical content of [`MixinConfig`].
pub struct MixinConfigModel {
    pub name: Seq<char>,
    pub imports: Seq<Seq<char>>,
}

impl DeepView for MixinConfig {
    type V = MixinConfigModel;

    open spec fn deep_view(&self) -> MixinConfigModel {
        MixinConfigModel {
            name: self.name@,
            imports: self.imports.deep_view(),
        }
    }
}

/// How imports from one source are renamed.
#[derive(Debug, Clone)]
pub struct ImportRewrite {
    /// The source that replaces the old one.
    pub name: String,
    /// Old member name and the name that replaces it.
    pub component_rewrite: Option<Vec<(String, String)>>,
    /// Old directive name and the name that replaces it.
    pub directives: Option<Vec<(String, String)>>,
}

/// The mathematical content of [`ImportRewrite`].
pub struct ImportRewriteModel {
    pub name: Seq<char>,
    pub component_rewrite: Option<Seq<(Seq<char>, Seq<char>)>>,
    pub directives: Option<Seq<(Seq<char>, Seq<char>)>>,
}

impl DeepView for ImportRewrite {
    type V = ImportRewriteModel;

    open spec fn deep_view(&self) -> ImportRewriteModel {
        ImportRewriteModel {
            name: self.name@,
            component_rewrite: self.component_rewrite.deep_view(),
            directives: self.directives.deep_view(),
        }
    }
}

/// What to do with a component tag: inject an import line for it, or rename it.
#[derive(Debug, Clone)]
pub struct AdditionalImport {
    /// The import line to inject, verbatim.
    pub import_path: Option<String>,
    /// The tag name that replaces the old one.
    pub rewrite_to: Option<String>,
}

/// The mathematical content of [`AdditionalImport`].
pub struct AdditionalImportModel {
    pub import_path: Option<Seq<char>>,
    pub rewrite_to: Option<Seq<char>>,
}

impl DeepView for AdditionalImport {
    type V = AdditionalImportModel;

    open spec fn deep_view(&self) -> AdditionalImportModel {
        AdditionalImportModel {
            import_path: self.import_path.deep_view(),
            rewrite_to: self.rewrite_to.deep_view(),
        }
    }
}

/// The options of a rewrite. Each table is a list of (key, value) pairs; the first pair with a key counts.
#[derive(Debug, Clone)]
pub struct RewriteOptions {
    /// Mixin name to composable.
    pub mixins: Option<Vec<(String, MixinConfig)>>,
    /// Import source to its replacement.
    pub imports_rewrite: Option<Vec<(String, ImportRewrite)>>,
    /// Component tag to what is done with it.
    pub additional_imports: Option<Vec<(String, AdditionalImport)>>,
    /// Import sources that are never removed.
    pub import_keeplist: Option<Vec<String>>,
}

/// The mathematical content of [`RewriteOptions`].
pub struct RewriteOptionsModel {
    pub mixins: Option<Seq<(Seq<char>, MixinConfigModel)>>,
    pub imports_rewrite: Option<Seq<(Seq<char>, ImportRewriteModel)>>,
    pub additional_imports: Option<Seq<(Seq<char>, AdditionalImportModel)>>,
    pub import_keeplist: Option<Seq<Seq<char>>>,
}

impl DeepView for RewriteOptions {
    type V = RewriteOptionsModel;

    open spec fn deep_view(&self) -> RewriteOptionsModel {
        RewriteOptionsModel {
            mixins: self.mixins.deep_view(),
            imports_rewrite: self.imports_rewrite.deep_view(),
            additional_imports: self.additional_imports.deep_view(),
            import_keeplist: self.import_keeplist.deep_view(),
        }
    }
}

/// What the rewrite units are configured with.
#[derive(Debug, Clone)]
pub struct TransformerConfig {
    pub enable_i18n: bool,
    pub enable_vuex_to_pinia: bool,
    pub enable_asset_transforms: bool,
    pub pinia_store_path: Option<String>,
    pub mixins: Option<Vec<(String, MixinConfig)>>,
    pub imports_rewrite: Option<Vec<(String, ImportRewrite)>>,
    pub additional_imports: Option<Vec<(String, AdditionalImport)>>,
    pub import_keeplist: Option<Vec<String>>,
}

/// The mathematical content of [`TransformerConfig`].
pub struct TransformerConfigModel {
    pub enable_i18n: bool,
    pub enable_vuex_to_pinia: bool,
    pub enable_asset_transforms: bool,
    pub pinia_store_path: Option<Seq<char>>,
    pub mixins: Option<Seq<(Seq<char>, MixinConfigModel)>>,
    pub imports_rewrite: Option<Seq<(Seq<char>, ImportRewriteModel)>>,
    pub additional_imports: Option<Seq<(Seq<char>, AdditionalImportModel)>>,
    pub import_keeplist: Option<Seq<Seq<char>>>,
}

impl DeepView for TransformerConfig {
    type V = TransformerConfigModel;

    open spec fn deep_view(&self) -> TransformerConfigModel {
        TransformerConfigModel {
            enable_i18n: self.enable_i18n,
            enable_vuex_to_pinia: self.enable_vuex_to_pinia,
            enable_asset_transforms: self.enable_asset_transforms,
            pinia_store_path: self.pinia_store_path.deep_view(),
            mixins: self.mixins.deep_view(),
            imports_rewrite: self.imports_rewrite.deep_view(),
            additional_imports: self.additional_imports.deep_view(),
            import_keeplist: self.import_keeplist.deep_view(),
        }
    }
}

/// A call with its arguments as written.
#[derive(Debug, Clone)]
pub struct FunctionCallDetail {
    /// The text of the called expression.
    pub name: String,
    /// The text of each argument, brackets included as children report them.
    pub arguments: Vec<String>,
    /// The text of the whole call.
    pub full_call: String,
}

/// The mathematical content of [`FunctionCallDetail`].
pub struct FunctionCallModel {
    pub name: Seq<char>,
    pub arguments: Seq<Seq<char>>,
    pub full_call: Seq<char>,
}

impl DeepView for FunctionCallDetail {
    type V = FunctionCallModel;

    open spec fn deep_view(&self) -> FunctionCallModel {
        FunctionCallModel {
            name: self.name@,
            arguments: self.arguments.deep_view(),
            full_call: self.full_call@,
        }
    }
}

/// A method with its body.
#[derive(Debug, Clone)]
pub struct MethodDetail {
    pub name: String,
    /// The names of the plain parameters.
    pub parameters: Vec<String>,
    /// The body without its outer braces.
    pub body: String,
    pub is_async: bool,
}

/// The mathematical content of [`MethodDetail`].
pub struct MethodModel {
    pub name: Seq<char>,
    pub parameters: Seq<Seq<char>>,
    pub body: Seq<char>,
    pub is_async: bool,
}

impl DeepView for MethodDetail {
    type V = MethodModel;

    open spec fn deep_view(&self) -> MethodModel {
        MethodModel {
            name: self.name@,
            parameters: self.parameters.deep_view(),
            body: self.body@,
            is_async: self.is_async,
        }
    }
}

/// A watcher.
#[derive(Debug)]
pub struct WatcherDetail {
    pub watched_property: String,
    pub handler_body: String,
    pub is_async: bool,
    /// The names of the new and the old value in the handler.
    pub param_names: (String, String),
}

/// The mathematical content of [`WatcherDetail`].
pub struct WatcherModel {
    pub watched_property: Seq<char>,
    pub handler_body: Seq<char>,
    pub is_async: bool,
    pub param_names: (Seq<char>, Seq<char>),
}

impl DeepView for WatcherDetail {
    type V = WatcherModel;

    open spec fn deep_view(&self) -> WatcherModel {
        WatcherModel {
            watched_property: self.watched_property@,
            handler_body: self.handler_body@,
            is_async: self.is_async,
            param_names: self.param_names.deep_view(),
        }
    }
}

/// A computed property with its getter and setter.
#[derive(Debug, Clone)]
pub struct ComputedDetail {
    pub name: String,
    pub getter: Option<String>,
    pub setter: Option<String>,
    /// The name of the setter's first parameter.
    pub setter_parameter: Option<String>,
    /// Whether it was written as one function rather than a get/set object.
    pub is_simple_function: bool,
}

/// The mathematical content of [`ComputedDetail`].
pub struct ComputedModel {
    pub name: Seq<char>,
    pub getter: Option<Seq<char>>,
    pub setter: Option<Seq<char>>,
    pub setter_parameter: Option<Seq<char>>,
    pub is_simple_function: bool,
}

impl DeepView for ComputedDetail {
    type V = ComputedModel;

    open spec fn deep_view(&self) -> ComputedModel {
        ComputedModel {
            name: self.name@,
            getter: self.getter.deep_view(),
            setter: self.setter.deep_view(),
            setter_parameter: self.setter_parameter.deep_view(),
            is_simple_function: self.is_simple_function,
        }
    }
}

/// A declared prop.
#[derive(Debug, Clone)]
pub struct PropInfo {
    pub name: String,
    pub prop_type: Option<String>,
    pub required: Option<bool>,
    pub default_value: Option<String>,
    pub validator: Option<String>,
}

/// The mathematical content of [`PropInfo`].
pub struct PropModel {
    pub name: Seq<char>,
    pub prop_type: Option<Seq<char>>,
    pub required: Option<bool>,
    pub default_value: Option<Seq<char>>,
    pub validator: Option<Seq<char>>,
}

impl DeepView for PropInfo {
    type V = PropModel;

    open spec fn deep_view(&self) -> PropModel {
        PropModel {
            name: self.name@,
            prop_type: self.prop_type.deep_view(),
            required: self.required.deep_view(),
            default_value: self.default_value.deep_view(),
            validator: self.validator.deep_view(),
        }
    }
}

/// A data field with the text of its initial value.
#[derive(Debug, Clone)]
pub struct DataPropertyInfo {
    pub name: String,
    pub value: Option<String>,
}

/// The mathematical content of [`DataPropertyInfo`].
pub struct DataPropertyModel {
    pub name: Seq<char>,
    pub value: Option<Seq<char>>,
}

impl DeepView for DataPropertyInfo {
    type V = DataPropertyModel;

    open spec fn deep_view(&self) -> DataPropertyModel {
        DataPropertyModel {
            name: self.name@,
            value: self.value.deep_view(),
        }
    }
}

/// One imported name.
#[derive(Debug, Clone)]
pub struct ImportItem {
    pub name: String,
    pub alias: Option<String>,
    pub is_default: bool,
    pub is_namespace: bool,
}

/// The mathematical content of [`ImportItem`].
pub struct ImportItemModel {
    pub name: Seq<char>,
    pub alias: Option<Seq<char>>,
    pub is_default: bool,
    pub is_namespace: bool,
}

impl DeepView for ImportItem {
    type V = ImportItemModel;

    open spec fn deep_view(&self) -> ImportItemModel {
        ImportItemModel {
            name: self.name@,
            alias: self.alias.deep_view(),
            is_default: self.is_default,
            is_namespace: self.is_namespace,
        }
    }
}

/// An import statement of the script.
#[derive(Debug, Clone)]
pub struct ImportInfo {
    pub source: String,
    pub imports: Vec<ImportItem>,
}

/// The mathematical content of [`ImportInfo`].
pub struct ImportModel {
    pub source: Seq<char>,
    pub imports: Seq<ImportItemModel>,
}

impl DeepView for ImportInfo {
    type V = ImportModel;

    open spec fn deep_view(&self) -> ImportModel {
        ImportModel {
            source: self.source@,
            imports: self.imports.deep_view(),
        }
    }
}

/// The facts gathered from a script section.
#[derive(Debug, Clone)]
pub struct ScriptParsingState {
    /// Names referred to, each once, in order of first sight.
    pub identifiers: Vec<String>,
    /// Called expressions, each once.
    pub function_calls: Vec<String>,
    pub function_call_details: Vec<FunctionCallDetail>,
    pub methods: Vec<String>,
    pub method_details: Vec<MethodDetail>,
    pub computed_properties: Vec<String>,
    pub computed_details: Vec<ComputedDetail>,
    pub imports: Vec<ImportInfo>,
    /// The statements between the imports and the exported object.
    pub setup_content: Option<String>,
    pub props: Vec<PropInfo>,
    pub data_properties: Vec<DataPropertyInfo>,
    pub head_method: Option<MethodDetail>,
    pub fetch_method: Option<MethodDetail>,
    pub watchers: Vec<WatcherDetail>,
    pub nuxt_i18n: Option<String>,
    pub async_data_method: Option<String>,
}

/// The mathematical content of [`ScriptParsingState`].
pub struct ScriptFacts {
    pub identifiers: Seq<Seq<char>>,
    pub function_calls: Seq<Seq<char>>,
    pub function_call_details: Seq<FunctionCallModel>,
    pub methods: Seq<Seq<char>>,
    pub method_details: Seq<MethodModel>,
    pub computed_properties: Seq<Seq<char>>,
    pub computed_details: Seq<ComputedModel>,
    pub imports: Seq<ImportModel>,
    pub setup_content: Option<Seq<char>>,
    pub props: Seq<PropModel>,
    pub data_properties: Seq<DataPropertyModel>,
    pub head_method: Option<MethodModel>,
    pub fetch_method: Option<MethodModel>,
    pub watchers: Seq<WatcherModel>,
    pub nuxt_i18n: Option<Seq<char>>,
    pub async_data_method: Option<Seq<char>>,
}

impl DeepView for ScriptParsingState {
    type V = ScriptFacts;

    open spec fn deep_view(&self) -> ScriptFacts {
        ScriptFacts {
            identifiers: self.identifiers.deep_view(),
            function_calls: self.function_calls.deep_view(),
            function_call_details: self.function_call_details.deep_view(),
            methods: self.methods.deep_view(),
            method_details: self.method_details.deep_view(),
            computed_properties: self.computed_properties.deep_view(),
            computed_details: self.computed_details.deep_view(),
            imports: self.imports.deep_view(),
            setup_content: self.setup_content.deep_view(),
            props: self.props.deep_view(),
            data_properties: self.data_properties.deep_view(),
            head_method: self.head_method.deep_view(),
            fetch_method: self.fetch_method.deep_view(),
            watchers: self.watchers.deep_view(),
            nuxt_i18n: self.nuxt_i18n.deep_view(),
            async_data_method: self.async_data_method.deep_view(),
        }
    }
}

/// A directive or binding found on an element.
#[derive(Debug, Clone)]
pub struct VueDirectiveInfo {
    pub name: String,
    pub value: String,
    pub element_tag: String,
}

/// The mathematical content of [`VueDirectiveInfo`].
pub struct DirectiveModel {
    pub name: Seq<char>,
    pub value: Seq<char>,
    pub element_tag: Seq<char>,
}

impl DeepView for VueDirectiveInfo {
    type V = DirectiveModel;

    open spec fn deep_view(&self) -> DirectiveModel {
        DirectiveModel {
            name: self.name@,
            value: self.value@,
            element_tag: self.element_tag@,
        }
    }
}

/// An interpolation found in text.
#[derive(Debug, Clone)]
pub struct MustacheExpressionInfo {
    pub content: String,
}

/// The mathematical content of [`MustacheExpressionInfo`].
pub struct MustacheModel {
    pub content: Seq<char>,
}

impl DeepView for MustacheExpressionInfo {
    type V = MustacheModel;

    open spec fn deep_view(&self) -> MustacheModel {
        MustacheModel {
            content: self.content@,
        }
    }
}

/// The facts gathered from a template section.
#[derive(Debug, Clone)]
pub struct TemplateParsingState {
    pub identifiers: Vec<String>,
    pub function_calls: Vec<String>,
    pub function_call_details: Vec<FunctionCallDetail>,
    pub vue_directives: Vec<VueDirectiveInfo>,
    pub mustache_expressions: Vec<MustacheExpressionInfo>,
}

/// The mathematical content of [`TemplateParsingState`].
pub struct TemplateFacts {
    pub identifiers: Seq<Seq<char>>,
    pub function_calls: Seq<Seq<char>>,
    pub function_call_details: Seq<FunctionCallModel>,
    pub vue_directives: Seq<DirectiveModel>,
    pub mustache_expressions: Seq<MustacheModel>,
}

impl DeepView for TemplateParsingState {
    type V = TemplateFacts;

    open spec fn deep_view(&self) -> TemplateFacts {
        TemplateFacts {
            identifiers: self.identifiers.deep_view(),
            function_calls: self.function_calls.deep_view(),
            function_call_details: self.function_call_details.deep_view(),
            vue_directives: self.vue_directives.deep_view(),
            mustache_expressions: self.mustache_expressions.deep_view(),
        }
    }
}

/// A literal find and replace pair for the template.
#[derive(Debug, Clone)]
pub struct TemplateReplacement {
    pub find: String,
    pub replace: String,
}

/// The mathematical content of [`TemplateReplacement`].
pub struct ReplacementModel {
    pub find: Seq<char>,
    pub replace: Seq<char>,
}

impl DeepView for TemplateReplacement {
    type V = ReplacementModel;

    open spec fn deep_view(&self) -> ReplacementModel {
        ReplacementModel {
            find: self.find@,
            replace: self.replace@,
        }
    }
}

/// What a rewrite unit, or all of them together, contribute to the output.
#[derive(Debug, Clone)]
pub struct TransformationResult {
    /// Import source and the names to import from it, in order of first mention.
    pub imports_to_add: Vec<(String, Vec<String>)>,
    pub imports_to_remove: Vec<String>,
    pub setup: Vec<String>,
    pub reactive_state: Vec<String>,
    pub computed_properties: Vec<String>,
    pub methods: Vec<String>,
    pub watchers: Vec<String>,
    pub lifecycle_hooks: Vec<String>,
    pub template_replacements: Vec<TemplateReplacement>,
    pub additional_scripts: Vec<String>,
    pub skip_data_properties: Vec<String>,
    /// Property name, with the declaration proposed for it and its priority; each name once.
    pub data_refs: Vec<(String, (String, u8))>,
    pub resolved_identifiers: Vec<String>,
}

/// The mathematical content of [`TransformationResult`].
pub struct ResultModel {
    pub imports_to_add: Seq<(Seq<char>, Seq<Seq<char>>)>,
    pub imports_to_remove: Seq<Seq<char>>,
    pub setup: Seq<Seq<char>>,
    pub reactive_state: Seq<Seq<char>>,
    pub computed_properties: Seq<Seq<char>>,
    pub methods: Seq<Seq<char>>,
    pub watchers: Seq<Seq<char>>,
    pub lifecycle_hooks: Seq<Seq<char>>,
    pub template_replacements: Seq<ReplacementModel>,
    pub additional_scripts: Seq<Seq<char>>,
    pub skip_data_properties: Seq<Seq<char>>,
    pub data_refs: Seq<(Seq<char>, (Seq<char>, u8))>,
    pub resolved_identifiers: Seq<Seq<char>>,
}

impl DeepView for TransformationResult {
    type V = ResultModel;

    open spec fn deep_view(&self) -> ResultModel {
        ResultModel {
            imports_to_add: self.imports_to_add.deep_view(),
            imports_to_remove: self.imports_to_remove.deep_view(),
            setup: self.setup.deep_view(),
            reactive_state: self.reactive_state.deep_view(),
            computed_properties: self.computed_properties.deep_view(),
            methods: self.methods.deep_view(),
            watchers: self.watchers.deep_view(),
            lifecycle_hooks: self.lifecycle_hooks.deep_view(),
            template_replacements: self.template_replacements.deep_view(),
            additional_scripts: self.additional_scripts.deep_view(),
            skip_data_properties: self.skip_data_properties.deep_view(),
            data_refs: self.data_refs.deep_view(),
            resolved_identifiers: self.resolved_identifiers.deep_view(),
        }
    }
}

/// A directive with the variables it uses.
#[derive(Debug, Clone)]
pub struct VueDirective {
    pub name: String,
    pub value: String,
    pub element: String,
    pub variables_used: Vec<String>,
}

/// The mathematical content of [`VueDirective`].
pub struct VueDirectiveModel {
    pub name: Seq<char>,
    pub value: Seq<char>,
    pub element: Seq<char>,
    pub variables_used: Seq<Seq<char>>,
}

impl DeepView for VueDirective {
    type V = VueDirectiveModel;

    open spec fn deep_view(&self) -> VueDirectiveModel {
        VueDirectiveModel {
            name: self.name@,
            value: self.value@,
            element: self.element@,
            variables_used: self.variables_used.deep_view(),
        }
    }
}

/// An interpolation with the variables it uses.
#[derive(Debug, Clone)]
pub struct MustacheExpression {
    pub content: String,
    pub variables_used: Vec<String>,
}

/// The mathematical content of [`MustacheExpression`].
pub struct MustacheExpressionModel {
    pub content: Seq<char>,
    pub variables_used: Seq<Seq<char>>,
}

impl DeepView for MustacheExpression {
    type V = MustacheExpressionModel;

    open spec fn deep_view(&self) -> MustacheExpressionModel {
        MustacheExpressionModel {
            content: self.content@,
            variables_used: self.variables_used.deep_view(),
        }
    }
}

/// A template with what was found in it.
#[derive(Debug, Clone)]
pub struct ParsedTemplate {
    pub content: String,
    pub directives: Vec<VueDirective>,
    pub mustache_expressions: Vec<MustacheExpression>,
}

/// The mathematical content of [`ParsedTemplate`].
pub struct ParsedTemplateModel {
    pub content: Seq<char>,
    pub directives: Seq<VueDirectiveModel>,
    pub mustache_expressions: Seq<MustacheExpressionModel>,
}

impl DeepView for ParsedTemplate {
    type V = ParsedTemplateModel;

    open spec fn deep_view(&self) -> ParsedTemplateModel {
        ParsedTemplateModel {
            content: self.content@,
            directives: self.directives.deep_view(),
            mustache_expressions: self.mustache_expressions.deep_view(),
        }
    }
}

/// A prop as declared.
#[derive(Debug, Clone)]
pub struct PropDefinition {
    pub prop_type: String,
    pub required: bool,
    pub default: Option<String>,
}

/// The mathematical content of [`PropDefinition`].
pub struct PropDefinitionModel {
    pub prop_type: Seq<char>,
    pub required: bool,
    pub default: Option<Seq<char>>,
}

impl DeepView for PropDefinition {
    type V = PropDefinitionModel;

    open spec fn deep_view(&self) -> PropDefinitionModel {
        PropDefinitionModel {
            prop_type: self.prop_type@,
            required: self.required,
            default: self.default.deep_view(),
        }
    }
}

/// A computed property as declared.
#[derive(Debug, Clone)]
pub struct ComputedProperty {
    pub getter: Option<String>,
    pub setter: Option<String>,
    pub variables_used: Vec<String>,
}

/// The mathematical content of [`ComputedProperty`].
pub struct ComputedPropertyModel {
    pub getter: Option<Seq<char>>,
    pub setter: Option<Seq<char>>,
    pub variables_used: Seq<Seq<char>>,
}

impl DeepView for ComputedProperty {
    type V = ComputedPropertyModel;

    open spec fn deep_view(&self) -> ComputedPropertyModel {
        ComputedPropertyModel {
            getter: self.getter.deep_view(),
            setter: self.setter.deep_view(),
            variables_used: self.variables_used.deep_view(),
        }
    }
}

/// A method as declared.
#[derive(Debug, Clone)]
pub struct MethodDefinition {
    pub body: String,
    pub is_async: bool,
    pub variables_used: Vec<String>,
    pub methods_called: Vec<String>,
}

/// The mathematical content of [`MethodDefinition`].
pub struct MethodDefinitionModel {
    pub body: Seq<char>,
    pub is_async: bool,
    pub variables_used: Seq<Seq<char>>,
    pub methods_called: Seq<Seq<char>>,
}

impl DeepView for MethodDefinition {
    type V = MethodDefinitionModel;

    open spec fn deep_view(&self) -> MethodDefinitionModel {
        MethodDefinitionModel {
            body: self.body@,
            is_async: self.is_async,
            variables_used: self.variables_used.deep_view(),
            methods_called: self.methods_called.deep_view(),
        }
    }
}

/// A watcher as declared.
#[derive(Debug, Clone)]
pub struct WatcherDefinition {
    pub handler: String,
    pub variables_used: Vec<String>,
}

/// The mathematical content of [`WatcherDefinition`].
pub struct WatcherDefinitionModel {
    pub handler: Seq<char>,
    pub variables_used: Seq<Seq<char>>,
}

impl DeepView for WatcherDefinition {
    type V = WatcherDefinitionModel;

    open spec fn deep_view(&self) -> WatcherDefinitionModel {
        WatcherDefinitionModel {
            handler: self.handler@,
            variables_used: self.variables_used.deep_view(),
        }
    }
}

/// A lifecycle hook as declared.
#[derive(Debug, Clone)]
pub struct LifecycleHook {
    pub body: String,
    pub variables_used: Vec<String>,
    pub methods_called: Vec<String>,
}

/// The mathematical content of [`LifecycleHook`].
pub struct LifecycleHookModel {
    pub body: Seq<char>,
    pub variables_used: Seq<Seq<char>>,
    pub methods_called: Seq<Seq<char>>,
}

impl DeepView for LifecycleHook {
    type V = LifecycleHookModel;

    open spec fn deep_view(&self) -> LifecycleHookModel {
        LifecycleHookModel {
            body: self.body@,
            variables_used: self.variables_used.deep_view(),
            methods_called: self.methods_called.deep_view(),
        }
    }
}

/// A component object, option by option. Each table is a list of (name, value) pairs.
#[derive(Debug, Clone)]
pub struct ParsedScript {
    pub name: Option<String>,
    pub props: Option<Vec<(String, PropDefinition)>>,
    pub data: Option<Vec<(String, String)>>,
    pub computed: Option<Vec<(String, ComputedProperty)>>,
    pub methods: Option<Vec<(String, MethodDefinition)>>,
    pub watch: Option<Vec<(String, WatcherDefinition)>>,
    pub lifecycle_hooks: Option<Vec<(String, LifecycleHook)>>,
    pub other_options: Vec<(String, String)>,
}

/// The mathematical content of [`ParsedScript`].
pub struct ParsedScriptModel {
    pub name: Option<Seq<char>>,
    pub props: Option<Seq<(Seq<char>, PropDefinitionModel)>>,
    pub data: Option<Seq<(Seq<char>, Seq<char>)>>,
    pub computed: Option<Seq<(Seq<char>, ComputedPropertyModel)>>,
    pub methods: Option<Seq<(Seq<char>, MethodDefinitionModel)>>,
    pub watch: Option<Seq<(Seq<char>, WatcherDefinitionModel)>>,
    pub lifecycle_hooks: Option<Seq<(Seq<char>, LifecycleHookModel)>>,
    pub other_options: Seq<(Seq<char>, Seq<char>)>,
}

impl DeepView for ParsedScript {
    type V = ParsedScriptModel;

    open spec fn deep_view(&self) -> ParsedScriptModel {
        ParsedScriptModel {
            name: self.name.deep_view(),
            props: self.props.deep_view(),
            data: self.data.deep_view(),
            computed: self.computed.deep_view(),
            methods: self.methods.deep_view(),
            watch: self.watch.deep_view(),
            lifecycle_hooks: self.lifecycle_hooks.deep_view(),
            other_options: self.other_options.deep_view(),
        }
    }
}

/// A component file, section by section.
#[derive(Debug, Clone)]
pub struct ParsedSFC {
    pub template: Option<ParsedTemplate>,
    pub script: Option<ParsedScript>,
    pub style: Option<String>,
}

/// The mathematical content of [`ParsedSFC`].
pub struct ParsedSfcModel {
    pub template: Option<ParsedTemplateModel>,
    pub script: Option<ParsedScriptModel>,
    pub style: Option<Seq<char>>,
}

impl DeepView for ParsedSFC {
    type V = ParsedSfcModel;

    open spec fn deep_view(&self) -> ParsedSfcModel {
        ParsedSfcModel {
            template: self.template.deep_view(),
            script: self.script.deep_view(),
            style: self.style.deep_view(),
        }
    }
}

impl Clone for WatcherDetail {
    fn clone(&self) -> (r: Self)
        ensures
            r.deep_view() == self.deep_view(),
    {
        WatcherDetail {
            watched_property: self.watched_property.clone(),
            handler_body: self.handler_body.clone(),
            is_async: self.is_async,
            param_names: (self.param_names.0.clone(), self.param_names.1.clone()),
        }
    }
}

/// The facts of a script of which nothing is known yet.
pub open spec fn empty_script_facts() -> ScriptFacts {
    ScriptFacts {
        identifiers: Seq::empty(),
        function_calls: Seq::empty(),
        function_call_details: Seq::empty(),
        methods: Seq::empty(),
        method_details: Seq::empty(),
        computed_properties: Seq::empty(),
        computed_details: Seq::empty(),
        imports: Seq::empty(),
        setup_content: None,
        props: Seq::empty(),
        data_properties: Seq::empty(),
        head_method: None,
        fetch_method: None,
        watchers: Seq::empty(),
        nuxt_i18n: None,
        async_data_method: None,
    }
}

/// The facts of a template of which nothing is known yet.
pub open spec fn empty_template_facts() -> TemplateFacts {
    TemplateFacts {
        identifiers: Seq::empty(),
        function_calls: Seq::empty(),
        function_call_details: Seq::empty(),
        vue_directives: Seq::empty(),
        mustache_expressions: Seq::empty(),
    }
}

impl ScriptParsingState {
    /// Facts with nothing gathered.
    pub fn new() -> (r: Self)
        ensures
            r.deep_view() == empty_script_facts(),
    {
        let r = ScriptParsingState {
            identifiers: Vec::new(),
            function_calls: Vec::new(),
            function_call_details: Vec::new(),
            methods: Vec::new(),
            method_details: Vec::new(),
            computed_properties: Vec::new(),
            computed_details: Vec::new(),
            imports: Vec::new(),
            setup_content: None,
            props: Vec::new(),
            data_properties: Vec::new(),
            head_method: None,
            fetch_method: None,
            watchers: Vec::new(),
            nuxt_i18n: None,
            async_data_method: None,
        };
        proof {
            let m = r.deep_view();
            assert(m.identifiers =~= Seq::empty());
            assert(m.function_calls =~= Seq::empty());
            assert(m.function_call_details =~= Seq::empty());
            assert(m.methods =~= Seq::empty());
            assert(m.method_details =~= Seq::empty());
            assert(m.computed_properties =~= Seq::empty());
            assert(m.computed_details =~= Seq::empty());
            assert(m.imports =~= Seq::empty());
            assert(m.props =~= Seq::empty());
            assert(m.data_properties =~= Seq::empty());
            assert(m.watchers =~= Seq::empty());
        }
        r
    }
}

impl Default for ScriptParsingState {
    fn default() -> (r: Self)
        ensures
            r.deep_view() == empty_script_facts(),
    {
        ScriptParsingState::new()
    }
}

impl TemplateParsingState {
    /// Facts with nothing gathered.
    pub fn new() -> (r: Self)
        ensures
            r.deep_view() == empty_template_facts(),
    {
        let r = TemplateParsingState {
            identifiers: Vec::new(),
            function_calls: Vec::new(),
            function_call_details: Vec::new(),
            vue_directives: Vec::new(),
            mustache_expressions: Vec::new(),
        };
        proof {
            let m = r.deep_view();
            assert(m.identifiers =~= Seq::empty());
            assert(m.function_calls =~= Seq::empty());
            assert(m.function_call_details =~= Seq::empty());
            assert(m.vue_directives =~= Seq::empty());
            assert(m.mustache_expressions =~= Seq::empty());
        }
        r
    }
}

impl Default for TemplateParsingState {
    fn default() -> (r: Self)
        ensures
            r.deep_view() == empty_template_facts(),
    {
        TemplateParsingState::new()
    }
}

/// The configuration with every toggle off and every table absent.
pub open spec fn default_config(c: TransformerConfig) -> bool {
    &&& !c.enable_i18n
    &&& !c.enable_vuex_to_pinia
    &&& !c.enable_asset_transforms
    &&& c.pinia_store_path is None
    &&& c.mixins is None
    &&& c.imports_rewrite is None
    &&& c.additional_imports is None
    &&& c.import_keeplist is None
}

impl Default for TransformerConfig {
    fn default() -> (r: Self)
        ensures
            default_config(r),
    {
        TransformerConfig {
            enable_i18n: false,
            enable_vuex_to_pinia: false,
            enable_asset_transforms: false,
            pinia_store_path: None,
            mixins: None,
            imports_rewrite: None,
            additional_imports: None,
            import_keeplist: None,
        }
    }
}

impl Default for RewriteOptions {
    fn default() -> (r: Self)
        ensures
            r.mixins is None,
            r.imports_rewrite is None,
            r.additional_imports is None,
            r.import_keeplist is None,
    {
        RewriteOptions { mixins: None, imports_rewrite: None, additional_imports: None, import_keeplist: None }
    }
}

/// Everything that the rewrite units read.
#[derive(Debug, Clone)]
pub struct TransformationContext {
    pub script_state: ScriptParsingState,
    pub template_state: TemplateParsingState,
    pub sfc_sections: SfcSections,
}

/// The mathematical content of [`TransformationContext`].
pub struct ContextModel {
    pub script: ScriptFacts,
    pub template: TemplateFacts,
    pub sections: SectionsModel,
}

impl DeepView for TransformationContext {
    type V = ContextModel;

    open spec fn deep_view(&self) -> ContextModel {
        ContextModel {
            script: self.script_state.deep_view(),
            template: self.template_state.deep_view(),
            sections: self.sfc_sections.deep_view(),
        }
    }
}

} // verus!
