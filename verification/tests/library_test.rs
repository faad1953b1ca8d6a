use vue_options_to_composition::assemble::{apply_template_replacements, assemble, rewrite_alias};
use vue_options_to_composition::imports::{format_import_statement, format_imports, sort_distinct};
use vue_options_to_composition::patterns::{
    pattern_captures, pattern_escape, pattern_matches, pattern_replace, pattern_search, pattern_split,
    replace_matches,
};
use vue_options_to_composition::script::{parse_import_line, rewrite_import_path};
use vue_options_to_composition::sections::find_closing_tag;
use vue_options_to_composition::strs::{
    str_find, str_join, str_lines, str_lowercase, str_replace, str_replace_whole, str_rfind, str_split,
    str_trim, str_trim_matches, str_uppercase,
};
use vue_options_to_composition::syntax::parse_javascript;
use vue_options_to_composition::transformers::body_transforms::{
    apply_reactive_transforms, resolve_reference, sort_longest_first,
};
use vue_options_to_composition::transformers::emit::{BareEmitFill, EMIT_TEMPLATE_PATTERN};
use vue_options_to_composition::transformers::import_rewrite::to_kebab_case;
use vue_options_to_composition::transformers::vue2::Vue2Transformer;
use vue_options_to_composition::transformers::vuex::{capitalize_first_letter, VuexTransformer};
use vue_options_to_composition::transformers::{Transformer, TransformerOrchestrator};
use vue_options_to_composition::{
    parse_script_section, parse_sfc_sections, parse_template_section, rewrite_sfc, DataPropertyInfo,
    MixinConfig, RewriteOptions, ScriptParsingState, SfcSections, TemplateParsingState, TemplateReplacement,
    TransformError, TransformationContext, TransformationResult, TransformerConfig,
};

fn strings(items: &[&str]) -> Vec<String> {
    items.iter().map(|s| s.to_string()).collect()
}

fn empty_context() -> TransformationContext {
    TransformationContext {
        script_state: ScriptParsingState::new(),
        template_state: TemplateParsingState::new(),
        sfc_sections: SfcSections {
            template_content: None,
            script_content: None,
            style_content: None,
            style_attributes: None,
        },
    }
}

#[test]
fn split_reports_each_region_as_it_stands_in_the_file() {
    let file = "<template>\n  <p>one</p>\n</template>\n<script>\nexport default {}\n</script>\n<style lang=\"scss\" scoped>\n.a { color: red; }\n</style>";
    let sections = parse_sfc_sections(file).unwrap();
    let template = sections.template_content.clone().unwrap();
    let script = sections.script_content.clone().unwrap();
    let style = sections.style_content.clone().unwrap();
    let attributes = sections.style_attributes.clone().unwrap();
    assert_eq!(template, "\n  <p>one</p>\n");
    assert_eq!(script, "\nexport default {}\n");
    assert_eq!(style, "\n.a { color: red; }\n");
    assert_eq!(attributes, " lang=\"scss\" scoped");
    let again = format!(
        "<template>{}</template>\n<script>{}</script>\n<style{}>{}</style>",
        template, script, attributes, style
    );
    assert_eq!(again, file);
}

#[test]
fn split_keeps_a_nested_template_whole() {
    let file = "<template><div><template v-if=\"a\"><p>x</p></template></div></template>";
    let sections = parse_sfc_sections(file).unwrap();
    assert_eq!(
        sections.template_content.unwrap(),
        "<div><template v-if=\"a\"><p>x</p></template></div>"
    );
    let spaced = parse_sfc_sections("<template>\n <template>a</template> \n</template>").unwrap();
    assert_eq!(spaced.template_content.unwrap(), "\n <template>a</template> \n");
}

#[test]
fn split_fails_on_an_unclosed_section() {
    assert_eq!(parse_sfc_sections("<template><p>x</p>").err(), Some(TransformError::MalformedNesting));
    assert_eq!(
        parse_sfc_sections("<template><template></template>").err(),
        Some(TransformError::MalformedNesting)
    );
    assert_eq!(rewrite_sfc("<script>let a = 1;", None).err(), Some(TransformError::MalformedNesting));
}

#[test]
fn blank_sections_are_reported_and_not_written() {
    let file = "<template>   </template><style></style>";
    let sections = parse_sfc_sections(file).unwrap();
    assert_eq!(sections.template_content, Some("   ".to_string()));
    assert!(sections.script_content.is_none());
    assert_eq!(sections.style_content, Some("".to_string()));
    assert_eq!(sections.style_attributes, Some("".to_string()));
    assert_eq!(rewrite_sfc(file, None).unwrap(), "<script setup>\n</script>");
}

#[test]
fn a_script_that_the_grammar_rejects_fails() {
    let mut state = ScriptParsingState::new();
    let outcome = parse_script_section("export default { data() { return { a: ", &mut state);
    assert_eq!(outcome.err(), Some(TransformError::GrammarParseFailure));
    assert!(state.data_properties.is_empty());
    assert_eq!(
        rewrite_sfc("<script>\nexport default { data() { return { a: \n</script>", None).err(),
        Some(TransformError::GrammarParseFailure)
    );
    assert!(parse_javascript("f(a, ").is_none());
    let mut template = TemplateParsingState::new();
    let outcome = parse_template_section("<p>{{ a + }}</p>", &mut template);
    assert_eq!(outcome.err(), Some(TransformError::GrammarParseFailure));
    assert_eq!(template.mustache_expressions.len(), 1);
}

#[test]
fn a_shorter_name_does_not_capture_a_longer_one() {
    let mut context = empty_context();
    context.script_state.data_properties.push(DataPropertyInfo { name: "count".to_string(), value: None });
    context.script_state.methods.push("countItems".to_string());
    let config = TransformerConfig::default();
    assert_eq!(apply_reactive_transforms("this.countItems()", &context, &config), "countItems()");
    assert_eq!(
        apply_reactive_transforms("this.count + this.countItems(this.count_, this.count)", &context, &config),
        "count.value + countItems(/* FIXME: count_ */ count_, count.value)"
    );
    assert_eq!(str_replace_whole("a.b a.bc a.b.c a.b", "a.b", "X"), "X a.bc X.c X");
}

#[test]
fn stores_come_before_composables_whatever_else_is_imported() {
    let table = vec![
        ("@/composables/b".to_string(), strings(&["b"])),
        ("@/pages/c".to_string(), strings(&["c"])),
        ("@/stores/a".to_string(), strings(&["a"])),
        ("@/components/d".to_string(), strings(&["d"])),
    ];
    let expected = strings(&[
        "import { d } from '@/components/d';",
        "import { a } from '@/stores/a';",
        "import { b } from '@/composables/b';",
        "import { c } from '@/pages/c';",
    ]);
    assert_eq!(format_imports(&table), expected);
    let mut turned = table.clone();
    turned.reverse();
    assert_eq!(format_imports(&turned), expected);
}

#[test]
fn closing_tag_is_found_by_depth() {
    let text = "<a><b><a></a></b></a>tail";
    assert_eq!(find_closing_tag(text, 3, "a"), Some(17));
    assert_eq!(find_closing_tag(text, 9, "a"), Some(9));
    assert_eq!(find_closing_tag("<a><a></a>", 3, "a"), None);
}

#[test]
fn a_section_ends_where_the_closing_tags_outnumber_the_opening_tags() {
    let text = "<t><t>1</t><t><t>2</t></t></t>rest</t>";
    assert_eq!(find_closing_tag(text, 3, "t"), Some(26));
    assert_eq!(find_closing_tag(text, 6, "t"), Some(7));
    assert_eq!(find_closing_tag(text, 30, "t"), Some(34));
    assert_eq!(find_closing_tag(text, 35, "t"), None);
}

#[test]
fn error_messages_name_the_failure() {
    assert_eq!(
        TransformError::MalformedNesting.message(),
        "opening section tag without a matching closing tag"
    );
    assert_eq!(TransformError::GrammarParseFailure.message(), "the source could not be parsed");
}

#[test]
fn template_scanner_failure_is_a_parse_failure() {
    let mut state = TemplateParsingState::new();
    let outcome = parse_template_section("<select><xmp><script>\"use strict\";</script></select>", &mut state);
    assert_eq!(outcome.err(), Some(TransformError::GrammarParseFailure));
    assert!(state.vue_directives.is_empty());
}

#[test]
fn text_primitives_follow_their_definitions() {
    assert_eq!(str_find("abcabc", "bc"), Some(1));
    assert_eq!(str_rfind("abcabc", "bc"), Some(4));
    assert_eq!(str_find("abc", "x"), None);
    assert_eq!(str_replace("aaa", "aa", "b"), "ba");
    assert_eq!(str_replace("ab", "", "-"), "-a-b-");
    assert_eq!(str_trim(" \t x y \n"), "x y");
    assert_eq!(str_trim_matches("''a'b''", '\''), "a'b");
    assert_eq!(str_lines("a\r\nb\n\nc"), strings(&["a", "b", "", "c"]));
    assert_eq!(str_lines("a\n"), strings(&["a"]));
    assert_eq!(str_split("a,b,,", ','), strings(&["a", "b", "", ""]));
    assert_eq!(str_join(&strings(&["a", "b", "c"]), ", "), "a, b, c");
    assert_eq!(str_find("héllo wörld", "wö"), Some(6));
}

#[test]
fn case_mapping_changes_the_text() {
    assert_eq!(str_lowercase("ABC Def"), "abc def");
    assert_eq!(str_uppercase("abc Def"), "ABC DEF");
    assert_eq!(to_kebab_case("BSidebar"), "b-sidebar");
    assert_eq!(to_kebab_case("NuxtLink"), "nuxt-link");
    assert_eq!(capitalize_first_letter("user"), "User");
    assert_eq!(capitalize_first_letter(""), "");
}

#[test]
fn namespaces_are_words_before_a_slash() {
    assert_eq!(VuexTransformer::extract_namespace_from_string_arg("'user/setName'"), Some("user".to_string()));
    assert_eq!(VuexTransformer::extract_namespace_from_string_arg("'us-er/setName'"), None);
    assert_eq!(VuexTransformer::extract_namespace_from_string_arg("'setName'"), None);
    assert_eq!(
        VuexTransformer::extract_namespace_from_state_access("this.$store.state.cart.items"),
        Some("cart".to_string())
    );
}

#[test]
fn patterns_search_and_replace() {
    assert!(pattern_matches("a+b", "xaab"));
    assert!(!pattern_matches("a+b", "xb"));
    assert!(!pattern_matches("(", "("));
    let found = pattern_captures("(\\w)=(\\d)?", "a=1 b=");
    assert_eq!(found.len(), 2);
    assert_eq!(found[0], vec![Some("a=1".to_string()), Some("a".to_string()), Some("1".to_string())]);
    assert_eq!(found[1], vec![Some("b=".to_string()), Some("b".to_string()), None]);
    assert_eq!(pattern_replace("(\\w+)@", "a@ b@", "<$1>"), "<a> <b>");
    assert_eq!(pattern_replace("(", "text", "x"), "text");
    assert_eq!(pattern_split("\\d", "a1b22c"), strings(&["a", "b", "", "c"]));
    assert_eq!(pattern_escape("a.b(c)"), "a\\.b\\(c\\)");
    assert_eq!(pattern_escape("\\.+*?()|[]{}^$#&-~ ok"), "\\\\\\.\\+\\*\\?\\(\\)\\|\\[\\]\\{\\}\\^\\$\\#\\&\\-\\~ ok");
}

#[test]
fn a_search_gives_one_piece_more_than_matches() {
    let (pieces, found) = pattern_search("\\d", "a1b22c");
    assert_eq!(pieces, strings(&["a", "b", "", "c"]));
    assert_eq!(found.len() + 1, pieces.len());
    assert_eq!(found[1], vec![Some("2".to_string())]);
    let (pieces, found) = pattern_search("(", "a(b");
    assert_eq!(pieces, strings(&["a(b"]));
    assert!(found.is_empty());
}

#[test]
fn every_match_is_replaced_by_what_its_rule_chooses() {
    let body = "$emit('a', 1); $nuxt.$emit('b'); $emit(\"c\")";
    assert_eq!(
        replace_matches(EMIT_TEMPLATE_PATTERN, body, &BareEmitFill),
        "emit('a', 1); $nuxt.$emit('b'); emit('c')"
    );
    assert_eq!(replace_matches("(", body, &BareEmitFill), body);
    assert_eq!(replace_matches(EMIT_TEMPLATE_PATTERN, "no call", &BareEmitFill), "no call");
}

#[test]
fn syntax_tree_is_built_from_the_parser_records() {
    let tree = parse_javascript("f(a, 1)").unwrap();
    assert_eq!(tree.kind, "program");
    assert_eq!(tree.text, "f(a, 1)");
    let statement = tree.child(0);
    assert_eq!(statement.kind, "expression_statement");
    let call = statement.child(0);
    assert_eq!(call.kind, "call_expression");
    assert_eq!(call.child_count(), 2);
    assert_eq!(call.child_by_field_name("function").unwrap().text, "f");
    let arguments = call.child_by_field_name("arguments").unwrap();
    assert_eq!(arguments.kind, "arguments");
    assert_eq!(arguments.child_count(), 5);
    assert_eq!(arguments.child(1).text, "a");
    assert!(call.child_by_field_name("body").is_none());
}

#[test]
fn import_lines_are_read() {
    let info = parse_import_line("import Default, { a, b as c } from '~/lib/x';");
    let info = info.unwrap();
    assert_eq!(info.source, "@/lib/x");
    assert_eq!(info.imports.len(), 1);
    assert_eq!(info.imports[0].name, "Default, { a, b as c }");
    assert!(info.imports[0].is_default);
    let named = parse_import_line("import { a, b as c } from \"vue\"").unwrap();
    assert_eq!(named.source, "vue");
    assert_eq!(named.imports.len(), 2);
    assert_eq!(named.imports[0].name, "a");
    assert_eq!(named.imports[1].name, "b");
    assert_eq!(named.imports[1].alias, Some("c".to_string()));
    let namespace = parse_import_line("import * as all from './all'").unwrap();
    assert!(namespace.imports[0].is_namespace);
    assert_eq!(namespace.imports[0].name, "all");
    assert!(parse_import_line("import x").is_none());
    assert_eq!(rewrite_import_path("~/a"), "@/a");
    assert_eq!(rewrite_import_path("./a"), "./a");
}

#[test]
fn script_facts_are_gathered() {
    let script = "import { mapGetters } from 'vuex';\nconst limit = 3;\nexport default {\n  props: { size: { type: Number, required: true, default: 1 } },\n  data() { return { count: 0 }; },\n  computed: {\n    double() { return this.count * 2; },\n    label: { get() { return this.count; }, set(value) { this.count = value; } },\n  },\n  methods: { async load(id, force) { await go(id); } },\n  watch: { count(now) { log(now); } },\n  mounted() { this.load(1); },\n};";
    let mut state = ScriptParsingState::new();
    parse_script_section(script, &mut state).unwrap();
    assert_eq!(state.imports.len(), 1);
    assert_eq!(state.imports[0].source, "vuex");
    assert_eq!(state.setup_content, Some("const limit = 3;".to_string()));
    assert_eq!(state.props.len(), 1);
    assert_eq!(state.props[0].name, "size");
    assert_eq!(state.props[0].prop_type, Some("Number".to_string()));
    assert_eq!(state.props[0].required, Some(true));
    assert_eq!(state.props[0].default_value, Some("1".to_string()));
    assert_eq!(state.data_properties.len(), 1);
    assert_eq!(state.data_properties[0].name, "count");
    assert_eq!(state.data_properties[0].value, Some("0".to_string()));
    assert_eq!(state.computed_properties, strings(&["double", "label"]));
    assert_eq!(state.computed_details[0].getter, Some("return this.count * 2;".to_string()));
    assert!(state.computed_details[0].is_simple_function);
    assert_eq!(state.computed_details[1].setter, Some("this.count = value;".to_string()));
    assert_eq!(state.computed_details[1].setter_parameter, Some("value".to_string()));
    assert_eq!(state.methods, strings(&["load"]));
    assert_eq!(state.method_details[0].parameters, strings(&["id", "force"]));
    assert!(state.method_details[0].is_async);
    assert_eq!(state.method_details[0].body, "await go(id);");
    assert_eq!(state.method_details[1].name, "mounted");
    assert_eq!(state.watchers.len(), 1);
    assert_eq!(state.watchers[0].watched_property, "count");
    assert_eq!(state.watchers[0].param_names, ("now".to_string(), "oldVal".to_string()));
    assert!(state.identifiers.contains(&"count".to_string()));
    assert!(state.function_calls.contains(&"go".to_string()));
    assert!(state.function_calls.contains(&"this.load".to_string()));
}

#[test]
fn template_facts_are_gathered() {
    let template = "<div :class=\"box\" v-if=\"shown\" id=\"x\"><b @click=\"go(1)\">{{ title }} and {{ fmt(n) }}</b></div>";
    let mut state = TemplateParsingState::new();
    parse_template_section(template, &mut state).unwrap();
    let names: Vec<&str> = state.vue_directives.iter().map(|d| d.name.as_str()).collect();
    assert_eq!(names, vec![":class", "v-if", "@click"]);
    assert_eq!(state.vue_directives[0].element_tag, "div");
    assert_eq!(state.vue_directives[2].element_tag, "b");
    assert_eq!(state.vue_directives[2].value, "go(1)");
    let mustaches: Vec<&str> = state.mustache_expressions.iter().map(|m| m.content.as_str()).collect();
    assert_eq!(mustaches, vec!["title", "fmt(n)"]);
    assert_eq!(state.identifiers, strings(&["box", "shown", "go", "title", "fmt", "n"]));
    assert_eq!(state.function_calls, strings(&["go", "fmt"]));
    assert_eq!(state.function_call_details[0].arguments, strings(&["(", "1", ")"]));
}

#[test]
fn higher_priority_wins_in_either_order() {
    let mut low = TransformationResult::new();
    low.set_data_ref("count", "const count = ref(0);", 0);
    let mut high = TransformationResult::new();
    high.set_data_ref("count", "const count = ref(data.count);", 10);

    let mut first = TransformationResult::new();
    first.merge(low.clone());
    first.merge(high.clone());
    let mut second = TransformationResult::new();
    second.merge(high);
    second.merge(low);
    assert_eq!(first.data_refs, vec![("count".to_string(), ("const count = ref(data.count);".to_string(), 10))]);
    assert_eq!(second.data_refs, first.data_refs);

    let mut tie = TransformationResult::new();
    tie.set_data_ref("a", "first", 5);
    let mut other = TransformationResult::new();
    other.set_data_ref("a", "second", 5);
    tie.merge(other);
    assert_eq!(tie.data_refs, vec![("a".to_string(), ("first".to_string(), 5))]);
}

#[test]
fn a_merge_keeps_each_name_once_with_the_stronger_proposal() {
    let mut held = TransformationResult::new();
    held.set_data_ref("a", "held a", 5);
    held.set_data_ref("b", "held b", 1);
    held.add_import("vue", "ref");
    let mut brought = TransformationResult::new();
    brought.set_data_ref("b", "brought b", 2);
    brought.set_data_ref("c", "brought c", 0);
    brought.set_data_ref("a", "brought a", 5);
    brought.add_import("vue", "watch");
    brought.add_import("pinia", "defineStore");
    held.merge(brought);
    assert_eq!(
        held.data_refs,
        vec![
            ("a".to_string(), ("held a".to_string(), 5)),
            ("b".to_string(), ("brought b".to_string(), 2)),
            ("c".to_string(), ("brought c".to_string(), 0)),
        ]
    );
    assert_eq!(
        held.imports_to_add,
        vec![("vue".to_string(), strings(&["ref", "watch"])), ("pinia".to_string(), strings(&["defineStore"]))]
    );
}

#[test]
fn merged_results_emit_proposals_by_priority_then_name() {
    let mut a = TransformationResult::new();
    a.set_data_ref("zeta", "const zeta = ref(1);", 0);
    a.set_data_ref("alpha", "const alpha = ref(2);", 0);
    a.add_computed_property("const c = computed(() => 1);".to_string());
    a.add_import("vuex", "mapState");
    a.remove_import_source("vuex");
    let mut b = TransformationResult::new();
    b.set_data_ref("mid", "const mid = ref(3);", 10);
    b.add_reactive_state("const early = 1;".to_string());
    let mut result = TransformationResult::new();
    let mut kept = TransformationResult::new();
    TransformerOrchestrator::merge_results_intelligently(
        &mut kept,
        vec![("a", a.clone()), ("b", b.clone())],
        &strings(&["vuex"]),
    );
    assert_eq!(
        kept.imports_to_add,
        vec![("vuex".to_string(), strings(&["mapState"])), ("vue".to_string(), strings(&["computed"]))]
    );
    TransformerOrchestrator::merge_results_intelligently(&mut result, vec![("a", a), ("b", b)], &strings(&[]));
    assert_eq!(
        result.reactive_state,
        strings(&["const early = 1;", "const mid = ref(3);", "const alpha = ref(2);", "const zeta = ref(1);"])
    );
    assert_eq!(result.imports_to_add, vec![("vue".to_string(), strings(&["computed"]))]);
}

#[test]
fn import_block_is_the_same_for_reordered_names() {
    let one = vec![
        ("./local".to_string(), strings(&["b", "a", "b"])),
        ("vue".to_string(), strings(&["ref", "computed", "ref"])),
        ("@/stores/user".to_string(), strings(&["useUserStore"])),
        ("@/composables/useHttp".to_string(), strings(&["useHttp"])),
        ("lodash".to_string(), strings(&["map"])),
        ("__existing__".to_string(), strings(&["import z from 'z';", "import a from 'a';"])),
        ("empty".to_string(), strings(&[])),
    ];
    let two = vec![
        ("./local".to_string(), strings(&["a", "b"])),
        ("vue".to_string(), strings(&["computed", "ref"])),
        ("@/stores/user".to_string(), strings(&["useUserStore"])),
        ("@/composables/useHttp".to_string(), strings(&["useHttp"])),
        ("lodash".to_string(), strings(&["map"])),
        ("__existing__".to_string(), strings(&["import z from 'z';", "import a from 'a';"])),
        ("empty".to_string(), strings(&[])),
    ];
    let expected = strings(&[
        "import { computed, ref } from 'vue';",
        "import z from 'z';",
        "import a from 'a';",
        "import { map } from 'lodash';",
        "import { a, b } from './local';",
        "import { useUserStore } from '@/stores/user';",
        "import { useHttp } from '@/composables/useHttp';",
    ]);
    assert_eq!(format_imports(&one), expected);
    assert_eq!(format_imports(&two), expected);
    assert_eq!(sort_distinct(&strings(&["b", "a", "b", "A"])), strings(&["A", "a", "b"]));
    assert_eq!(format_import_statement("vue", &strings(&["watch", "ref"])), "import { ref, watch } from 'vue';");
}

#[test]
fn unresolved_reference_is_flagged() {
    let mut context = empty_context();
    context.script_state.data_properties.push(DataPropertyInfo { name: "count".to_string(), value: None });
    context.script_state.methods.push("go".to_string());
    let mut config = TransformerConfig::default();
    config.mixins = Some(vec![(
        "price".to_string(),
        MixinConfig { name: "usePrice".to_string(), imports: strings(&["currency"]) },
    )]);
    assert_eq!(resolve_reference(&context, &config, "ghost"), "/* FIXME: ghost */ ghost");
    assert_eq!(resolve_reference(&context, &config, "count"), "count");
    assert_eq!(resolve_reference(&context, &config, "$router"), "$router");
    assert_eq!(resolve_reference(&context, &config, "currency"), "currency");
    assert_eq!(
        apply_reactive_transforms("this.count++; this.go(); this.ghost = this.currency;", &context, &config),
        "count.value++; go(); /* FIXME: ghost */ ghost = currency;"
    );
}

#[test]
fn longer_names_are_rewritten_first() {
    assert_eq!(sort_longest_first(&strings(&["a", "abc", "ab", "xy"])), strings(&["abc", "ab", "xy", "a"]));
    let mut context = empty_context();
    context.script_state.data_properties.push(DataPropertyInfo { name: "count".to_string(), value: None });
    context.script_state.data_properties.push(DataPropertyInfo { name: "countOptions".to_string(), value: None });
    let config = TransformerConfig::default();
    assert_eq!(
        apply_reactive_transforms("f(this.countOptions, this.count)", &context, &config),
        "f(countOptions.value, count.value)"
    );
}

#[test]
fn data_and_method_become_reactive() {
    let sfc = "<script>\nexport default {\n  data() { return { count: 0 }; },\n  methods: { up() { this.count++; } }\n}\n</script>";
    let out = rewrite_sfc(sfc, None).unwrap();
    assert_eq!(
        out,
        "<script setup>\nimport { ref } from 'vue';\n\nconst count = ref(0);\n\nconst up = () => {\n  this.count++;\n};\n</script>"
            .replace("this.count++", "count.value++")
    );
}

#[test]
fn setter_parameter_name_is_kept() {
    let sfc = "<script>\nexport default {\n  data() { return { n: 1 }; },\n  computed: { twice: { get() { return this.n; }, set(value) { this.n = value; } } }\n}\n</script>";
    let out = rewrite_sfc(sfc, None).unwrap();
    assert!(out.contains("  set(value) {\n    n.value = value;\n  },"));
    assert!(!out.contains("set(v)"));
}

#[test]
fn two_units_share_one_import_entry() {
    let sfc = "<script>\nexport default {\n  data() { return { n: 1 }; },\n  computed: { a() { return 1; } },\n  mounted() { this.$nextTick(() => {}); }\n}\n</script>";
    let out = rewrite_sfc(sfc, None).unwrap();
    assert!(out.contains("import { computed, nextTick, onMounted, ref } from 'vue';\n"));
    assert_eq!(out.matches("from 'vue'").count(), 1);
}

#[test]
fn assembly_writes_categories_in_order() {
    let mut result = TransformationResult::new();
    result.add_lifecycle_hook("hook".to_string());
    result.add_watcher("watch('~/a')".to_string());
    result.add_method("method('~/a')".to_string());
    result.add_setup("setup".to_string());
    result.add_additional_script("<script>\nimport('~/x')\n</script>".to_string());
    result.add_template_replacement("$t(", "t(");
    let sections = SfcSections {
        template_content: Some("<p>{{ $t('a') }}</p>".to_string()),
        script_content: None,
        style_content: Some(".a {}".to_string()),
        style_attributes: Some("scoped".to_string()),
    };
    assert_eq!(
        assemble(&sections, &result),
        "<template>\n<p>{{ t('a') }}</p>\n</template>\n<script setup>\nsetup\n\nmethod('@/a')\n\nwatch('~/a')\n\nhook\n</script>\n<script>\nimport('@/x')\n</script>\n<style scoped>\n.a {}\n</style>"
    );
    assert_eq!(rewrite_alias("import('~/a') + \"~/b\""), "import('@/a') + \"@/b\"");
    let pairs = vec![
        TemplateReplacement { find: "a".to_string(), replace: "b".to_string() },
        TemplateReplacement { find: "b".to_string(), replace: "c".to_string() },
    ];
    assert_eq!(apply_template_replacements("aab", &pairs), "ccc");
    assert_eq!(
        result.get_all_setup_code(),
        strings(&["setup", "method('~/a')", "watch('~/a')", "hook"])
    );
}

#[test]
fn orchestrator_registers_units_in_order() {
    let orchestrator = TransformerOrchestrator::new();
    assert_eq!(
        orchestrator.available_transformers(),
        vec![
            "axios",
            "import_rewrite",
            "mixin",
            "nuxt",
            "router",
            "vue2",
            "filters",
            "vuex",
            "composition",
            "emit",
            "i18n",
            "head",
            "assets"
        ]
    );
    let mut context = empty_context();
    context.script_state.identifiers.push("$axios".to_string());
    context.script_state.identifiers.push("$route".to_string());
    let config = TransformerConfig::default();
    let body = orchestrator.transform_method_body("this.$axios.get(this.$route.path)", &context, &config);
    assert_eq!(body, "http.get(route.path)");
    assert_eq!(TransformerOrchestrator::get_body_transformer().apply("this.$axios", &context, &config), "http");
    assert!(Vue2Transformer::new().should_transform(&context, &config) == false);
    assert_eq!(Vue2Transformer::new().name(), "vue2");
}

#[test]
fn template_ref_names_become_variables() {
    assert_eq!(Vue2Transformer::ref_name_to_variable("my-input"), "myInputRef");
    assert_eq!(Vue2Transformer::ref_name_to_variable("formRef"), "formRef");
    assert_eq!(Vue2Transformer::ref_name_to_variable("a-bC"), "aBcRef");
}

#[test]
fn options_rename_tags() {
    let options = RewriteOptions {
        mixins: None,
        imports_rewrite: None,
        additional_imports: Some(vec![(
            "NuxtLink".to_string(),
            vue_options_to_composition::AdditionalImport {
                import_path: None,
                rewrite_to: Some("router-link".to_string()),
            },
        )]),
        import_keeplist: None,
    };
    let out = rewrite_sfc("<template><nuxt-link to=\"/\">x</nuxt-link></template>", Some(options)).unwrap();
    assert_eq!(out, "<template>\n<router-link to=\"/\">x</router-link>\n</template>\n<script setup>\n</script>");
}
