use vue_options_to_composition::transformers::assets::AssetsTransformer;
use vue_options_to_composition::transformers::composition::CompositionTransformer;
use vue_options_to_composition::transformers::emit::EmitTransformer;
use vue_options_to_composition::transformers::filters::FiltersTransformer;
use vue_options_to_composition::transformers::head::HeadTransformer;
use vue_options_to_composition::transformers::i18n::I18nTransformer;
use vue_options_to_composition::transformers::import_rewrite::ImportRewriteTransformer;
use vue_options_to_composition::transformers::mixin::MixinTransformer;
use vue_options_to_composition::transformers::nuxt::NuxtTransformer;
use vue_options_to_composition::transformers::router::RouterTransformer;
use vue_options_to_composition::transformers::vue2::Vue2Transformer;
use vue_options_to_composition::transformers::vuex::VuexTransformer;
use vue_options_to_composition::{
    parse_script_section, parse_sfc_sections, parse_template_section, ImportRewrite, MixinConfig,
    ScriptParsingState, TemplateParsingState, TransformationContext, TransformerConfig,
};

fn strings(items: &[&str]) -> Vec<String> {
    items.iter().map(|s| s.to_string()).collect()
}

fn context_of(sfc: &str) -> TransformationContext {
    let sections = parse_sfc_sections(sfc).unwrap();
    let mut script_state = ScriptParsingState::new();
    let mut template_state = TemplateParsingState::new();
    if let Some(script) = &sections.script_content {
        parse_script_section(script, &mut script_state).unwrap();
    }
    if let Some(template) = &sections.template_content {
        parse_template_section(template, &mut template_state).unwrap();
    }
    TransformationContext { script_state, template_state, sfc_sections: sections }
}

#[test]
fn head_gets_trailing_commas() {
    assert_eq!(
        HeadTransformer::add_trailing_commas("return {\n  title: a\n};"),
        "return {\n  title: a,\n};"
    );
    assert_eq!(
        HeadTransformer::add_trailing_commas("x: {\n  a: 1,\n  b: 2\n\n}\ny: 3"),
        "x: {\n  a: 1,\n  b: 2,\n\n}\ny: 3"
    );
}

#[test]
fn nuxt_reads_the_async_data_method() {
    let method = "async asyncData({ $axios, params }) {\n  const a = 1;\n  return { a, b: 2 };\n}";
    assert_eq!(NuxtTransformer::extract_async_data_params(method), "{ $axios, params }");
    assert_eq!(NuxtTransformer::extract_async_data_params("asyncData"), "$axios, app, redirect, params");
    assert_eq!(NuxtTransformer::extract_async_data_params(")("), "$axios, app, redirect, params");
    assert_eq!(NuxtTransformer::extract_async_data_body(method), "const a = 1;\n  return { a, b: 2 };");
    assert_eq!(NuxtTransformer::extract_async_data_body("plain"), "plain");
    assert_eq!(NuxtTransformer::extract_returned_properties("return {\n  a,\n  b: 2,\n}"), strings(&["a", "b"]));
    assert_eq!(NuxtTransformer::extract_returned_properties("nothing"), strings(&[]));
}

#[test]
fn nuxt_formats_localised_paths() {
    let option = "{\n  paths: {\n    en: '/a',\n    de: '/b'\n  },\n  locales: ['en']\n}";
    let paths = NuxtTransformer::extract_paths_from_nuxt_i18n(option).unwrap();
    assert_eq!(paths, "{\n    en: '/a',\n    de: '/b'\n  }");
    assert_eq!(NuxtTransformer::format_paths_object(&paths), "{\n  en: '/a',\n  de: '/b',\n}");
    assert_eq!(NuxtTransformer::extract_paths_from_nuxt_i18n("{ paths: { a: {"), None);
    assert_eq!(NuxtTransformer::extract_paths_from_nuxt_i18n("{ locales: [] }"), None);
}

#[test]
fn emit_declares_its_events() {
    assert_eq!(
        EmitTransformer::generate_emit_setup(&strings(&["update:value", "close"])),
        "const emit = defineEmits(['update:value','close']);"
    );
    assert_eq!(EmitTransformer::generate_emit_setup(&strings(&[])), "");
    assert_eq!(EmitTransformer::map_event_name("input"), "update:value");
    assert_eq!(EmitTransformer::map_event_name("close"), "close");
    assert_eq!(
        EmitTransformer::extract_events_from_body("this.$emit('input', 1); $emit(\"close\")"),
        Some(strings(&["update:value", "close"]))
    );
    assert_eq!(EmitTransformer::extract_events_from_body("nothing"), None);
    let context = context_of(
        "<template><b @click=\"$emit('pick', 1)\">x</b></template>\n<script>\nexport default {\n  methods: { go() { this.$emit('input', 2); this.$nuxt.$emit('bus'); } }\n}\n</script>",
    );
    assert!(EmitTransformer::has_emit_usage(&context));
    assert_eq!(EmitTransformer::extract_emit_events(&context), strings(&["pick", "update:value", "bus"]));
    assert_eq!(
        EmitTransformer::rewrite_body("this.$emit('input', 2); this.$nuxt.$emit('bus'); $emit('x')", &context),
        "emit('update:value', 2); this.$nuxt.$emit('bus'); emit('x')"
    );
}

#[test]
fn filters_are_called_by_name() {
    assert_eq!(
        FiltersTransformer::rewrite_body("return this.$options.filters.money(\n  this.price,   2\n);"),
        "return money(this.price, 2);"
    );
    let context = context_of(
        "<script>\nexport default {\n  methods: { a() { return this.$options.filters.money(1) + this.$options.filters.date(2) + this.$options.filters.date(3); } }\n}\n</script>",
    );
    assert_eq!(FiltersTransformer::extract_filter_names(&context), strings(&["money", "date", "date"]));
    let result = FiltersTransformer::build(&context);
    assert_eq!(result.setup, strings(&["const { date, money } = useFilters();", ""]));
    assert_eq!(
        result.imports_to_add,
        vec![("@/composables/useFilters".to_string(), strings(&["useFilters"]))]
    );
}

#[test]
fn assets_are_rewritten_in_the_template() {
    let context = context_of(
        "<template><img :src=\"require('~/assets/a.svg')\"><img src=\"b.svg\"><img :src=\"require('~/assets/c.png')\"></template>",
    );
    let pairs = AssetsTransformer::generate_template_replacements(&context);
    let shown: Vec<(String, String)> = pairs.into_iter().map(|p| (p.find, p.replace)).collect();
    assert_eq!(
        shown,
        vec![
            ("~/assets/".to_string(), "@/assets/".to_string()),
            ("~assets/".to_string(), "@/assets/".to_string()),
            (":src=\"require('~/assets/a.svg')\"".to_string(), "src=\"~/assets/a.svg?url\"".to_string()),
            (":src=\"require('~/assets/c.png')\"".to_string(), "src=\"~/assets/c.png\"".to_string()),
            ("src=\"b.svg\"".to_string(), "src=\"b.svg?url\"".to_string()),
        ]
    );
    let mut config = TransformerConfig::default();
    assert!(!AssetsTransformer::should_apply(&context, &config));
    config.enable_asset_transforms = true;
    assert!(AssetsTransformer::should_apply(&context, &config));
}

#[test]
fn mixins_become_composables() {
    let context = context_of(
        "<template><b>{{ fromPrice(1) }}</b></template>\n<script>\nimport price from '@/mixins/price';\nexport default {\n  mixins: [price],\n  methods: { a() { return this.currency; } }\n}\n</script>",
    );
    let mut config = TransformerConfig::default();
    assert!(!MixinTransformer::has_mixin_usage(&context, &config));
    config.mixins = Some(vec![(
        "price".to_string(),
        MixinConfig { name: "usePrice".to_string(), imports: strings(&["fromPrice", "currency", "unused"]) },
    )]);
    assert!(MixinTransformer::has_mixin_usage(&context, &config));
    assert_eq!(MixinTransformer::extract_mixin_name_from_path("@/mixins/price"), "price");
    assert_eq!(MixinTransformer::extract_mixin_name_from_path("price"), "price");
    assert_eq!(
        MixinTransformer::find_used_mixin_functions(&context, &strings(&["fromPrice", "currency", "unused"])),
        strings(&["currency", "fromPrice"])
    );
    let result = MixinTransformer::build(&context, &config);
    assert_eq!(result.setup, strings(&["const { currency, fromPrice } = usePrice();"]));
    assert_eq!(result.imports_to_add, vec![("@/composables/usePrice".to_string(), strings(&["usePrice"]))]);
}

#[test]
fn renamed_imports_are_written() {
    let context = context_of(
        "<template><b-sidebar v-b-toggle></b-sidebar></template>\n<script>\nimport { BSidebar, BButton } from 'bootstrap-vue';\nexport default {}\n</script>",
    );
    let mut config = TransformerConfig::default();
    assert!(!ImportRewriteTransformer::has_rewritable_imports(&context, &config));
    config.imports_rewrite = Some(vec![(
        "bootstrap-vue".to_string(),
        ImportRewrite {
            name: "bootstrap-vue-next".to_string(),
            component_rewrite: Some(vec![("BSidebar".to_string(), "BOffcanvas".to_string())]),
            directives: Some(vec![("v-b-toggle".to_string(), "vBToggle".to_string())]),
        },
    )]);
    assert!(ImportRewriteTransformer::has_rewritable_imports(&context, &config));
    assert_eq!(
        ImportRewriteTransformer::generate_rewritten_imports(&context, &config),
        strings(&["import { BButton, BOffcanvas, vBToggle } from 'bootstrap-vue-next';"])
    );
    let pairs = ImportRewriteTransformer::generate_template_replacements(&context, &config);
    let shown: Vec<(String, String)> = pairs.into_iter().map(|p| (p.find, p.replace)).collect();
    assert_eq!(
        shown,
        vec![
            ("<BSidebar".to_string(), "<BOffcanvas".to_string()),
            ("</BSidebar>".to_string(), "</BOffcanvas>".to_string()),
            ("<b-sidebar".to_string(), "<b-offcanvas".to_string()),
            ("</b-sidebar>".to_string(), "</b-offcanvas>".to_string()),
        ]
    );
}

#[test]
fn store_helpers_are_read() {
    let context = context_of(
        "<script>\nimport { mapGetters, mapState } from 'vuex';\nexport default {\n  computed: {\n    ...mapGetters('user', ['getUser']),\n    ...mapGetters({ total: 'cart/getTotal' }),\n    ...mapState('user', ['userID']),\n  },\n  methods: { a() { this.$store.commit('cart/add', 1); return this.user + this.total; } }\n}\n</script>",
    );
    assert!(VuexTransformer::has_vuex_usage(&context));
    let getters = VuexTransformer::extract_aliased_getters(&context);
    let shown: Vec<(String, String, String, bool)> =
        getters.into_iter().map(|m| (m.alias, m.namespace, m.name, m.is_array_syntax)).collect();
    assert_eq!(
        shown,
        vec![
            ("user".to_string(), "user".to_string(), "getUser".to_string(), true),
            ("total".to_string(), "cart".to_string(), "getTotal".to_string(), false),
        ]
    );
    assert!(VuexTransformer::is_property_used("user", &context));
    assert!(!VuexTransformer::is_property_used("userID", &context));
    let result = VuexTransformer::build(&context);
    assert_eq!(
        result.setup,
        strings(&["const cartStore = useCartStore();", "const userStore = useUserStore();", ""])
    );
    assert_eq!(
        result.computed_properties,
        strings(&[
            "const user = computed(() => userStore.getUser());",
            "const total = computed(() => cartStore.getTotal);",
        ])
    );
    assert_eq!(result.imports_to_remove, strings(&["vuex"]));
    assert_eq!(
        VuexTransformer::rewrite_body("this.$store.commit('cart/add', 1); return this.user + this.total;", &context),
        "cartStore.add(1); return user.value + total.value;"
    );
}

#[test]
fn lifecycle_options_become_hooks() {
    let context = context_of(
        "<script>\nexport default {\n  created() { a(); },\n  mounted() { b(); },\n  beforeDestroy() { c(); },\n  methods: { x() { this.$refs.box.focus(); this.$set(this.map, 'k', 1); this.$delete(this.map, key); } }\n}\n</script>",
    );
    assert!(Vue2Transformer::context_has_vue2_methods(&context));
    assert_eq!(Vue2Transformer::extract_template_refs(&context), strings(&["box"]));
    let config = TransformerConfig::default();
    let result = Vue2Transformer::build(&context, &config);
    assert_eq!(
        result.lifecycle_hooks,
        strings(&["a();", "", "onMounted(() => {", "  b();", "});", "", "onBeforeUnmount(() => {", "  c();", "});", ""])
    );
    assert_eq!(
        result.imports_to_add,
        vec![("vue".to_string(), strings(&["onBeforeUnmount", "onMounted", "useTemplateRef"]))]
    );
    assert_eq!(result.reactive_state, strings(&["const boxRef = useTemplateRef('box');"]));
    assert_eq!(
        Vue2Transformer::rewrite_body(
            "this.$refs.box.focus(); this.$set(this.map, 'k', 1); this.$delete(this.map, key); this.$nextTick(f)",
            &context
        ),
        "boxRef.value.focus(); map.value.k = 1; delete map.value[key]; nextTick(f)"
    );
}

#[test]
fn composition_writes_declarations() {
    let context = context_of(
        "<script>\nimport a, { b as c } from 'lib';\nimport * as d from './d';\nconst Lazy = () => import('./Lazy.vue');\nexport default {\n  props: { size: { type: Number, required: false } },\n  data: () => ({ n: 1, m: undefined }),\n  computed: { twice() { return this.n * 2; } },\n  watch: { n(now, before) { go(now, before); } }\n}\n</script>",
    );
    let config = TransformerConfig::default();
    assert!(CompositionTransformer::should_apply(&context));
    assert!(CompositionTransformer::has_async_components(&context));
    assert_eq!(
        CompositionTransformer::generate_vue_imports(&context),
        strings(&["ref", "computed", "watch", "defineAsyncComponent"])
    );
    assert_eq!(
        CompositionTransformer::generate_existing_imports(&context),
        strings(&["import a, { b as c } from 'lib';", "import { * as d } from './d';"])
    );
    assert_eq!(
        CompositionTransformer::generate_setup_content(&context),
        strings(&["const Lazy = defineAsyncComponent(() => import('./Lazy.vue'));", ""])
    );
    assert_eq!(
        CompositionTransformer::generate_props_definition(&context),
        strings(&["const props = defineProps({", "  size: {", "    type: Number,", "    required: false,", "  },", "});", ""])
    );
    assert_eq!(
        CompositionTransformer::generate_data_refs(&context, &config),
        vec![
            ("n".to_string(), ("const n = ref(1);".to_string(), 0)),
            ("m".to_string(), ("const m = ref(undefined);".to_string(), 0)),
        ]
    );
    assert_eq!(
        CompositionTransformer::generate_computed_properties(&context, &config),
        strings(&["const twice = computed(() => {", "  return n.value * 2;", "});", ""])
    );
    assert_eq!(
        CompositionTransformer::generate_watchers(&context, &config),
        strings(&["watch(n, (now, before) => {", "  go(now, before);", "});", ""])
    );
}

#[test]
fn route_and_formatting_units_apply() {
    let context = context_of(
        "<template><a :href=\"localePath('x')\">{{ $t('a') }} {{ $route.path }}</a></template>\n<script>\nexport default {\n  methods: { a() { return this.$i18n.locale + this.$router.currentRoute; } }\n}\n</script>",
    );
    let mut config = TransformerConfig::default();
    assert!(!I18nTransformer::should_apply(&context, &config));
    config.enable_i18n = true;
    assert!(I18nTransformer::should_apply(&context, &config));
    assert_eq!(I18nTransformer::generate_i18n_setup(&context), strings(&["const { t, locale } = useI18n();", ""]));
    assert_eq!(
        I18nTransformer::generate_i18n_utils_setup(&context),
        strings(&["const { localePath } = useI18nUtils();", ""])
    );
    assert_eq!(
        I18nTransformer::apply_i18n_transforms("this.$t('a') + this.$i18n.locale + this.localePath('x')", &context, &config),
        "t('a') + locale.value + localePath('x')"
    );
    assert!(RouterTransformer::has_route_in_template(&context));
    assert!(!RouterTransformer::has_router_in_template(&context));
    assert!(RouterTransformer::has_router_in_methods(&context));
    assert_eq!(
        RouterTransformer::rewrite_body("this.$route.path + this.$router.push(1)", &context),
        "route.path + router.push(1)"
    );
    let result = RouterTransformer::build(&context);
    assert_eq!(
        result.setup,
        strings(&["const route = useRoute();", "const router = useRouter();", ""])
    );
}
