use import_rewrite::{
    FilenameCase, ImportDecl, ImportSpecifier, ImportTransformer, ModuleItem, PluginConfig,
    SpecifierType, TransformConfig,
};

fn rule(
    source: &str,
    filename: FilenameCase,
    output: &[&str],
    specifier: SpecifierType,
    allow: Option<Vec<String>>,
    exclude: Option<Vec<String>>,
) -> TransformConfig {
    TransformConfig {
        source: source.to_string(),
        filename,
        output: output.iter().map(|s| s.to_string()).collect(),
        specifier,
        allow,
        exclude,
    }
}

fn named(local: &str) -> ImportSpecifier {
    ImportSpecifier::Named { local: local.to_string(), imported: None }
}

fn import(src: &str, specifiers: Vec<ImportSpecifier>, origin: Option<usize>) -> ModuleItem {
    ModuleItem::Import(ImportDecl { src: src.to_string(), specifiers, type_only: false, origin })
}

fn default_import(local: &str, src: &str) -> ModuleItem {
    import(src, vec![ImportSpecifier::Default { local: local.to_string() }], None)
}

fn side_effect(src: &str) -> ModuleItem {
    import(src, vec![], None)
}

fn run(rules: Vec<TransformConfig>, items: Vec<ModuleItem>) -> Vec<ModuleItem> {
    let transformer = ImportTransformer::new(PluginConfig { config: rules });
    let mut items = items;
    transformer.visit_mut_module_items(&mut items);
    items
}

fn antd(output: &[&str], allow: Option<Vec<String>>, exclude: Option<Vec<String>>) -> TransformConfig {
    rule("antd", FilenameCase::KebabCase, output, SpecifierType::Default, allow, exclude)
}

#[test]
fn test_basic_transform() {
    let out = run(
        vec![antd(&["antd/es/{{ filename }}.js"], None, None)],
        vec![import("antd", vec![named("Button")], Some(0))],
    );
    assert_eq!(out, vec![default_import("Button", "antd/es/button.js")]);
}

#[test]
fn test_with_style_import() {
    let out = run(
        vec![antd(&["antd/es/{{ filename }}.js", "antd/css/{{ filename }}.css"], None, None)],
        vec![import("antd", vec![named("Button")], Some(0))],
    );
    assert_eq!(
        out,
        vec![default_import("Button", "antd/es/button.js"), side_effect("antd/css/button.css")]
    );
}

#[test]
fn test_with_exclude() {
    let out = run(
        vec![antd(&["antd/es/{{ filename }}.js"], None, Some(vec!["Button".to_string()]))],
        vec![import("antd", vec![named("Button"), named("DatePicker")], Some(0))],
    );
    assert_eq!(out, vec![default_import("DatePicker", "antd/es/date-picker.js")]);
}

#[test]
fn test_multi_config() {
    let out = run(
        vec![
            antd(
                &["antd/es/{{ filename }}.js", "antd/css/{{ filename }}.css"],
                None,
                Some(vec!["Button".to_string()]),
            ),
            antd(
                &["antd/es/{{ filename }}.js", "antd/css/{{ filename }}.png"],
                Some(vec!["Button".to_string()]),
                None,
            ),
        ],
        vec![import("antd", vec![named("Button"), named("DatePicker")], Some(0))],
    );
    assert_eq!(
        out,
        vec![
            default_import("Button", "antd/es/button.js"),
            side_effect("antd/css/button.png"),
            default_import("DatePicker", "antd/es/date-picker.js"),
            side_effect("antd/css/date-picker.css"),
        ]
    );
}

#[test]
fn test_named_specifier() {
    let out = run(
        vec![rule(
            "lodash",
            FilenameCase::CamelCase,
            &["lodash/{{ filename }}.js"],
            SpecifierType::Named,
            None,
            None,
        )],
        vec![import("lodash", vec![named("debounce"), named("throttle")], Some(0))],
    );
    assert_eq!(
        out,
        vec![
            import("lodash/debounce.js", vec![named("debounce")], None),
            import("lodash/throttle.js", vec![named("throttle")], None),
        ]
    );
}

#[test]
fn test_namespace_specifier() {
    let out = run(
        vec![rule(
            "utils",
            FilenameCase::CamelCase,
            &["utils/{{ filename }}.js"],
            SpecifierType::Namespace,
            None,
            None,
        )],
        vec![import("utils", vec![named("DateUtils"), named("StringUtils")], Some(0))],
    );
    let ns = |local: &str| ImportSpecifier::Namespace { local: local.to_string() };
    assert_eq!(
        out,
        vec![
            import("utils/dateUtils.js", vec![ns("DateUtils")], None),
            import("utils/stringUtils.js", vec![ns("StringUtils")], None),
        ]
    );
}

#[test]
fn test_snake_case() {
    let out = run(
        vec![rule(
            "antd",
            FilenameCase::SnakeCase,
            &["antd/es/{{ filename }}.js"],
            SpecifierType::Default,
            None,
            None,
        )],
        vec![import("antd", vec![named("DatePicker")], Some(0))],
    );
    assert_eq!(out, vec![default_import("DatePicker", "antd/es/date_picker.js")]);
}

#[test]
fn test_pascal_case() {
    let out = run(
        vec![rule(
            "antd",
            FilenameCase::PascalCase,
            &["antd/es/{{ filename }}.js"],
            SpecifierType::Default,
            None,
            None,
        )],
        vec![import("antd", vec![named("DatePicker")], Some(0))],
    );
    assert_eq!(out, vec![default_import("DatePicker", "antd/es/DatePicker.js")]);
}

#[test]
fn test_preserve_other_imports() {
    let react_default =
        import("react", vec![ImportSpecifier::Default { local: "React".to_string() }], Some(0));
    let react_named = import("react", vec![named("useState")], Some(2));
    let out = run(
        vec![antd(&["antd/es/{{ filename }}.js"], None, None)],
        vec![
            react_default.clone(),
            import("antd", vec![named("Button")], Some(1)),
            react_named.clone(),
        ],
    );
    assert_eq!(out, vec![react_default, default_import("Button", "antd/es/button.js"), react_named]);
}

#[test]
fn other_statements_keep_their_order() {
    let out = run(
        vec![antd(&["antd/es/{{ filename }}.js", "antd/css/{{ filename }}.css"], None, None)],
        vec![
            ModuleItem::Other(7),
            import("antd", vec![named("Button"), named("Table")], Some(1)),
            ModuleItem::Other(3),
            ModuleItem::Other(9),
        ],
    );
    let others: Vec<usize> = out
        .iter()
        .filter_map(|i| match i {
            ModuleItem::Other(h) => Some(*h),
            _ => None,
        })
        .collect();
    assert_eq!(others, vec![7, 3, 9]);
    assert_eq!(out.len(), 7);
    assert_eq!(out[0], ModuleItem::Other(7));
    assert_eq!(out[5], ModuleItem::Other(3));
}

#[test]
fn default_and_namespace_bindings_stay_on_the_statement() {
    let out = run(
        vec![antd(&["antd/es/{{ filename }}.js"], None, None)],
        vec![ModuleItem::Import(ImportDecl {
            src: "antd".to_string(),
            specifiers: vec![
                ImportSpecifier::Default { local: "antd".to_string() },
                named("Button"),
                ImportSpecifier::Namespace { local: "all".to_string() },
            ],
            type_only: true,
            origin: Some(4),
        })],
    );
    assert_eq!(
        out,
        vec![
            default_import("Button", "antd/es/button.js"),
            ModuleItem::Import(ImportDecl {
                src: "antd".to_string(),
                specifiers: vec![
                    ImportSpecifier::Default { local: "antd".to_string() },
                    ImportSpecifier::Namespace { local: "all".to_string() },
                ],
                type_only: true,
                origin: Some(4),
            }),
        ]
    );
}

#[test]
fn unclaimed_named_bindings_are_dropped() {
    let out = run(
        vec![antd(&["antd/es/{{ filename }}.js"], Some(vec!["Table".to_string()]), None)],
        vec![import("antd", vec![named("Button")], Some(0))],
    );
    assert_eq!(out, vec![]);
}

#[test]
fn imports_from_other_modules_pass_through() {
    let original = import("vue", vec![named("ref")], Some(0));
    let out = run(vec![antd(&["antd/es/{{ filename }}.js"], None, None)], vec![original.clone()]);
    assert_eq!(out, vec![original]);
}

#[test]
fn generated_imports_follow_template_order() {
    let transformer = ImportTransformer::new(PluginConfig { config: vec![] });
    let config = antd(&["es/{{ filename }}.js", "a/{{ filename }}.css", "b/{{ filename }}.less"], None, None);
    let made = transformer.generate_imports("DatePicker", &config);
    assert_eq!(
        made,
        vec![
            default_import("DatePicker", "es/date-picker.js"),
            side_effect("a/date-picker.css"),
            side_effect("b/date-picker.less"),
        ]
    );
}

#[test]
fn built_imports_use_the_given_file_name() {
    let config = rule(
        "antd",
        FilenameCase::KebabCase,
        &["antd/es/{{ filename }}.js", "antd/css/{{ filename }}.css"],
        SpecifierType::Named,
        None,
        None,
    );
    let made = import_rewrite::build_imports("Button", "custom-name", &config);
    assert_eq!(
        made,
        vec![
            import("antd/es/custom-name.js", vec![named("Button")], None),
            side_effect("antd/css/custom-name.css"),
        ]
    );
}

#[test]
fn a_rule_without_templates_makes_nothing() {
    let out = run(
        vec![antd(&[], None, None)],
        vec![import("antd", vec![named("Button")], Some(0))],
    );
    assert_eq!(out, vec![]);
}
