use chisel::config::{get_filename, yaml_configure, ChiselContext, ModuleContext};
use chisel::document::{find_entry, text_is, Document};
use chisel::error::ChiselError;
use chisel::yaml::{document_of, parse_document};

fn text(s: &str) -> Document {
    Document::Text(String::from(s))
}

fn mapping(entries: Vec<(Document, Document)>) -> Document {
    Document::Mapping(entries)
}

fn empty() -> Document {
    Document::Mapping(Vec::new())
}

fn suite(body: Vec<(Document, Document)>) -> Document {
    mapping(vec![(text("suite"), mapping(body))])
}

fn names(context: &ChiselContext) -> Vec<String> {
    context.get_modules().iter().map(|m| m.fields().0.clone()).collect()
}

#[test]
fn single_ruleset_with_file_and_no_modules_resolves() {
    let context = ChiselContext::from_ruleset(&suite(vec![(text("file"), text("a.wasm"))])).unwrap();
    assert_eq!(context.file(), "a.wasm");
    assert!(context.get_modules().is_empty());
}

#[test]
fn ruleset_without_file_is_missing_file() {
    let document = suite(vec![(text("unexpectedfield"), empty())]);
    assert_eq!(ChiselContext::from_ruleset(&document), Err(ChiselError::ConfigMissingFile));
}

#[test]
fn empty_ruleset_is_missing_file() {
    assert_eq!(ChiselContext::from_ruleset(&suite(vec![])), Err(ChiselError::ConfigMissingFile));
}

#[test]
fn only_the_first_ruleset_is_used() {
    let first = vec![(text("file"), text("first.wasm")), (text("verifyexports"), empty())];
    let one = mapping(vec![(text("a"), mapping(first.into_iter().collect()))]);
    let two = mapping(vec![
        (text("a"), mapping(vec![(text("file"), text("first.wasm")), (text("verifyexports"), empty())])),
        (text("b"), mapping(vec![(text("file"), text("second.wasm")), (text("checkstartfunc"), empty())])),
    ]);
    let broken_second = mapping(vec![
        (text("a"), mapping(vec![(text("file"), text("first.wasm")), (text("verifyexports"), empty())])),
        (text("b"), mapping(vec![(text("nofile"), Document::Other)])),
    ]);
    let expected = ChiselContext::from_ruleset(&one).unwrap();
    assert_eq!(expected.file(), "first.wasm");
    assert_eq!(names(&expected), vec!["verifyexports"]);
    assert_eq!(ChiselContext::from_ruleset(&two).unwrap(), expected);
    assert_eq!(ChiselContext::from_ruleset(&broken_second).unwrap(), expected);
}

#[test]
fn entries_before_the_first_ruleset_are_skipped() {
    let document = mapping(vec![
        (text("version"), text("1")),
        (Document::Other, empty()),
        (text("list"), Document::Other),
        (text("suite"), mapping(vec![(text("file"), text("b.wasm"))])),
    ]);
    let context = ChiselContext::from_ruleset(&document).unwrap();
    assert_eq!(context.file(), "b.wasm");
}

#[test]
fn first_ruleset_decides_even_when_it_is_broken() {
    let document = mapping(vec![
        (text("a"), mapping(vec![(text("verifyexports"), empty())])),
        (text("b"), mapping(vec![(text("file"), text("b.wasm"))])),
    ]);
    assert_eq!(ChiselContext::from_ruleset(&document), Err(ChiselError::ConfigMissingFile));
}

#[test]
fn document_without_ruleset_is_invalid() {
    assert_eq!(ChiselContext::from_ruleset(&text("suite")), Err(ChiselError::ConfigInvalid));
    assert_eq!(ChiselContext::from_ruleset(&Document::Other), Err(ChiselError::ConfigInvalid));
    assert_eq!(ChiselContext::from_ruleset(&empty()), Err(ChiselError::ConfigInvalid));
    let scalars = mapping(vec![(text("a"), text("b")), (text("c"), Document::Other)]);
    assert_eq!(ChiselContext::from_ruleset(&scalars), Err(ChiselError::ConfigInvalid));
    let keyed_by_other = mapping(vec![(Document::Other, mapping(vec![(text("file"), text("a.wasm"))]))]);
    assert_eq!(ChiselContext::from_ruleset(&keyed_by_other), Err(ChiselError::ConfigInvalid));
}

#[test]
fn file_that_is_not_text_is_a_type_mismatch() {
    let number = suite(vec![(text("file"), Document::Other)]);
    assert_eq!(ChiselContext::from_ruleset(&number), Err(ChiselError::FileTypeMismatch));
    let nested = suite(vec![(text("file"), empty())]);
    assert_eq!(ChiselContext::from_ruleset(&nested), Err(ChiselError::FileTypeMismatch));
}

#[test]
fn module_that_is_no_mapping_is_a_type_mismatch() {
    let flags_text = suite(vec![(text("file"), text("a.wasm")), (text("verifyexports"), text("ewasm"))]);
    assert_eq!(ChiselContext::from_ruleset(&flags_text), Err(ChiselError::ModuleTypeMismatch));
    let flags_other = suite(vec![(text("file"), text("a.wasm")), (text("verifyexports"), Document::Other)]);
    assert_eq!(ChiselContext::from_ruleset(&flags_other), Err(ChiselError::ModuleTypeMismatch));
    let key_other = suite(vec![(text("file"), text("a.wasm")), (Document::Other, empty())]);
    assert_eq!(ChiselContext::from_ruleset(&key_other), Err(ChiselError::ModuleTypeMismatch));
    let key_mapping = suite(vec![(text("file"), text("a.wasm")), (empty(), empty())]);
    assert_eq!(ChiselContext::from_ruleset(&key_mapping), Err(ChiselError::ModuleTypeMismatch));
}

#[test]
fn preset_that_is_not_text_is_a_type_mismatch() {
    let document = suite(vec![
        (text("file"), text("a.wasm")),
        (text("verifyexports"), mapping(vec![(text("preset"), Document::Other)])),
    ]);
    assert_eq!(ChiselContext::from_ruleset(&document), Err(ChiselError::PresetTypeMismatch));
    let nested = suite(vec![
        (text("file"), text("a.wasm")),
        (text("verifyexports"), mapping(vec![(text("preset"), empty())])),
    ]);
    assert_eq!(ChiselContext::from_ruleset(&nested), Err(ChiselError::PresetTypeMismatch));
}

#[test]
fn file_errors_come_before_module_errors() {
    let missing = suite(vec![(text("verifyexports"), text("not a mapping"))]);
    assert_eq!(ChiselContext::from_ruleset(&missing), Err(ChiselError::ConfigMissingFile));
    let mismatch = suite(vec![(text("verifyexports"), Document::Other), (text("file"), Document::Other)]);
    assert_eq!(ChiselContext::from_ruleset(&mismatch), Err(ChiselError::FileTypeMismatch));
}

#[test]
fn first_ill_formed_module_decides_the_error() {
    let preset_first = suite(vec![
        (text("file"), text("a.wasm")),
        (text("a"), mapping(vec![(text("preset"), Document::Other)])),
        (text("b"), Document::Other),
    ]);
    assert_eq!(ChiselContext::from_ruleset(&preset_first), Err(ChiselError::PresetTypeMismatch));
    let module_first = suite(vec![
        (text("file"), text("a.wasm")),
        (text("b"), Document::Other),
        (text("a"), mapping(vec![(text("preset"), Document::Other)])),
    ]);
    assert_eq!(ChiselContext::from_ruleset(&module_first), Err(ChiselError::ModuleTypeMismatch));
}

#[test]
fn modules_keep_declaration_order() {
    let document = suite(vec![
        (text("zeta"), empty()),
        (text("file"), text("a.wasm")),
        (text("verifyimports"), empty()),
        (text("alpha"), empty()),
        (text("verifyexports"), empty()),
    ]);
    let context = ChiselContext::from_ruleset(&document).unwrap();
    assert_eq!(context.file(), "a.wasm");
    assert_eq!(names(&context), vec!["zeta", "verifyimports", "alpha", "verifyexports"]);
}

#[test]
fn unknown_module_name_is_no_configuration_error() {
    let document = suite(vec![(text("file"), text("a.wasm")), (text("unknowncheck"), empty())]);
    let context = ChiselContext::from_ruleset(&document).unwrap();
    assert_eq!(names(&context), vec!["unknowncheck"]);
}

#[test]
fn absent_preset_differs_from_empty_preset() {
    let document = suite(vec![
        (text("file"), text("a.wasm")),
        (text("a"), empty()),
        (text("b"), mapping(vec![(text("preset"), text(""))])),
        (text("c"), mapping(vec![(text("other"), Document::Other), (text("preset"), text("ewasm"))])),
    ]);
    let context = ChiselContext::from_ruleset(&document).unwrap();
    let modules = context.get_modules();
    assert_eq!(modules.len(), 3);
    assert_eq!(modules[0].fields(), (&String::from("a"), &None));
    assert_eq!(modules[1].fields(), (&String::from("b"), &Some(String::new())));
    assert_eq!(modules[2].fields(), (&String::from("c"), &Some(String::from("ewasm"))));
}

#[test]
fn empty_file_name_is_accepted_as_text() {
    let context = ChiselContext::from_ruleset(&suite(vec![(text("file"), text(""))])).unwrap();
    assert_eq!(context.file(), "");
}

#[test]
fn get_filename_reads_the_file_entry() {
    let body = mapping(vec![(text("verifyexports"), empty()), (text("file"), text("x/y.wasm"))]);
    assert_eq!(get_filename(&body), Ok(String::from("x/y.wasm")));
    assert_eq!(get_filename(&empty()), Err(ChiselError::ConfigMissingFile));
    let ill_typed = mapping(vec![(text("file"), Document::Other)]);
    assert_eq!(get_filename(&ill_typed), Err(ChiselError::FileTypeMismatch));
}

#[test]
fn from_yaml_reads_one_declaration() {
    let flags = mapping(vec![(text("preset"), text("ewasm"))]);
    let module = ModuleContext::from_yaml((&text("verifyexports"), &flags)).unwrap();
    assert_eq!(module, ModuleContext::with_fields(String::from("verifyexports"), Some(String::from("ewasm"))));
    let bare = ModuleContext::from_yaml((&text("checkstartfunc"), &empty())).unwrap();
    assert_eq!(bare.fields(), (&String::from("checkstartfunc"), &None));
    assert_eq!(ModuleContext::from_yaml((&text("a"), &text("b"))), Err(ChiselError::ModuleTypeMismatch));
    assert_eq!(ModuleContext::from_yaml((&Document::Other, &empty())), Err(ChiselError::ModuleTypeMismatch));
    let ill_typed = mapping(vec![(text("preset"), Document::Other)]);
    assert_eq!(ModuleContext::from_yaml((&text("a"), &ill_typed)), Err(ChiselError::PresetTypeMismatch));
}

#[test]
fn with_fields_and_fields_agree() {
    let module = ModuleContext::with_fields(String::from("name"), Some(String::from("preset")));
    assert_eq!(module.fields(), (&String::from("name"), &Some(String::from("preset"))));
    let bare = ModuleContext::with_fields(String::from("name"), None);
    assert_eq!(bare.fields(), (&String::from("name"), &None));
}

#[test]
fn find_entry_gives_the_first_match() {
    let entries = vec![
        (text("a"), text("1")),
        (Document::Other, text("2")),
        (text("b"), text("3")),
        (text("a"), text("4")),
    ];
    assert_eq!(find_entry(&entries, "a"), Some(&text("1")));
    assert_eq!(find_entry(&entries, "b"), Some(&text("3")));
    assert_eq!(find_entry(&entries, "c"), None);
    assert_eq!(find_entry(&Vec::new(), "a"), None);
}

#[test]
fn text_comparison_is_exact() {
    assert!(text_is(&String::from("file"), "file"));
    assert!(!text_is(&String::from("File"), "file"));
    assert!(!text_is(&String::from("files"), "file"));
    assert!(text("preset").is_text("preset"));
    assert!(!Document::Other.is_text("preset"));
    assert!(!empty().is_text(""));
}

#[test]
fn yaml_text_resolves_to_its_ruleset() {
    let context = yaml_configure(String::from("suite:\n  file: a.wasm\n  verifyexports: {}\n")).unwrap();
    assert_eq!(context.file(), "a.wasm");
    let modules = context.get_modules();
    assert_eq!(modules.len(), 1);
    assert_eq!(modules[0].fields(), (&String::from("verifyexports"), &None));
}

#[test]
fn yaml_text_keeps_declaration_order_and_presets() {
    let yaml = "suite:\n  verifyimports:\n    preset: ewasm\n  checkstartfunc: {}\n  file: dir/b.wasm\n  verifyexports:\n    preset: other\n    extra: 1\n";
    let context = yaml_configure(String::from(yaml)).unwrap();
    assert_eq!(context.file(), "dir/b.wasm");
    let modules = context.get_modules();
    assert_eq!(modules.len(), 3);
    assert_eq!(modules[0].fields(), (&String::from("verifyimports"), &Some(String::from("ewasm"))));
    assert_eq!(modules[1].fields(), (&String::from("checkstartfunc"), &None));
    assert_eq!(modules[2].fields(), (&String::from("verifyexports"), &Some(String::from("other"))));
}

#[test]
fn yaml_text_uses_only_the_first_ruleset() {
    let one = yaml_configure(String::from("a:\n  file: a.wasm\n")).unwrap();
    let two = yaml_configure(String::from("a:\n  file: a.wasm\nb:\n  file: b.wasm\n  verifyexports: {}\n")).unwrap();
    let scalar_first = yaml_configure(String::from("version: 1\nnote: text\na:\n  file: a.wasm\n")).unwrap();
    assert_eq!(one, two);
    assert_eq!(one, scalar_first);
}

#[test]
fn yaml_text_that_is_not_yaml_fails_to_parse() {
    assert_eq!(yaml_configure(String::from("suite: [unclosed")), Err(ChiselError::ConfigParseFailed));
    assert_eq!(yaml_configure(String::from("a: b: c: d")), Err(ChiselError::ConfigParseFailed));
}

#[test]
fn yaml_text_errors_follow_the_document() {
    assert_eq!(yaml_configure(String::from("just text")), Err(ChiselError::ConfigInvalid));
    assert_eq!(yaml_configure(String::from("- a\n- b\n")), Err(ChiselError::ConfigInvalid));
    assert_eq!(yaml_configure(String::from("suite:\n  unexpectedfield: {}\n")), Err(ChiselError::ConfigMissingFile));
    assert_eq!(yaml_configure(String::from("suite:\n  file: 3\n")), Err(ChiselError::FileTypeMismatch));
    assert_eq!(yaml_configure(String::from("suite:\n  file: [a.wasm]\n")), Err(ChiselError::FileTypeMismatch));
    assert_eq!(yaml_configure(String::from("suite:\n  file: a.wasm\n  verifyexports: yes\n")), Err(ChiselError::ModuleTypeMismatch));
    assert_eq!(yaml_configure(String::from("suite:\n  file: a.wasm\n  3: {}\n")), Err(ChiselError::ModuleTypeMismatch));
    assert_eq!(yaml_configure(String::from("suite:\n  file: a.wasm\n  verifyexports:\n    preset: 7\n")), Err(ChiselError::PresetTypeMismatch));
}

#[test]
fn parsed_document_copies_the_tree() {
    let document = parse_document("suite:\n  file: a.wasm\n  flags:\n    preset: ewasm\n    depth:\n      more: text\n  7: [1, 2]\n  none: ~\n").unwrap();
    let expected = mapping(vec![(
        text("suite"),
        mapping(vec![
            (text("file"), text("a.wasm")),
            (
                text("flags"),
                mapping(vec![
                    (text("preset"), text("ewasm")),
                    (text("depth"), mapping(vec![(text("more"), text("text"))])),
                ]),
            ),
            (Document::Other, Document::Other),
            (text("none"), Document::Other),
        ]),
    )]);
    assert_eq!(document, expected);
    assert_eq!(parse_document("a: [b"), None);
    assert_eq!(parse_document("plain"), Some(text("plain")));
    assert_eq!(parse_document("12"), Some(Document::Other));
}

#[test]
fn document_of_copies_a_built_value() {
    let mut inner = serde_yaml::Mapping::new();
    inner.insert(serde_yaml::Value::String(String::from("file")), serde_yaml::Value::String(String::from("a.wasm")));
    inner.insert(serde_yaml::Value::Bool(true), serde_yaml::Value::Null);
    let mut outer = serde_yaml::Mapping::new();
    outer.insert(serde_yaml::Value::String(String::from("suite")), serde_yaml::Value::Mapping(inner));
    let document = document_of(&serde_yaml::Value::Mapping(outer));
    let expected = suite(vec![(text("file"), text("a.wasm")), (Document::Other, Document::Other)]);
    assert_eq!(document, expected);
    assert_eq!(document_of(&serde_yaml::Value::Sequence(Vec::new())), Document::Other);
    assert_eq!(document_of(&serde_yaml::Value::Mapping(serde_yaml::Mapping::new())), empty());
}
