use chisel::artifact::{count_imported_functions, decode_artifact, exports_resolve, imports_resolve};
use chisel::checks::{check_exports, check_imports, check_start, execute_module, CheckKind};
use chisel::config::ModuleContext;
use chisel::error::ChiselError;
use parity_wasm::elements::Module;

// (module)
fn empty_module() -> Vec<u8> {
    vec![0x00, 0x61, 0x73, 0x6d, 0x01, 0x00, 0x00, 0x00]
}

// (module (memory 1) (export "main" (func $main)) (export "memory" (memory 0)) (func $main))
fn ewasm_module() -> Vec<u8> {
    vec![
        0x00, 0x61, 0x73, 0x6d, 0x01, 0x00, 0x00, 0x00, 0x01, 0x04, 0x01, 0x60, 0x00, 0x00, 0x03,
        0x02, 0x01, 0x00, 0x05, 0x03, 0x01, 0x00, 0x01, 0x07, 0x11, 0x02, 0x04, 0x6d, 0x61, 0x69,
        0x6e, 0x00, 0x00, 0x06, 0x6d, 0x65, 0x6d, 0x6f, 0x72, 0x79, 0x02, 0x00, 0x0a, 0x04, 0x01,
        0x02, 0x00, 0x0b,
    ]
}

// As `ewasm_module`, with `main` returning an i32.
fn main_returns_i32_module() -> Vec<u8> {
    vec![
        0x00, 0x61, 0x73, 0x6d, 0x01, 0x00, 0x00, 0x00, 0x01, 0x05, 0x01, 0x60, 0x00, 0x01, 0x7f,
        0x03, 0x02, 0x01, 0x00, 0x05, 0x03, 0x01, 0x00, 0x01, 0x07, 0x11, 0x02, 0x04, 0x6d, 0x61,
        0x69, 0x6e, 0x00, 0x00, 0x06, 0x6d, 0x65, 0x6d, 0x6f, 0x72, 0x79, 0x02, 0x00, 0x0a, 0x06,
        0x01, 0x04, 0x00, 0x41, 0x00, 0x0b,
    ]
}

// As `ewasm_module`, with the export `main` naming function 5 of a module with one function.
fn dangling_export_module() -> Vec<u8> {
    let mut bytes = ewasm_module();
    assert_eq!(bytes[32], 0x00);
    bytes[32] = 0x05;
    bytes
}

// (module (func $main) (export "main" (func $main)) (start $main))
fn start_module() -> Vec<u8> {
    vec![
        0x00, 0x61, 0x73, 0x6d, 0x01, 0x00, 0x00, 0x00, 0x01, 0x04, 0x01, 0x60, 0x00, 0x00, 0x03,
        0x02, 0x01, 0x00, 0x07, 0x08, 0x01, 0x04, 0x6d, 0x61, 0x69, 0x6e, 0x00, 0x00, 0x08, 0x01,
        0x00, 0x0a, 0x04, 0x01, 0x02, 0x00, 0x0b,
    ]
}

// (module (func $main) (export "main" (func $main)))
fn no_start_module() -> Vec<u8> {
    vec![
        0x00, 0x61, 0x73, 0x6d, 0x01, 0x00, 0x00, 0x00, 0x01, 0x04, 0x01, 0x60, 0x00, 0x00, 0x03,
        0x02, 0x01, 0x00, 0x07, 0x08, 0x01, 0x04, 0x6d, 0x61, 0x69, 0x6e, 0x00, 0x00, 0x0a, 0x04,
        0x01, 0x02, 0x00, 0x0b,
    ]
}

// As `ewasm_module`, importing ethereum.storageStore with its proper type (param i32 i32).
fn one_import_module() -> Vec<u8> {
    vec![
        0x00, 0x61, 0x73, 0x6d, 0x01, 0x00, 0x00, 0x00, 0x01, 0x09, 0x02, 0x60, 0x02, 0x7f, 0x7f,
        0x00, 0x60, 0x00, 0x00, 0x02, 0x19, 0x01, 0x08, 0x65, 0x74, 0x68, 0x65, 0x72, 0x65, 0x75,
        0x6d, 0x0c, 0x73, 0x74, 0x6f, 0x72, 0x61, 0x67, 0x65, 0x53, 0x74, 0x6f, 0x72, 0x65, 0x00,
        0x00, 0x03, 0x02, 0x01, 0x01, 0x05, 0x03, 0x01, 0x00, 0x01, 0x07, 0x11, 0x02, 0x04, 0x6d,
        0x61, 0x69, 0x6e, 0x00, 0x01, 0x06, 0x6d, 0x65, 0x6d, 0x6f, 0x72, 0x79, 0x02, 0x00, 0x0a,
        0x04, 0x01, 0x02, 0x00, 0x0b,
    ]
}

// As `one_import_module`, with the import typed by the second type, (func).
fn ill_typed_import_module() -> Vec<u8> {
    let mut bytes = one_import_module();
    assert_eq!(bytes[45], 0x00);
    bytes[45] = 0x01;
    bytes
}

// As `one_import_module`, with the import naming type 7 of a module with two types.
fn dangling_import_module() -> Vec<u8> {
    let mut bytes = one_import_module();
    assert_eq!(bytes[45], 0x00);
    bytes[45] = 0x07;
    bytes
}

// As `one_import_module`, with the export `main` naming function 0, the imported one.
fn imported_main_module() -> Vec<u8> {
    let mut bytes = one_import_module();
    assert_eq!(bytes[64], 0x01);
    bytes[64] = 0x00;
    bytes
}

fn decode(bytes: Vec<u8>) -> Module {
    decode_artifact(&bytes).unwrap()
}

fn declared(name: &str, preset: Option<&str>) -> ModuleContext {
    ModuleContext::with_fields(String::from(name), preset.map(String::from))
}

#[test]
fn decode_accepts_a_module_and_rejects_other_bytes() {
    assert!(decode_artifact(&empty_module()).is_ok());
    assert!(decode_artifact(&ewasm_module()).is_ok());
    assert_eq!(decode_artifact(&[]).err(), Some(ChiselError::ArtifactDecodeFailed));
    assert_eq!(decode_artifact(&[0x00, 0x61, 0x73]).err(), Some(ChiselError::ArtifactDecodeFailed));
    assert_eq!(decode_artifact(b"not a module").err(), Some(ChiselError::ArtifactDecodeFailed));
    let mut trailing = empty_module();
    trailing.push(0xff);
    assert_eq!(decode_artifact(&trailing).err(), Some(ChiselError::ArtifactDecodeFailed));
}

#[test]
fn verifyexports_passes_a_module_with_the_ewasm_exports() {
    let module = decode(ewasm_module());
    assert!(execute_module(&declared("verifyexports", None), &module));
    assert!(execute_module(&declared("verifyexports", Some("ewasm")), &module));
    assert!(check_exports("ewasm", &module));
}

#[test]
fn verifyexports_fails_a_module_without_the_ewasm_exports() {
    assert!(!execute_module(&declared("verifyexports", None), &decode(empty_module())));
    assert!(!execute_module(&declared("verifyexports", None), &decode(no_start_module())));
    assert!(!execute_module(&declared("verifyexports", None), &decode(main_returns_i32_module())));
}

#[test]
fn verifyexports_fails_on_a_preset_it_does_not_know() {
    let module = decode(ewasm_module());
    assert!(!execute_module(&declared("verifyexports", Some("unknown")), &module));
    assert!(!execute_module(&declared("verifyexports", Some("")), &module));
    assert!(!execute_module(&declared("verifyexports", Some("EWASM")), &module));
    assert!(!check_exports("pwasm", &module));
}

#[test]
fn verifyexports_fails_a_module_whose_export_does_not_resolve() {
    let dangling = decode(dangling_export_module());
    assert!(!exports_resolve(&dangling));
    assert!(!execute_module(&declared("verifyexports", None), &dangling));
    let imported = decode(imported_main_module());
    assert!(!exports_resolve(&imported));
    assert!(!execute_module(&declared("verifyexports", None), &imported));
}

#[test]
fn verifyimports_passes_modules_with_proper_imports() {
    assert!(execute_module(&declared("verifyimports", None), &decode(ewasm_module())));
    assert!(execute_module(&declared("verifyimports", None), &decode(one_import_module())));
    assert!(execute_module(&declared("verifyimports", Some("ewasm")), &decode(one_import_module())));
    assert!(check_imports("ewasm", &decode(empty_module())));
}

#[test]
fn verifyimports_fails_an_ill_typed_import() {
    assert!(!execute_module(&declared("verifyimports", None), &decode(ill_typed_import_module())));
}

#[test]
fn verifyimports_fails_on_a_preset_it_does_not_know() {
    let module = decode(one_import_module());
    assert!(!execute_module(&declared("verifyimports", Some("unknown")), &module));
    assert!(!check_imports("", &module));
}

#[test]
fn verifyimports_fails_a_module_whose_import_does_not_resolve() {
    let dangling = decode(dangling_import_module());
    assert!(!imports_resolve(&dangling));
    assert!(!execute_module(&declared("verifyimports", None), &dangling));
}

#[test]
fn verifyimports_and_verifyexports_are_different_checks() {
    // Its exports are those of ewasm; its one import is ill-typed.
    let module = decode(ill_typed_import_module());
    assert!(execute_module(&declared("verifyexports", None), &module));
    assert!(!execute_module(&declared("verifyimports", None), &module));
    // It imports nothing and exports no memory.
    let module = decode(no_start_module());
    assert!(!execute_module(&declared("verifyexports", None), &module));
    assert!(execute_module(&declared("verifyimports", None), &module));
}

#[test]
fn checkstartfunc_asks_for_a_module_without_start() {
    assert!(!execute_module(&declared("checkstartfunc", None), &decode(start_module())));
    assert!(execute_module(&declared("checkstartfunc", None), &decode(no_start_module())));
    assert!(execute_module(&declared("checkstartfunc", None), &decode(empty_module())));
    assert!(!check_start(&decode(start_module())));
}

#[test]
fn checkstartfunc_does_not_read_its_preset() {
    assert!(!execute_module(&declared("checkstartfunc", Some("unknown")), &decode(start_module())));
    assert!(execute_module(&declared("checkstartfunc", Some("unknown")), &decode(no_start_module())));
}

#[test]
fn unknown_module_name_fails() {
    let module = decode(ewasm_module());
    assert!(!execute_module(&declared("unknowncheck", None), &module));
    assert!(!execute_module(&declared("", None), &module));
    assert!(!execute_module(&declared("VerifyExports", None), &module));
    assert!(!execute_module(&declared("deployer", Some("ewasm")), &module));
}

#[test]
fn resolvable_modules_are_told_from_others() {
    for bytes in [empty_module(), ewasm_module(), start_module(), no_start_module(), one_import_module()] {
        let module = decode(bytes);
        assert!(exports_resolve(&module));
        assert!(imports_resolve(&module));
    }
    assert!(imports_resolve(&decode(dangling_export_module())));
    assert!(exports_resolve(&decode(dangling_import_module())));
    assert!(imports_resolve(&decode(ill_typed_import_module())));
}

#[test]
fn imported_functions_are_counted() {
    assert_eq!(count_imported_functions(&decode(empty_module())), 0);
    assert_eq!(count_imported_functions(&decode(ewasm_module())), 0);
    assert_eq!(count_imported_functions(&decode(one_import_module())), 1);
}

#[test]
fn names_select_their_checks() {
    assert_eq!(CheckKind::named(&String::from("verifyexports")), CheckKind::VerifyExports);
    assert_eq!(CheckKind::named(&String::from("verifyimports")), CheckKind::VerifyImports);
    assert_eq!(CheckKind::named(&String::from("checkstartfunc")), CheckKind::CheckStartFunc);
    assert_eq!(CheckKind::named(&String::from("unknowncheck")), CheckKind::Unknown);
    assert_eq!(CheckKind::named(&String::from("verifyexports ")), CheckKind::Unknown);
    assert_eq!(CheckKind::named(&String::new()), CheckKind::Unknown);
}

#[test]
fn each_kind_runs_its_own_check() {
    let ewasm = decode(ewasm_module());
    let started = decode(start_module());
    assert!(CheckKind::VerifyExports.run("ewasm", &ewasm));
    assert!(!CheckKind::VerifyExports.run("ewasm", &started));
    assert!(!CheckKind::VerifyExports.run("other", &ewasm));
    assert!(CheckKind::VerifyImports.run("ewasm", &ewasm));
    assert!(!CheckKind::VerifyImports.run("other", &ewasm));
    assert!(CheckKind::CheckStartFunc.run("ewasm", &ewasm));
    assert!(CheckKind::CheckStartFunc.run("other", &ewasm));
    assert!(!CheckKind::CheckStartFunc.run("ewasm", &started));
    assert!(!CheckKind::Unknown.run("ewasm", &ewasm));
    assert!(!CheckKind::Unknown.run("ewasm", &started));
}
