//! The module dispatcher: runs one declared module against the decoded
//! binary.
//!
//! The checks themselves are `libchisel`'s. A module's name selects the
//! check, and its preset, `ewasm` where none is declared, configures it. A
//! name that selects no check, a preset that the check does not know and a
//! check that reports a failure of its own all give a failing verdict, so
//! nothing that happens here stops a run.
//!
//! The export and import checks follow a module's indices without looking at
//! the length of the sections they lead into. They are asked only about a
//! module whose indices resolve; any other module fails them.

use crate::artifact::{exports_resolvable, exports_resolve, imports_resolvable, imports_resolve};
use crate::config::{ModuleContext, ModuleView};
use crate::document::text_is;
use libchisel::checkstartfunc::CheckStartFunc;
use libchisel::verifyexports::VerifyExports;
use libchisel::verifyimports::VerifyImports;
use libchisel::{ModuleError, ModulePreset, ModuleValidator};
use parity_wasm::elements::Module;
use vstd::prelude::*;

verus! {

/// `libchisel::verifyexports::VerifyExports`, the export check.
#[verifier::external_type_specification]
#[verifier::external_body]
pub struct ExVerifyExports<'a>(VerifyExports<'a>);

/// `libchisel::verifyimports::VerifyImports`, the import check.
#[verifier::external_type_specification]
#[verifier::external_body]
pub struct ExVerifyImports<'a>(VerifyImports<'a>);

/// `libchisel::checkstartfunc::CheckStartFunc`, the start-function check.
#[verifier::external_type_specification]
#[verifier::external_body]
pub struct ExCheckStartFunc(CheckStartFunc);

/// `libchisel::ModuleError`, the failure that a check reports of itself.
/// Nothing is read of it.
#[verifier::external_type_specification]
#[verifier::external_body]
pub struct ExModuleError(ModuleError);

/// The export check that `VerifyExports::with_preset` builds for a preset it
/// knows.
pub uninterp spec fn export_check(preset: Seq<char>) -> VerifyExports<'static>;

/// What `VerifyExports::validate` finds of a module: `Some` with its finding,
/// `None` where it reports a failure of its own.
pub uninterp spec fn export_finding(check: VerifyExports<'static>, module: Module) -> Option<bool>;

/// The import check that `VerifyImports::with_preset` builds for a preset it
/// knows.
pub uninterp spec fn import_check(preset: Seq<char>) -> VerifyImports<'static>;

/// What `VerifyImports::validate` finds of a module: `Some` with its finding,
/// `None` where it reports a failure of its own.
pub uninterp spec fn import_finding(check: VerifyImports<'static>, module: Module) -> Option<bool>;

/// Whether a `CheckStartFunc` asks for a start section or for none.
pub uninterp spec fn start_required(check: CheckStartFunc) -> bool;

/// Whether a module has a start section.
pub uninterp spec fn has_start_section(module: Module) -> bool;

/// Calls `VerifyExports::with_preset`.
///
/// Trusted: `ewasm` is the one preset it knows, and it builds the same check
/// whenever it is given the same preset.
#[verifier::external_body]
fn export_check_with_preset(preset: &str) -> (r: Result<VerifyExports<'static>, ()>)
    ensures
        r is Ok <==> preset@ == "ewasm"@,
        r matches Ok(check) ==> check == export_check(preset@),
{
    VerifyExports::with_preset(preset)
}

/// Calls `VerifyExports::validate`.
///
/// Trusted: it is a function of the check and the module alone, so what it
/// returns is what [`export_finding`] names. It indexes the function and type
/// sections at every exported function it looks up, hence the `requires`.
#[verifier::external_body]
fn validate_exports(check: &VerifyExports<'static>, module: &Module) -> (r: Result<
    bool,
    ModuleError,
>)
    requires
        exports_resolvable(*module),
    ensures
        r matches Ok(valid) ==> export_finding(*check, *module) == Some(valid),
        r is Err ==> export_finding(*check, *module) is None,
{
    check.validate(module)
}

/// Calls `VerifyImports::with_preset`.
///
/// Trusted: `ewasm` is the one preset it knows, and it builds the same check
/// whenever it is given the same preset.
#[verifier::external_body]
fn import_check_with_preset(preset: &str) -> (r: Result<VerifyImports<'static>, ()>)
    ensures
        r is Ok <==> preset@ == "ewasm"@,
        r matches Ok(check) ==> check == import_check(preset@),
{
    VerifyImports::with_preset(preset)
}

/// Calls `VerifyImports::validate`.
///
/// Trusted: it is a function of the check and the module alone, so what it
/// returns is what [`import_finding`] names. It indexes the type section at
/// every imported function it looks up, hence the `requires`.
#[verifier::external_body]
fn validate_imports(check: &VerifyImports<'static>, module: &Module) -> (r: Result<
    bool,
    ModuleError,
>)
    requires
        imports_resolvable(*module),
    ensures
        r matches Ok(valid) ==> import_finding(*check, *module) == Some(valid),
        r is Err ==> import_finding(*check, *module) is None,
{
    check.validate(module)
}

/// Calls `CheckStartFunc::new`.
///
/// Trusted: the check it builds asks for what the argument says.
#[verifier::external_body]
fn start_check_new(is_start_required: bool) -> (r: CheckStartFunc)
    ensures
        start_required(r) == is_start_required,
{
    CheckStartFunc::new(is_start_required)
}

/// Calls `CheckStartFunc::validate`.
///
/// Trusted: it never fails, and finds a module valid where the module has a
/// start section and the check asks for one, or has none and the check asks
/// for none.
#[verifier::external_body]
fn validate_start(check: &CheckStartFunc, module: &Module) -> (r: Result<bool, ModuleError>)
    ensures
        r is Ok,
        r matches Ok(valid) ==> valid == (has_start_section(*module) == start_required(*check)),
{
    check.validate(module)
}

/// The checks that a module's name can select.
#[derive(Clone, Copy, Debug, PartialEq, Eq, Structural)]
pub enum CheckKind {
    /// The exports of the binary are those that the preset asks for.
    VerifyExports,
    /// The imports of the binary are among those that the preset allows.
    VerifyImports,
    /// The binary has no start function.
    CheckStartFunc,
    /// No check: the name is not one of the above. Every binary fails it.
    Unknown,
}

/// The preset that a module runs with: the declared one, or `ewasm`.
pub open spec fn effective_preset(preset: Option<Seq<char>>) -> Seq<char> {
    match preset {
        Some(preset) => preset,
        None => "ewasm"@,
    }
}

/// The check that a name selects.
pub open spec fn kind_of(name: Seq<char>) -> CheckKind {
    if name == "verifyexports"@ {
        CheckKind::VerifyExports
    } else if name == "verifyimports"@ {
        CheckKind::VerifyImports
    } else if name == "checkstartfunc"@ {
        CheckKind::CheckStartFunc
    } else {
        CheckKind::Unknown
    }
}

/// True where the name selects a check.
pub open spec fn is_known_check(name: Seq<char>) -> bool {
    name == "verifyexports"@ || name == "verifyimports"@ || name == "checkstartfunc"@
}

/// The verdict of the export check with the given preset: the preset is one
/// that the check knows, the module's exports resolve, and the check finds
/// the module valid.
pub open spec fn exports_verdict(preset: Seq<char>, module: Module) -> bool {
    &&& preset == "ewasm"@
    &&& exports_resolvable(module)
    &&& export_finding(export_check(preset), module) == Some(true)
}

/// The verdict of the import check with the given preset: the preset is one
/// that the check knows, the module's imports resolve, and the check finds
/// the module valid.
pub open spec fn imports_verdict(preset: Seq<char>, module: Module) -> bool {
    &&& preset == "ewasm"@
    &&& imports_resolvable(module)
    &&& import_finding(import_check(preset), module) == Some(true)
}

/// The verdict of the start-function check. It asks for a module without a
/// start section, whatever the declaration says.
pub open spec fn start_verdict(module: Module) -> bool {
    !has_start_section(module)
}

/// The verdict of a check, run with a preset, on a decoded binary.
pub open spec fn check_verdict(kind: CheckKind, preset: Seq<char>, module: Module) -> bool {
    match kind {
        CheckKind::VerifyExports => exports_verdict(preset, module),
        CheckKind::VerifyImports => imports_verdict(preset, module),
        CheckKind::CheckStartFunc => start_verdict(module),
        CheckKind::Unknown => false,
    }
}

/// The verdict of a declared module on a decoded binary.
pub open spec fn verdict(declared: ModuleView, module: Module) -> bool {
    check_verdict(kind_of(declared.name), effective_preset(declared.preset), module)
}

/// A module whose name selects no check fails, whatever its preset and
/// whatever the binary.
pub proof fn lemma_unknown_check_fails(declared: ModuleView, module: Module)
    requires
        !is_known_check(declared.name),
    ensures
        kind_of(declared.name) is Unknown,
        !verdict(declared, module),
{
}

/// A preset other than `ewasm` fails the export and the import check,
/// whatever the binary.
pub proof fn lemma_unknown_preset_fails(preset: Seq<char>, module: Module)
    requires
        preset != "ewasm"@,
    ensures
        !exports_verdict(preset, module),
        !imports_verdict(preset, module),
{
}

/// The verdict that a check's outcome stands for: its finding, and failure
/// where the check reported a failure of its own.
pub fn finding_passed(outcome: Result<bool, ModuleError>) -> (r: bool)
    ensures
        r == (outcome matches Ok(valid) && valid),
{
    match outcome {
        Ok(valid) => valid,
        Err(_) => false,
    }
}

/// Runs the export check with the given preset.
pub fn check_exports(preset: &str, module: &Module) -> (r: bool)
    ensures
        r == exports_verdict(preset@, *module),
{
    match export_check_with_preset(preset) {
        Ok(check) => {
            if exports_resolve(module) {
                finding_passed(validate_exports(&check, module))
            } else {
                false
            }
        },
        Err(_) => false,
    }
}

/// Runs the import check with the given preset.
pub fn check_imports(preset: &str, module: &Module) -> (r: bool)
    ensures
        r == imports_verdict(preset@, *module),
{
    match import_check_with_preset(preset) {
        Ok(check) => {
            if imports_resolve(module) {
                finding_passed(validate_imports(&check, module))
            } else {
                false
            }
        },
        Err(_) => false,
    }
}

/// Runs the start-function check.
pub fn check_start(module: &Module) -> (r: bool)
    ensures
        r == start_verdict(*module),
{
    let check = start_check_new(false);
    finding_passed(validate_start(&check, module))
}

impl CheckKind {
    /// The check that a name selects, `Unknown` where it selects none.
    pub fn named(name: &String) -> (r: CheckKind)
        ensures
            r == kind_of(name@),
    {
        if text_is(name, "verifyexports") {
            CheckKind::VerifyExports
        } else if text_is(name, "verifyimports") {
            CheckKind::VerifyImports
        } else if text_is(name, "checkstartfunc") {
            CheckKind::CheckStartFunc
        } else {
            CheckKind::Unknown
        }
    }

    /// Runs this check, with the given preset, on the decoded binary.
    pub fn run(self, preset: &str, module: &Module) -> (r: bool)
        ensures
            r == check_verdict(self, preset@, *module),
    {
        match self {
            CheckKind::VerifyExports => check_exports(preset, module),
            CheckKind::VerifyImports => check_imports(preset, module),
            CheckKind::CheckStartFunc => check_start(module),
            CheckKind::Unknown => false,
        }
    }
}

/// Runs one declared module against the decoded binary and returns its
/// verdict.
pub fn execute_module(context: &ModuleContext, module: &Module) -> (ret: bool)
    ensures
        ret == verdict(context@, *module),
{
    let (conf_name, conf_preset) = context.fields();
    let preset = match conf_preset {
        Some(preset) => preset.clone(),
        None => String::from_str("ewasm"),
    };
    CheckKind::named(conf_name).run(preset.as_str(), module)
}

} // verus!
