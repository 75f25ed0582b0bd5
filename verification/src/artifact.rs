//! The target binary: decoding it, and telling whether its indices resolve.
//!
//! The decoder is `parity_wasm`. It checks the encoding of a module, not what
//! the module's indices refer to, and the export and import checks follow
//! those indices into the function and type sections. [`exports_resolve`] and
//! [`imports_resolve`] tell whether they can do so.

use crate::error::ChiselError;
use parity_wasm::elements::{External, Internal, Module};
use vstd::prelude::*;

verus! {

/// `parity_wasm::elements::Module`, a decoded module. Nothing inside it is
/// visible here; it is handed on to the checks as it was decoded.
#[verifier::external_type_specification]
#[verifier::external_body]
pub struct ExModule(parity_wasm::elements::Module);

/// `parity_wasm::elements::Error`, why the decoder rejected the bytes.
/// Nothing is read of it.
#[verifier::external_type_specification]
#[verifier::external_body]
pub struct ExDecodeError(parity_wasm::elements::Error);

/// The module that `parity_wasm::elements::deserialize_buffer` decodes from
/// bytes, `None` where it rejects them.
pub uninterp spec fn decoded_module(bytes: Seq<u8>) -> Option<Module>;

/// The length of a module's type section, `None` where it has none.
pub uninterp spec fn type_count(module: Module) -> Option<nat>;

/// The type index of each entry of a module's function section, in order,
/// `None` where it has no function section.
pub uninterp spec fn function_types(module: Module) -> Option<Seq<u32>>;

/// For each entry of a module's import section, in order, the type index of
/// an imported function and `None` for any other import; `None` where the
/// module has no import section.
pub uninterp spec fn imported_functions(module: Module) -> Option<Seq<Option<u32>>>;

/// For each entry of a module's export section, in order, the function
/// index of an exported function and `None` for any other export; `None`
/// where the module has no export section.
pub uninterp spec fn exported_functions(module: Module) -> Option<Seq<Option<u32>>>;

/// Calls `parity_wasm::elements::deserialize_buffer` for a `Module`.
///
/// Trusted: the decoder is a function of the bytes alone, so what it returns
/// is what [`decoded_module`] names.
#[verifier::external_body]
fn deserialize_module(bytes: &[u8]) -> (r: Result<Module, parity_wasm::elements::Error>)
    ensures
        r matches Ok(module) ==> decoded_module(bytes@) == Some(module),
        r is Err ==> decoded_module(bytes@) is None,
{
    parity_wasm::elements::deserialize_buffer::<Module>(bytes)
}

/// Calls `Module::type_section` and takes the length of `TypeSection::types`.
///
/// Trusted: the result is what [`type_count`] names.
#[verifier::external_body]
fn read_type_count(module: &Module) -> (r: Option<usize>)
    ensures
        r matches Some(n) ==> type_count(*module) == Some(n as nat),
        r is None ==> type_count(*module) is None,
{
    module.type_section().map(|section| section.types().len())
}

/// Calls `Module::function_section` and collects `Func::type_ref` of each of
/// `FunctionSection::entries`.
///
/// Trusted: the result is what [`function_types`] names.
#[verifier::external_body]
fn read_function_types(module: &Module) -> (r: Option<Vec<u32>>)
    ensures
        r matches Some(types) ==> function_types(*module) == Some(types@),
        r is None ==> function_types(*module) is None,
{
    module.function_section().map(
        |section| section.entries().iter().map(|function| function.type_ref()).collect(),
    )
}

/// Calls `Module::import_section` and collects, for each of
/// `ImportSection::entries`, the type index that `ImportEntry::external`
/// holds where it is a function.
///
/// Trusted: the result is what [`imported_functions`] names.
#[verifier::external_body]
fn read_imported_functions(module: &Module) -> (r: Option<Vec<Option<u32>>>)
    ensures
        r matches Some(imports) ==> imported_functions(*module) == Some(imports@),
        r is None ==> imported_functions(*module) is None,
{
    module.import_section().map(
        |section|
            section.entries().iter().map(
                |entry|
                    match entry.external() {
                        External::Function(type_index) => Some(*type_index),
                        External::Table(_) => None,
                        External::Memory(_) => None,
                        External::Global(_) => None,
                    },
            ).collect(),
    )
}

/// Calls `Module::export_section` and collects, for each of
/// `ExportSection::entries`, the function index that `ExportEntry::internal`
/// holds where it is a function.
///
/// Trusted: the result is what [`exported_functions`] names.
#[verifier::external_body]
fn read_exported_functions(module: &Module) -> (r: Option<Vec<Option<u32>>>)
    ensures
        r matches Some(exports) ==> exported_functions(*module) == Some(exports@),
        r is None ==> exported_functions(*module) is None,
{
    module.export_section().map(
        |section|
            section.entries().iter().map(
                |entry|
                    match entry.internal() {
                        Internal::Function(function_index) => Some(*function_index),
                        Internal::Table(_) => None,
                        Internal::Memory(_) => None,
                        Internal::Global(_) => None,
                    },
            ).collect(),
    )
}

/// How many of `items` hold an index.
pub open spec fn count_some(items: Seq<Option<u32>>) -> nat
    decreases items.len(),
{
    if items.len() == 0 {
        0
    } else {
        count_some(items.drop_last()) + if items.last() is Some {
            1nat
        } else {
            0nat
        }
    }
}

/// The number of functions that a module imports. The functions of a module
/// are numbered with the imported ones first.
pub open spec fn imported_function_count(module: Module) -> nat {
    match imported_functions(module) {
        Some(imports) => count_some(imports),
        None => 0,
    }
}

/// True where `type_index` lies within the module's type section.
pub open spec fn type_resolves(module: Module, type_index: u32) -> bool {
    type_count(module) matches Some(n) && type_index < n
}

/// True where the type of every imported function lies within the type
/// section.
pub open spec fn imports_resolvable(module: Module) -> bool {
    match imported_functions(module) {
        None => true,
        Some(imports) => forall|i: int|
            0 <= i < imports.len() ==> ((#[trigger] imports[i]) matches Some(type_index)
                ==> type_resolves(module, type_index)),
    }
}

/// True where a function index leads to a type: it names a function of the
/// module's own, and that function's type lies within the type section. A
/// module without a function section or without a type section has nothing
/// to follow, and every index counts as resolved.
pub open spec fn function_resolves(module: Module, function_index: u32) -> bool {
    match (function_types(module), type_count(module)) {
        (Some(types), Some(n)) => {
            let local = function_index - imported_function_count(module);
            0 <= local < types.len() && types[local] < n
        },
        _ => true,
    }
}

/// True where every exported function leads to a type.
pub open spec fn exports_resolvable(module: Module) -> bool {
    match exported_functions(module) {
        None => true,
        Some(exports) => forall|i: int|
            0 <= i < exports.len() ==> ((#[trigger] exports[i]) matches Some(function_index)
                ==> function_resolves(module, function_index)),
    }
}

/// Decodes the target binary. Fails with `ArtifactDecodeFailed` where the
/// bytes are not the encoding of a module.
pub fn decode_artifact(bytes: &[u8]) -> (r: Result<Module, ChiselError>)
    ensures
        match r {
            Ok(module) => decoded_module(bytes@) == Some(module),
            Err(e) => e == ChiselError::ArtifactDecodeFailed && decoded_module(bytes@) is None,
        },
{
    match deserialize_module(bytes) {
        Ok(module) => Ok(module),
        Err(_) => Err(ChiselError::ArtifactDecodeFailed),
    }
}

/// Counts the functions that a module imports.
pub fn count_imported_functions(module: &Module) -> (r: usize)
    ensures
        r == imported_function_count(*module),
{
    let imports = match read_imported_functions(module) {
        Some(imports) => imports,
        None => {
            return 0;
        },
    };
    let mut count: usize = 0;
    let mut i: usize = 0;
    assert(imports@.take(0) =~= Seq::empty());
    while i < imports.len()
        invariant
            i <= imports.len(),
            count <= i,
            count == count_some(imports@.take(i as int)),
        decreases imports.len() - i,
    {
        proof {
            assert(imports@.take(i + 1).drop_last() =~= imports@.take(i as int));
            assert(imports@.take(i + 1).last() == imports@[i as int]);
        }
        if imports[i].is_some() {
            count += 1;
        }
        i += 1;
    }
    assert(imports@.take(i as int) =~= imports@);
    count
}

/// Tells whether the type of every imported function lies within the type
/// section.
pub fn imports_resolve(module: &Module) -> (r: bool)
    ensures
        r == imports_resolvable(*module),
{
    let imports = match read_imported_functions(module) {
        Some(imports) => imports,
        None => {
            return true;
        },
    };
    let types = read_type_count(module);
    let mut i: usize = 0;
    while i < imports.len()
        invariant
            i <= imports.len(),
            imported_functions(*module) == Some(imports@),
            types matches Some(n) ==> type_count(*module) == Some(n as nat),
            types is None ==> type_count(*module) is None,
            forall|j: int|
                0 <= j < i ==> ((#[trigger] imports@[j]) matches Some(type_index)
                    ==> type_resolves(*module, type_index)),
        decreases imports.len() - i,
    {
        if let Some(type_index) = imports[i] {
            let resolves = match types {
                Some(n) => (type_index as usize) < n,
                None => false,
            };
            if !resolves {
                assert(!type_resolves(*module, type_index));
                assert(imports@[i as int] == Some(type_index));
                return false;
            }
        }
        i += 1;
    }
    true
}

/// Tells whether every exported function leads to a type.
pub fn exports_resolve(module: &Module) -> (r: bool)
    ensures
        r == exports_resolvable(*module),
{
    let exports = match read_exported_functions(module) {
        Some(exports) => exports,
        None => {
            return true;
        },
    };
    let types = match read_function_types(module) {
        Some(types) => types,
        None => {
            return true;
        },
    };
    let n: usize = match read_type_count(module) {
        Some(n) => n,
        None => {
            return true;
        },
    };
    let imported: usize = count_imported_functions(module);
    let mut i: usize = 0;
    while i < exports.len()
        invariant
            i <= exports.len(),
            exported_functions(*module) == Some(exports@),
            function_types(*module) == Some(types@),
            type_count(*module) == Some(n as nat),
            imported == imported_function_count(*module),
            forall|j: int|
                0 <= j < i ==> ((#[trigger] exports@[j]) matches Some(function_index)
                    ==> function_resolves(*module, function_index)),
        decreases exports.len() - i,
    {
        if let Some(function_index) = exports[i] {
            let index: usize = function_index as usize;
            let resolves = index >= imported && index - imported < types.len() && (types[index
                - imported] as usize) < n;
            if !resolves {
                assert(!function_resolves(*module, function_index));
                assert(exports@[i as int] == Some(function_index));
                return false;
            }
        }
        i += 1;
    }
    true
}

} // verus!
