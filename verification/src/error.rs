//! The closed set of failures that end a run before any check is attempted.

use vstd::prelude::*;

verus! {

/// Why a run stopped without producing a report.
#[derive(Clone, Copy, Debug, PartialEq, Eq, Structural)]
pub enum ChiselError {
    /// The configuration file could not be read.
    ConfigOpenFailed,
    /// The configuration text is not a well-formed document.
    ConfigParseFailed,
    /// The document holds no entry with a text key and a mapping value.
    ConfigInvalid,
    /// The selected ruleset has no `file` entry.
    ConfigMissingFile,
    /// The `file` entry of the selected ruleset is not text.
    FileTypeMismatch,
    /// An entry of the selected ruleset does not declare a module.
    ModuleTypeMismatch,
    /// The `preset` flag of a module is not text.
    PresetTypeMismatch,
    /// The target binary could not be read.
    BinaryOpenFailed,
    /// The target binary is not a well-formed module.
    ArtifactDecodeFailed,
}

impl ChiselError {
    /// The text shown to the user for this failure.
    pub open spec fn text(self) -> Seq<char> {
        match self {
            ChiselError::ConfigOpenFailed => "Failed to open configuration file."@,
            ChiselError::ConfigParseFailed => "Failed to parse configuration file."@,
            ChiselError::ConfigInvalid => "Config is invalid."@,
            ChiselError::ConfigMissingFile => "Config missing file path to chisel."@,
            ChiselError::FileTypeMismatch => "Entry 'file' does not map to a string."@,
            ChiselError::ModuleTypeMismatch => "An entry 'module' does not point to a key-value map."@,
            ChiselError::PresetTypeMismatch => "A field 'preset' belonging to a module is not a string"@,
            ChiselError::BinaryOpenFailed => "Failed to open wasm binary."@,
            ChiselError::ArtifactDecodeFailed => "Failed to deserialize the wasm binary."@,
        }
    }

    /// Returns the text shown to the user for this failure.
    pub fn message(&self) -> (r: &'static str)
        ensures
            r@ == self.text(),
    {
        match self {
            ChiselError::ConfigOpenFailed => "Failed to open configuration file.",
            ChiselError::ConfigParseFailed => "Failed to parse configuration file.",
            ChiselError::ConfigInvalid => "Config is invalid.",
            ChiselError::ConfigMissingFile => "Config missing file path to chisel.",
            ChiselError::FileTypeMismatch => "Entry 'file' does not map to a string.",
            ChiselError::ModuleTypeMismatch => "An entry 'module' does not point to a key-value map.",
            ChiselError::PresetTypeMismatch => "A field 'preset' belonging to a module is not a string",
            ChiselError::BinaryOpenFailed => "Failed to open wasm binary.",
            ChiselError::ArtifactDecodeFailed => "Failed to deserialize the wasm binary.",
        }
    }
}

} // verus!
