//! The ruleset resolver: from a document to the configuration of one run.
//!
//! A document is a mapping from ruleset names to ruleset bodies. The first
//! entry with a text key and a mapping value is the ruleset; the others are
//! ignored. In the ruleset, the entry `file` names the target binary and
//! every other entry declares a module: its name, and under `preset` the
//! preset it is to run with. The resolver checks shapes only. Whether a
//! module's name is known is decided when the module is run.

use crate::document::{
    entries_view, find_entry, has_key, lemma_lookup_absent, lemma_lookup_found, lemma_mapping_view,
    lookup, Document, Node,
};
use crate::error::ChiselError;
use crate::yaml::{parse_document, parsed_yaml};
use vstd::prelude::*;

verus! {

/// The model of a module declaration.
pub struct ModuleView {
    /// The name of the check.
    pub name: Seq<char>,
    /// The declared preset, `None` where the declaration has none.
    pub preset: Option<Seq<char>>,
}

/// The model of a resolved configuration.
pub struct ContextView {
    /// The path of the target binary.
    pub file: Seq<char>,
    /// The declared modules, in declaration order.
    pub modules: Seq<ModuleView>,
}

/// One declared module: the name of a check and the preset to run it with.
#[derive(Debug, PartialEq, Eq)]
pub struct ModuleContext {
    module_name: String,
    preset: Option<String>,
}

/// The configuration of one run: the target binary and the modules to run
/// against it, in declaration order.
#[derive(Debug, PartialEq, Eq)]
pub struct ChiselContext {
    file: String,
    modules: Vec<ModuleContext>,
}

/// The model of an optional text.
pub open spec fn option_text(text: Option<String>) -> Option<Seq<char>> {
    match text {
        Some(s) => Some(s@),
        None => None,
    }
}

/// The model of a list of modules held in memory.
pub open spec fn modules_view(modules: Seq<ModuleContext>) -> Seq<ModuleView> {
    Seq::new(modules.len(), |i: int| modules[i]@)
}

impl View for ModuleContext {
    type V = ModuleView;

    closed spec fn view(&self) -> ModuleView {
        ModuleView { name: self.module_name@, preset: option_text(self.preset) }
    }
}

impl View for ChiselContext {
    type V = ContextView;

    closed spec fn view(&self) -> ContextView {
        ContextView { file: self.file@, modules: modules_view(self.modules@) }
    }
}

/// The target binary that a ruleset names: the value of its `file` entry,
/// which has to be text.
pub open spec fn filename(ruleset: Seq<(Node, Node)>) -> Result<Seq<char>, ChiselError> {
    match lookup(ruleset, "file"@) {
        None => Err(ChiselError::ConfigMissingFile),
        Some(Node::Text(path)) => Ok(path),
        Some(_) => Err(ChiselError::FileTypeMismatch),
    }
}

/// The module that one entry of a ruleset declares. The key is the name and
/// has to be text, the value holds the flags and has to be a mapping, and the
/// flag `preset`, where there is one, has to be text.
pub open spec fn module_of(entry: (Node, Node)) -> Result<ModuleView, ChiselError> {
    match entry {
        (Node::Text(name), Node::Mapping(flags)) => match lookup(flags, "preset"@) {
            None => Ok(ModuleView { name, preset: None }),
            Some(Node::Text(preset)) => Ok(ModuleView { name, preset: Some(preset) }),
            Some(_) => Err(ChiselError::PresetTypeMismatch),
        },
        _ => Err(ChiselError::ModuleTypeMismatch),
    }
}

/// The modules that a ruleset declares, in declaration order: one for every
/// entry but `file`. The first entry that declares none decides the error.
pub open spec fn declared_modules(ruleset: Seq<(Node, Node)>) -> Result<
    Seq<ModuleView>,
    ChiselError,
>
    decreases ruleset.len(),
{
    if ruleset.len() == 0 {
        Ok(Seq::empty())
    } else {
        match declared_modules(ruleset.drop_last()) {
            Err(e) => Err(e),
            Ok(modules) => if has_key(ruleset.last(), "file"@) {
                Ok(modules)
            } else {
                match module_of(ruleset.last()) {
                    Ok(module) => Ok(modules.push(module)),
                    Err(e) => Err(e),
                }
            },
        }
    }
}

/// The configuration that a ruleset describes. A missing or ill-typed `file`
/// is reported before any module is looked at.
pub open spec fn resolve_ruleset(ruleset: Seq<(Node, Node)>) -> Result<ContextView, ChiselError> {
    match filename(ruleset) {
        Err(e) => Err(e),
        Ok(file) => match declared_modules(ruleset) {
            Err(e) => Err(e),
            Ok(modules) => Ok(ContextView { file, modules }),
        },
    }
}

/// True where an entry of a document has the shape of a ruleset: a text key
/// and a mapping value.
pub open spec fn is_ruleset_entry(entry: (Node, Node)) -> bool {
    entry.0 is Text && entry.1 is Mapping
}

/// True where `i` is the position of the first ruleset-shaped entry.
pub open spec fn is_first_ruleset(entries: Seq<(Node, Node)>, i: int) -> bool {
    &&& 0 <= i < entries.len()
    &&& is_ruleset_entry(entries[i])
    &&& forall|j: int| 0 <= j < i ==> !is_ruleset_entry(#[trigger] entries[j])
}

/// The body of the first ruleset-shaped entry, `None` where no entry has
/// that shape.
pub open spec fn selected_ruleset(entries: Seq<(Node, Node)>) -> Option<Seq<(Node, Node)>> {
    if exists|i: int| is_first_ruleset(entries, i) {
        Some(entries[choose|i: int| is_first_ruleset(entries, i)].1->Mapping_0)
    } else {
        None
    }
}

/// The configuration that a document describes.
pub open spec fn resolve(document: Node) -> Result<ContextView, ChiselError> {
    match document {
        Node::Mapping(entries) => match selected_ruleset(entries) {
            Some(ruleset) => resolve_ruleset(ruleset),
            None => Err(ChiselError::ConfigInvalid),
        },
        _ => Err(ChiselError::ConfigInvalid),
    }
}

/// The configuration that a configuration text describes.
pub open spec fn configure(text: Seq<char>) -> Result<ContextView, ChiselError> {
    match parsed_yaml(text) {
        None => Err(ChiselError::ConfigParseFailed),
        Some(document) => resolve(document),
    }
}

/// The first ruleset-shaped entry is the one that is selected.
pub proof fn lemma_selected_found(entries: Seq<(Node, Node)>, i: int)
    requires
        is_first_ruleset(entries, i),
    ensures
        selected_ruleset(entries) == Some(entries[i].1->Mapping_0),
{
    let k = choose|k: int| is_first_ruleset(entries, k);
    if k < i {
        assert(!is_ruleset_entry(entries[k]));
    } else if i < k {
        assert(!is_ruleset_entry(entries[i]));
    }
}

/// Where no entry is ruleset-shaped, none is selected.
pub proof fn lemma_selected_absent(entries: Seq<(Node, Node)>)
    requires
        forall|j: int| 0 <= j < entries.len() ==> !is_ruleset_entry(#[trigger] entries[j]),
    ensures
        selected_ruleset(entries) is None,
{
    if exists|i: int| is_first_ruleset(entries, i) {
        let k = choose|k: int| is_first_ruleset(entries, k);
        assert(is_ruleset_entry(entries[k]));
    }
}

/// An error among the first entries of a ruleset is the error of the whole.
pub proof fn lemma_declared_modules_error(ruleset: Seq<(Node, Node)>, n: int)
    requires
        0 <= n <= ruleset.len(),
        declared_modules(ruleset.take(n)) is Err,
    ensures
        declared_modules(ruleset) == declared_modules(ruleset.take(n)),
    decreases ruleset.len() - n,
{
    if n == ruleset.len() {
        assert(ruleset.take(n) =~= ruleset);
    } else {
        let next = ruleset.take(n + 1);
        assert(next.drop_last() =~= ruleset.take(n));
        lemma_declared_modules_error(ruleset, n + 1);
    }
}

/// The entries of a ruleset that declare a module: all but `file`, in the
/// order in which they stand.
pub open spec fn module_entries(ruleset: Seq<(Node, Node)>) -> Seq<(Node, Node)> {
    ruleset.filter(|entry: (Node, Node)| !has_key(entry, "file"@))
}

/// True where `k` is the position, among the entries that declare a module,
/// of the first that is ill-formed.
pub open spec fn is_first_ill_formed(entries: Seq<(Node, Node)>, k: int) -> bool {
    &&& 0 <= k < entries.len()
    &&& module_of(entries[k]) is Err
    &&& forall|j: int| 0 <= j < k ==> module_of(#[trigger] entries[j]) is Ok
}

/// What a ruleset declares, entry by entry: where every entry but `file` is
/// well-formed, one module for each of them, in their order; otherwise the
/// error of the first that is not.
pub proof fn lemma_declared_modules_in_order(ruleset: Seq<(Node, Node)>)
    ensures
        match declared_modules(ruleset) {
            Ok(modules) => {
                &&& modules.len() == module_entries(ruleset).len()
                &&& forall|k: int|
                    0 <= k < modules.len() ==> module_of(#[trigger] module_entries(ruleset)[k])
                        == Ok::<ModuleView, ChiselError>(modules[k])
            },
            Err(e) => exists|k: int|
                is_first_ill_formed(module_entries(ruleset), k) && module_of(
                    module_entries(ruleset)[k],
                ) == Err::<ModuleView, ChiselError>(e),
        },
    decreases ruleset.len(),
{
    reveal(Seq::filter);
    if ruleset.len() > 0 {
        let init = ruleset.drop_last();
        let last = ruleset.last();
        let kept = module_entries(init);
        lemma_declared_modules_in_order(init);
        if has_key(last, "file"@) {
            assert(module_entries(ruleset) == kept);
        } else {
            assert(module_entries(ruleset) == kept.push(last));
            match declared_modules(init) {
                Ok(modules) => {
                    match module_of(last) {
                        Ok(module) => {
                            assert forall|k: int| 0 <= k < modules.push(module).len() implies module_of(
                                #[trigger] module_entries(ruleset)[k],
                            ) == Ok::<ModuleView, ChiselError>(modules.push(module)[k]) by {
                                if k < modules.len() {
                                    assert(module_entries(ruleset)[k] == kept[k]);
                                }
                            }
                        },
                        Err(e) => {
                            let k = kept.len() as int;
                            assert forall|j: int| 0 <= j < k implies module_of(
                                #[trigger] module_entries(ruleset)[j],
                            ) is Ok by {
                                assert(module_entries(ruleset)[j] == kept[j]);
                            }
                            assert(is_first_ill_formed(module_entries(ruleset), k));
                        },
                    }
                },
                Err(e) => {
                    let k = choose|k: int|
                        is_first_ill_formed(kept, k) && module_of(kept[k]) == Err::<
                            ModuleView,
                            ChiselError,
                        >(e);
                    assert forall|j: int| 0 <= j < k implies module_of(
                        #[trigger] module_entries(ruleset)[j],
                    ) is Ok by {
                        assert(module_entries(ruleset)[j] == kept[j]);
                    }
                    assert(module_entries(ruleset)[k] == kept[k]);
                    assert(is_first_ill_formed(module_entries(ruleset), k));
                },
            }
        }
    }
}

/// True of the failures that resolving a document can end in.
pub open spec fn is_resolution_error(error: ChiselError) -> bool {
    error.stage() is ResolvingRuleset
}

/// The modules of a ruleset fail to resolve only for their shape.
pub proof fn lemma_declared_modules_errors(ruleset: Seq<(Node, Node)>)
    ensures
        declared_modules(ruleset) matches Err(e) ==> e == ChiselError::ModuleTypeMismatch || e
            == ChiselError::PresetTypeMismatch,
    decreases ruleset.len(),
{
    if ruleset.len() > 0 {
        lemma_declared_modules_errors(ruleset.drop_last());
    }
}

/// Resolving a document fails only with a failure of the resolution stage.
pub proof fn lemma_resolve_errors(document: Node)
    ensures
        resolve(document) matches Err(e) ==> is_resolution_error(e),
{
    if let Node::Mapping(entries) = document {
        if let Some(ruleset) = selected_ruleset(entries) {
            lemma_declared_modules_errors(ruleset);
        }
    }
}

/// Resolving a text fails only with `ConfigParseFailed` or with a failure of
/// the resolution stage.
pub proof fn lemma_configure_errors(text: Seq<char>)
    ensures
        configure(text) matches Err(e) ==> e == ChiselError::ConfigParseFailed
            || is_resolution_error(e),
{
    if let Some(document) = parsed_yaml(text) {
        lemma_resolve_errors(document);
    }
}

/// A ruleset that holds nothing but `file` declares no module.
pub proof fn lemma_no_modules(ruleset: Seq<(Node, Node)>)
    requires
        forall|j: int| 0 <= j < ruleset.len() ==> has_key(#[trigger] ruleset[j], "file"@),
    ensures
        declared_modules(ruleset) == Ok::<Seq<ModuleView>, ChiselError>(Seq::empty()),
    decreases ruleset.len(),
{
    if ruleset.len() > 0 {
        let init = ruleset.drop_last();
        assert forall|j: int| 0 <= j < init.len() implies has_key(#[trigger] init[j], "file"@) by {
            assert(init[j] == ruleset[j]);
        }
        lemma_no_modules(init);
        assert(has_key(ruleset[ruleset.len() - 1], "file"@));
    }
}

/// A document whose first ruleset-shaped entry holds a text under `file` and
/// nothing else resolves to that file and no modules. This holds in
/// particular where that entry is the only ruleset-shaped one.
pub proof fn lemma_file_alone_resolves(entries: Seq<(Node, Node)>, i: int, file: Seq<char>)
    requires
        is_first_ruleset(entries, i),
        entries[i].1->Mapping_0.len() > 0,
        entries[i].1->Mapping_0[0].1 == Node::Text(file),
        forall|j: int|
            0 <= j < entries[i].1->Mapping_0.len() ==> has_key(
                #[trigger] entries[i].1->Mapping_0[j],
                "file"@,
            ),
    ensures
        resolve(Node::Mapping(entries)) == Ok::<ContextView, ChiselError>(
            ContextView { file, modules: Seq::empty() },
        ),
{
    let ruleset = entries[i].1->Mapping_0;
    lemma_selected_found(entries, i);
    assert(has_key(ruleset[0], "file"@));
    lemma_lookup_found(ruleset, "file"@, 0);
    lemma_no_modules(ruleset);
}

/// A document whose first ruleset-shaped entry has no `file` is rejected
/// with `ConfigMissingFile`, whatever else that entry holds.
pub proof fn lemma_missing_file(entries: Seq<(Node, Node)>, i: int)
    requires
        is_first_ruleset(entries, i),
        forall|j: int|
            0 <= j < entries[i].1->Mapping_0.len() ==> !has_key(
                #[trigger] entries[i].1->Mapping_0[j],
                "file"@,
            ),
    ensures
        resolve(Node::Mapping(entries)) == Err::<ContextView, ChiselError>(
            ChiselError::ConfigMissingFile,
        ),
{
    lemma_selected_found(entries, i);
    lemma_lookup_absent(entries[i].1->Mapping_0, "file"@);
}

/// Only the first ruleset-shaped entry of a document counts: two documents
/// that agree up to and including that entry resolve alike, whatever follows
/// it in either.
pub proof fn lemma_first_ruleset_decides(
    first: Seq<(Node, Node)>,
    second: Seq<(Node, Node)>,
    i: int,
)
    requires
        is_first_ruleset(first, i),
        i < second.len(),
        forall|j: int| 0 <= j <= i ==> second[j] == first[j],
    ensures
        resolve(Node::Mapping(first)) == resolve(Node::Mapping(second)),
{
    assert forall|j: int| 0 <= j < i implies !is_ruleset_entry(#[trigger] second[j]) by {
        assert(second[j] == first[j]);
        assert(!is_ruleset_entry(first[j]));
    }
    assert(second[i] == first[i]);
    lemma_selected_found(first, i);
    lemma_selected_found(second, i);
}

impl ModuleContext {
    /// A module with the given name and preset.
    pub fn with_fields(module: String, pre: Option<String>) -> (r: Self)
        ensures
            r@ == (ModuleView { name: module@, preset: option_text(pre) }),
    {
        ModuleContext { module_name: module, preset: pre }
    }

    /// The name and the declared preset.
    pub fn fields(&self) -> (r: (&String, &Option<String>))
        ensures
            self@ == (ModuleView { name: r.0@, preset: option_text(*r.1) }),
    {
        (&self.module_name, &self.preset)
    }

    /// Reads one entry of a ruleset, key and value, as a module declaration.
    ///
    /// Fails with `ModuleTypeMismatch` unless the key is text and the value a
    /// mapping, and with `PresetTypeMismatch` where the value has an entry
    /// `preset` that is not text.
    pub fn from_yaml(yaml: (&Document, &Document)) -> (r: Result<Self, ChiselError>)
        ensures
            match r {
                Ok(module) => module_of((yaml.0@, yaml.1@)) == Ok::<ModuleView, ChiselError>(
                    module@,
                ),
                Err(e) => module_of((yaml.0@, yaml.1@)) == Err::<ModuleView, ChiselError>(e),
            },
    {
        let name = match yaml.0 {
            Document::Text(name) => name,
            _ => {
                return Err(ChiselError::ModuleTypeMismatch);
            },
        };
        let flags = match yaml.1 {
            Document::Mapping(flags) => flags,
            _ => {
                return Err(ChiselError::ModuleTypeMismatch);
            },
        };
        proof {
            lemma_mapping_view(*flags);
        }
        let preset = match find_entry(flags, "preset") {
            None => None,
            Some(Document::Text(preset)) => Some(preset.clone()),
            Some(_) => {
                return Err(ChiselError::PresetTypeMismatch);
            },
        };
        Ok(ModuleContext { module_name: name.clone(), preset })
    }
}

/// Reads the path of the target binary from a ruleset.
///
/// Fails with `ConfigMissingFile` where the ruleset has no entry `file`, and
/// with `FileTypeMismatch` where that entry is not text.
pub fn get_filename(yaml: &Document) -> (r: Result<String, ChiselError>)
    requires
        yaml@ is Mapping,
    ensures
        match r {
            Ok(path) => filename(yaml@->Mapping_0) == Ok::<Seq<char>, ChiselError>(path@),
            Err(e) => filename(yaml@->Mapping_0) == Err::<Seq<char>, ChiselError>(e),
        },
{
    match yaml {
        Document::Mapping(entries) => {
            proof {
                lemma_mapping_view(*entries);
            }
            match find_entry(entries, "file") {
                None => Err(ChiselError::ConfigMissingFile),
                Some(Document::Text(path)) => Ok(path.clone()),
                Some(_) => Err(ChiselError::FileTypeMismatch),
            }
        },
        _ => Err(ChiselError::ConfigInvalid),
    }
}

/// Reads the module declarations of a ruleset: every entry but `file`, in
/// declaration order. Stops at the first entry that declares no module.
pub fn read_modules(ruleset: &Vec<(Document, Document)>) -> (r: Result<
    Vec<ModuleContext>,
    ChiselError,
>)
    ensures
        match r {
            Ok(modules) => declared_modules(entries_view(ruleset@)) == Ok::<
                Seq<ModuleView>,
                ChiselError,
            >(modules_view(modules@)),
            Err(e) => declared_modules(entries_view(ruleset@)) == Err::<
                Seq<ModuleView>,
                ChiselError,
            >(e),
        },
{
    let ghost model = entries_view(ruleset@);
    let mut modules: Vec<ModuleContext> = Vec::new();
    let mut i: usize = 0;
    assert(model.take(0) =~= Seq::empty());
    assert(modules_view(modules@) =~= Seq::empty());
    while i < ruleset.len()
        invariant
            i <= ruleset.len(),
            model == entries_view(ruleset@),
            declared_modules(model.take(i as int)) == Ok::<Seq<ModuleView>, ChiselError>(
                modules_view(modules@),
            ),
        decreases ruleset.len() - i,
    {
        let ghost before = modules_view(modules@);
        proof {
            assert(model.take(i + 1).drop_last() =~= model.take(i as int));
            assert(model.take(i + 1).last() == model[i as int]);
        }
        if !ruleset[i].0.is_text("file") {
            match ModuleContext::from_yaml((&ruleset[i].0, &ruleset[i].1)) {
                Ok(module) => {
                    modules.push(module);
                    assert(modules_view(modules@) =~= before.push(module@));
                },
                Err(e) => {
                    proof {
                        lemma_declared_modules_error(model, i + 1);
                    }
                    return Err(e);
                },
            }
        }
        i += 1;
    }
    assert(model.take(i as int) =~= model);
    Ok(modules)
}

impl ChiselContext {
    /// Resolves a document into the configuration of a run.
    ///
    /// The first entry of the document with a text key and a mapping value is
    /// the ruleset; later entries are ignored. Fails with `ConfigInvalid`
    /// where the document is no mapping or has no such entry, and with the
    /// error of the ruleset's `file` entry or of its first ill-formed module
    /// declaration, in that order.
    pub fn from_ruleset(ruleset: &Document) -> (r: Result<Self, ChiselError>)
        ensures
            match r {
                Ok(context) => resolve(ruleset@) == Ok::<ContextView, ChiselError>(context@),
                Err(e) => resolve(ruleset@) == Err::<ContextView, ChiselError>(e),
            },
    {
        let rules = match ruleset {
            Document::Mapping(rules) => rules,
            _ => {
                return Err(ChiselError::ConfigInvalid);
            },
        };
        let ghost entries = entries_view(rules@);
        proof {
            lemma_mapping_view(*rules);
        }
        let mut i: usize = 0;
        while i < rules.len()
            invariant
                i <= rules.len(),
                entries == entries_view(rules@),
                ruleset@ == Node::Mapping(entries),
                forall|j: int| 0 <= j < i ==> !is_ruleset_entry(#[trigger] entries[j]),
            decreases rules.len() - i,
        {
            if let Document::Text(_) = &rules[i].0 {
                if let Document::Mapping(body) = &rules[i].1 {
                    proof {
                        lemma_mapping_view(*body);
                        assert(is_ruleset_entry(entries[i as int]));
                        lemma_selected_found(entries, i as int);
                    }
                    let file = match get_filename(&rules[i].1) {
                        Ok(file) => file,
                        Err(e) => {
                            return Err(e);
                        },
                    };
                    let modules = match read_modules(body) {
                        Ok(modules) => modules,
                        Err(e) => {
                            return Err(e);
                        },
                    };
                    return Ok(ChiselContext { file, modules });
                }
            }
            assert(!is_ruleset_entry(entries[i as int]));
            i += 1;
        }
        proof {
            lemma_selected_absent(entries);
        }
        Err(ChiselError::ConfigInvalid)
    }

    /// The path of the target binary.
    pub fn file(&self) -> (r: &String)
        ensures
            r@ == self@.file,
    {
        &self.file
    }

    /// The declared modules, in declaration order.
    pub fn get_modules(&self) -> (r: &Vec<ModuleContext>)
        ensures
            modules_view(r@) == self@.modules,
    {
        &self.modules
    }
}

/// Resolves a configuration text into the configuration of a run.
///
/// Fails with `ConfigParseFailed` where the text is not well-formed YAML,
/// and as [`ChiselContext::from_ruleset`] does on the document it holds.
pub fn yaml_configure(yaml: String) -> (r: Result<ChiselContext, ChiselError>)
    ensures
        match r {
            Ok(context) => configure(yaml@) == Ok::<ContextView, ChiselError>(context@),
            Err(e) => configure(yaml@) == Err::<ContextView, ChiselError>(e),
        },
{
    match parse_document(yaml.as_str()) {
        Some(ruleset) => ChiselContext::from_ruleset(&ruleset),
        None => Err(ChiselError::ConfigParseFailed),
    }
}

} // verus!
