//! The execution aggregator: runs every declared module against the target
//! binary, in declaration order, and folds the verdicts into a report.
//!
//! Reading files, printing and leaving the process are the caller's. What
//! the caller read comes in as plain values, and what it is to print and the
//! code it is to leave with go out as plain values.

use crate::artifact::{decode_artifact, decoded_module};
use crate::checks::{execute_module, is_known_check, verdict};
use crate::config::{
    configure, is_first_ruleset, lemma_configure_errors, lemma_file_alone_resolves, modules_view,
    resolve, yaml_configure, ChiselContext, ContextView, ModuleView,
};
use crate::document::{has_key, Node};
use crate::error::ChiselError;
use parity_wasm::elements::Module;
use vstd::prelude::*;

verus! {

/// The model of a verdict.
pub struct VerdictView {
    /// The name of the module.
    pub name: Seq<char>,
    /// Whether the binary passed the module's check.
    pub passed: bool,
}

/// The model of a report.
pub struct ReportView {
    /// Whether the binary passed every check.
    pub overall: bool,
    /// One verdict for each declared module, in declaration order.
    pub verdicts: Seq<VerdictView>,
}

/// The outcome of one module.
#[derive(Debug, PartialEq, Eq)]
pub struct Verdict {
    name: String,
    passed: bool,
}

/// The outcome of a run: one verdict for each declared module, in
/// declaration order, and their conjunction.
#[derive(Debug, PartialEq, Eq)]
pub struct Report {
    overall: bool,
    verdicts: Vec<Verdict>,
}

/// The model of a list of verdicts held in memory.
pub open spec fn verdicts_view(verdicts: Seq<Verdict>) -> Seq<VerdictView> {
    Seq::new(verdicts.len(), |i: int| verdicts[i]@)
}

/// True where every verdict is a pass; true of no verdicts at all.
pub open spec fn all_passed(verdicts: Seq<VerdictView>) -> bool {
    forall|i: int| 0 <= i < verdicts.len() ==> (#[trigger] verdicts[i]).passed
}

/// The verdicts of the declared modules on a decoded binary: one for each
/// module, under its name and in its place.
pub open spec fn verdicts_of(modules: Seq<ModuleView>, module: Module) -> Seq<VerdictView> {
    Seq::new(
        modules.len(),
        |i: int| VerdictView { name: modules[i].name, passed: verdict(modules[i], module) },
    )
}

/// The report of a run on a decoded binary.
pub open spec fn report_of(context: ContextView, module: Module) -> ReportView {
    ReportView {
        overall: all_passed(verdicts_of(context.modules, module)),
        verdicts: verdicts_of(context.modules, module),
    }
}

/// The outcome of a run on the bytes of the target binary.
pub open spec fn execute(context: ContextView, bytes: Seq<u8>) -> Result<ReportView, ChiselError> {
    match decoded_module(bytes) {
        Some(module) => Ok(report_of(context, module)),
        None => Err(ChiselError::ArtifactDecodeFailed),
    }
}

/// The line that reports a verdict.
pub open spec fn status_text(verdict: VerdictView) -> Seq<char> {
    verdict.name + ": "@ + if verdict.passed {
        "GOOD"@
    } else {
        "BAD"@
    }
}

/// The lines that report a run: a banner, then one line for each verdict, in
/// the order in which the modules ran.
pub open spec fn report_text(report: ReportView) -> Seq<Seq<char>> {
    Seq::new(
        report.verdicts.len() + 1,
        |i: int|
            if i == 0 {
                "========== RESULTS =========="@
            } else {
                status_text(report.verdicts[i - 1])
            },
    )
}

/// The line that reports the failure of a run.
pub open spec fn failure_text(program: Seq<char>, error: ChiselError) -> Seq<char> {
    program + ": "@ + error.text()
}

/// The code that the process leaves with: 0 where every check passed, 1
/// where the run was completed and a check failed, -1 where the run failed.
pub open spec fn exit_status(outcome: Result<ReportView, ChiselError>) -> int {
    match outcome {
        Ok(report) => if report.overall {
            0
        } else {
            1
        },
        Err(_) => -1,
    }
}

/// The lines that the process prints before it leaves.
pub open spec fn closing_text(
    program: Seq<char>,
    outcome: Result<ReportView, ChiselError>,
) -> Seq<Seq<char>> {
    match outcome {
        Ok(report) => report_text(report),
        Err(error) => seq![failure_text(program, error)],
    }
}

/// The model of the outcome of a run.
pub open spec fn outcome_view(outcome: Result<Report, ChiselError>) -> Result<
    ReportView,
    ChiselError,
> {
    match outcome {
        Ok(report) => Ok(report@),
        Err(error) => Err(error),
    }
}

/// The model of a list of lines held in memory.
pub open spec fn lines_view(lines: Seq<String>) -> Seq<Seq<char>> {
    Seq::new(lines.len(), |i: int| lines[i]@)
}

impl View for Verdict {
    type V = VerdictView;

    closed spec fn view(&self) -> VerdictView {
        VerdictView { name: self.name@, passed: self.passed }
    }
}

impl View for Report {
    type V = ReportView;

    closed spec fn view(&self) -> ReportView {
        ReportView { overall: self.overall, verdicts: verdicts_view(self.verdicts@) }
    }
}

impl Verdict {
    /// The verdict on the module of the given name.
    pub fn new(name: String, passed: bool) -> (r: Self)
        ensures
            r@ == (VerdictView { name: name@, passed }),
    {
        Verdict { name, passed }
    }

    /// The name of the module.
    pub fn name(&self) -> (r: &String)
        ensures
            r@ == self@.name,
    {
        &self.name
    }

    /// Whether the binary passed the module's check.
    pub fn passed(&self) -> (r: bool)
        ensures
            r == self@.passed,
    {
        self.passed
    }

    /// The status line: the name of the module, then `GOOD` or `BAD`.
    pub fn status_line(&self) -> (r: String)
        ensures
            r@ == status_text(self@),
    {
        let mut line = self.name.clone();
        line.append(": ");
        if self.passed {
            line.append("GOOD");
        } else {
            line.append("BAD");
        }
        line
    }
}

impl Report {
    #[verifier::type_invariant]
    spec fn consistent(self) -> bool {
        self.overall == all_passed(verdicts_view(self.verdicts@))
    }

    /// The report that holds the given verdicts.
    pub fn new(verdicts: Vec<Verdict>) -> (r: Self)
        ensures
            r@.verdicts == verdicts_view(verdicts@),
            r@.overall == all_passed(verdicts_view(verdicts@)),
    {
        let ghost model = verdicts_view(verdicts@);
        let mut overall = true;
        let mut i: usize = 0;
        while i < verdicts.len()
            invariant
                i <= verdicts.len(),
                model == verdicts_view(verdicts@),
                overall == (forall|j: int| 0 <= j < i ==> (#[trigger] model[j]).passed),
            decreases verdicts.len() - i,
        {
            let passed = verdicts[i].passed;
            assert(model[i as int].passed == passed);
            overall = passed && overall;
            i += 1;
        }
        Report { overall, verdicts }
    }

    /// Whether the binary passed every check. True where no module was
    /// declared.
    pub fn overall(&self) -> (r: bool)
        ensures
            r == self@.overall,
            r == all_passed(self@.verdicts),
    {
        proof {
            use_type_invariant(self);
        }
        self.overall
    }

    /// The verdicts, in the order in which the modules ran.
    pub fn verdicts(&self) -> (r: &Vec<Verdict>)
        ensures
            verdicts_view(r@) == self@.verdicts,
    {
        &self.verdicts
    }

    /// The lines that report the run: a banner, then the status line of each
    /// verdict, in the order in which the modules ran.
    pub fn lines(&self) -> (r: Vec<String>)
        ensures
            lines_view(r@) == report_text(self@),
    {
        let mut lines: Vec<String> = Vec::new();
        lines.push(String::from_str("========== RESULTS =========="));
        let mut i: usize = 0;
        while i < self.verdicts.len()
            invariant
                i <= self.verdicts.len(),
                lines.len() == i + 1,
                lines@[0]@ == "========== RESULTS =========="@,
                forall|k: int|
                    1 <= k <= i ==> (#[trigger] lines@[k])@ == status_text(self.verdicts@[k - 1]@),
            decreases self.verdicts.len() - i,
        {
            let line = self.verdicts[i].status_line();
            lines.push(line);
            i += 1;
        }
        assert forall|k: int| 0 <= k < lines@.len() implies lines_view(lines@)[k] == report_text(
            self@,
        )[k] by {
            if k > 0 {
                assert(lines@[k]@ == status_text(self.verdicts@[k - 1]@));
            }
        }
        assert(lines_view(lines@) =~= report_text(self@));
        lines
    }
}

/// The report says of itself what it holds: its verdict on the whole is the
/// conjunction of its verdicts.
pub proof fn lemma_report_consistent(context: ContextView, module: Module)
    ensures
        report_of(context, module).overall == all_passed(report_of(context, module).verdicts),
        report_of(context, module).verdicts.len() == context.modules.len(),
{
}

/// Runs every declared module against the decoded binary, in declaration
/// order. No verdict stops the run: every module is run.
pub fn run_modules(context: &ChiselContext, module: &Module) -> (r: Report)
    ensures
        r@ == report_of(context@, *module),
{
    let modules = context.get_modules();
    let ghost declared = context@.modules;
    let mut verdicts: Vec<Verdict> = Vec::new();
    let mut i: usize = 0;
    while i < modules.len()
        invariant
            i <= modules.len(),
            declared == modules_view(modules@),
            verdicts.len() == i,
            forall|j: int|
                0 <= j < i ==> (#[trigger] verdicts@[j])@ == verdicts_of(declared, *module)[j],
        decreases modules.len() - i,
    {
        let passed = execute_module(&modules[i], module);
        let (name, _) = modules[i].fields();
        assert(modules@[i as int]@ == declared[i as int]);
        verdicts.push(Verdict::new(name.clone(), passed));
        i += 1;
    }
    assert(verdicts_view(verdicts@) =~= verdicts_of(declared, *module));
    Report::new(verdicts)
}

/// Runs a resolved configuration on the bytes of its target binary.
///
/// Fails with `ArtifactDecodeFailed`, before any module is run, where the
/// bytes are not the encoding of a module. Once the binary is decoded the
/// run is completed.
pub fn chisel_execute(context: &ChiselContext, buffer: &[u8]) -> (r: Result<Report, ChiselError>)
    ensures
        outcome_view(r) == execute(context@, buffer@),
{
    match decode_artifact(buffer) {
        Ok(module) => Ok(run_modules(context, &module)),
        Err(e) => Err(e),
    }
}

/// The path of the configuration file when the command line names none.
pub open spec fn default_config_path() -> Seq<char> {
    "chisel.yml"@
}

/// The path of the configuration file to read: the one that the command
/// line names, or `chisel.yml` where it names none.
pub fn config_path<'a>(given: Option<&'a str>) -> (r: &'a str)
    ensures
        r@ == match given {
            Some(path) => path@,
            None => default_config_path(),
        },
{
    match given {
        Some(path) => path,
        None => "chisel.yml",
    }
}

/// Resolves the configuration from what reading the configuration file gave:
/// its text, or `None` where it could not be read.
///
/// Fails with `ConfigOpenFailed` where the file could not be read, and as
/// [`yaml_configure`] does on its text.
pub fn load_config(config: Option<String>) -> (r: Result<ChiselContext, ChiselError>)
    ensures
        match r {
            Ok(context) => config matches Some(text) && configure(text@) == Ok::<
                ContextView,
                ChiselError,
            >(context@),
            Err(e) => match config {
                Some(text) => configure(text@) == Err::<ContextView, ChiselError>(e),
                None => e == ChiselError::ConfigOpenFailed,
            },
        },
        r matches Err(e) ==> e.stage() is LoadingConfig || e.stage() is ResolvingRuleset,
{
    match config {
        Some(text) => {
            proof {
                lemma_configure_errors(text@);
            }
            yaml_configure(text)
        },
        None => Err(ChiselError::ConfigOpenFailed),
    }
}

/// Runs a resolved configuration on what reading the target binary gave: its
/// bytes, or `None` where it could not be read.
///
/// Fails with `BinaryOpenFailed` where the file could not be read, and as
/// [`chisel_execute`] does on its bytes.
pub fn run_binary(context: &ChiselContext, binary: Option<Vec<u8>>) -> (r: Result<
    Report,
    ChiselError,
>)
    ensures
        outcome_view(r) == match binary {
            Some(bytes) => execute(context@, bytes@),
            None => Err(ChiselError::BinaryOpenFailed),
        },
        r matches Err(e) ==> e.stage() is ReadingBinary || e.stage() is DecodingArtifact,
{
    match binary {
        Some(bytes) => chisel_execute(context, bytes.as_slice()),
        None => Err(ChiselError::BinaryOpenFailed),
    }
}

/// The line that reports the failure of a run: the program's name, then the
/// text of the error.
pub fn failure_line(program: &str, error: ChiselError) -> (r: String)
    ensures
        r@ == failure_text(program@, error),
{
    let mut line = String::from_str(program);
    line.append(": ");
    line.append(error.message());
    line
}

/// The code that the process leaves with.
pub fn exit_code(outcome: &Result<Report, ChiselError>) -> (r: i32)
    ensures
        r == exit_status(outcome_view(*outcome)),
{
    match outcome {
        Ok(report) => if report.overall() {
            0
        } else {
            1
        },
        Err(_) => -1,
    }
}

/// What the process does last: the lines it prints and the code it leaves
/// with. A failed run prints its one line and no report.
pub fn conclude(program: &str, outcome: &Result<Report, ChiselError>) -> (r: (Vec<String>, i32))
    ensures
        lines_view(r.0@) == closing_text(program@, outcome_view(*outcome)),
        r.1 == exit_status(outcome_view(*outcome)),
{
    let code: i32 = exit_code(outcome);
    let lines = match outcome {
        Ok(report) => report.lines(),
        Err(error) => {
            let mut lines: Vec<String> = Vec::new();
            lines.push(failure_line(program, *error));
            assert(lines_view(lines@) =~= seq![failure_text(program@, *error)]);
            lines
        },
    };
    (lines, code)
}

/// A configuration without modules passes: its report holds no verdict and
/// says that the binary passed, whatever the binary is.
pub proof fn lemma_vacuous_pass(context: ContextView, module: Module)
    requires
        context.modules.len() == 0,
    ensures
        report_of(context, module).verdicts.len() == 0,
        report_of(context, module).overall,
        exit_status(Ok(report_of(context, module))) == 0,
{
}

/// A document whose first ruleset-shaped entry holds a text under `file` and
/// nothing else resolves, and the run that it configures passes on every
/// binary. This holds in particular where that entry is the only
/// ruleset-shaped one.
pub proof fn lemma_file_alone_passes(
    entries: Seq<(Node, Node)>,
    i: int,
    file: Seq<char>,
    module: Module,
)
    requires
        is_first_ruleset(entries, i),
        entries[i].1->Mapping_0.len() > 0,
        entries[i].1->Mapping_0[0].1 == Node::Text(file),
        forall|j: int|
            0 <= j < entries[i].1->Mapping_0.len() ==> has_key(
                #[trigger] entries[i].1->Mapping_0[j],
                "file"@,
            ),
    ensures
        resolve(Node::Mapping(entries)) matches Ok(context) && context.file == file
            && context.modules.len() == 0 && report_of(context, module).overall,
{
    lemma_file_alone_resolves(entries, i, file);
}

/// A module whose name selects no check gets a failing verdict, under its
/// name and in its place, and the report still holds the verdict of every
/// other module.
pub proof fn lemma_unknown_module_fails(context: ContextView, module: Module, i: int)
    requires
        0 <= i < context.modules.len(),
        !is_known_check(context.modules[i].name),
    ensures
        report_of(context, module).verdicts.len() == context.modules.len(),
        report_of(context, module).verdicts[i] == (VerdictView {
            name: context.modules[i].name,
            passed: false,
        }),
        !report_of(context, module).overall,
        forall|j: int|
            0 <= j < context.modules.len() ==> #[trigger] report_of(context, module).verdicts[j]
                == (VerdictView {
                name: context.modules[j].name,
                passed: verdict(context.modules[j], module),
            }),
{
    let verdicts = verdicts_of(context.modules, module);
    assert(!verdicts[i].passed);
}

/// Two runs of the same configuration on the same bytes have the same
/// outcome.
pub proof fn lemma_execute_repeatable(
    context: ContextView,
    bytes: Seq<u8>,
    first: Result<Report, ChiselError>,
    second: Result<Report, ChiselError>,
)
    requires
        outcome_view(first) == execute(context, bytes),
        outcome_view(second) == execute(context, bytes),
    ensures
        outcome_view(first) == outcome_view(second),
        exit_status(outcome_view(first)) == exit_status(outcome_view(second)),
{
}

} // verus!
