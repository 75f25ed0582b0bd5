//! The stages of a run.
//!
//! A run passes through its stages in one order. A stage that comes before
//! the modules are executed may fail, which ends the run without a report.
//! From the moment the modules are executed nothing ends the run early: it
//! goes on to its report and is done.

use crate::error::ChiselError;
use vstd::prelude::*;

verus! {

/// Where a run stands.
#[derive(Clone, Copy, Debug, PartialEq, Eq, Structural)]
pub enum RunState {
    /// Nothing has been done yet.
    Idle,
    /// The configuration file is read and parsed.
    LoadingConfig,
    /// The document is resolved into a configuration.
    ResolvingRuleset,
    /// The target binary is read.
    ReadingBinary,
    /// The target binary is decoded.
    DecodingArtifact,
    /// The declared modules are run, one after the other.
    ExecutingModules,
    /// The report is put together.
    Reporting,
    /// The run was completed and has a report.
    Done,
    /// The run failed and has no report.
    Errored,
}

impl RunState {
    /// True of the two states that a run ends in.
    pub open spec fn is_terminal(self) -> bool {
        self is Done || self is Errored
    }

    /// True of the stages that come before the modules are executed.
    pub open spec fn precedes_execution(self) -> bool {
        self is Idle || self is LoadingConfig || self is ResolvingRuleset || self is ReadingBinary
            || self is DecodingArtifact
    }

    /// The state that follows this one when the work of this stage has
    /// succeeded or failed. A terminal state stays; a stage that comes before
    /// the modules are executed goes to `Errored` when it fails; every other
    /// step goes to the next stage, whatever happened.
    pub open spec fn next(self, succeeded: bool) -> RunState {
        if !succeeded && self.precedes_execution() {
            RunState::Errored
        } else {
            match self {
                RunState::Idle => RunState::LoadingConfig,
                RunState::LoadingConfig => RunState::ResolvingRuleset,
                RunState::ResolvingRuleset => RunState::ReadingBinary,
                RunState::ReadingBinary => RunState::DecodingArtifact,
                RunState::DecodingArtifact => RunState::ExecutingModules,
                RunState::ExecutingModules => RunState::Reporting,
                RunState::Reporting => RunState::Done,
                RunState::Done => RunState::Done,
                RunState::Errored => RunState::Errored,
            }
        }
    }

    /// The state that a run is in after it has gone through `steps`, one
    /// stage for each, starting from this state.
    pub open spec fn after(self, steps: Seq<bool>) -> RunState
        decreases steps.len(),
    {
        if steps.len() == 0 {
            self
        } else {
            self.after(steps.drop_last()).next(steps.last())
        }
    }

    /// Whether a run ends in this state.
    pub fn terminal(&self) -> (r: bool)
        ensures
            r == self.is_terminal(),
    {
        match self {
            RunState::Done => true,
            RunState::Errored => true,
            _ => false,
        }
    }

    /// Moves on from this state, given whether the work of this stage
    /// succeeded.
    pub fn advance(self, succeeded: bool) -> (r: RunState)
        ensures
            r == self.next(succeeded),
    {
        match self {
            RunState::Idle => if succeeded {
                RunState::LoadingConfig
            } else {
                RunState::Errored
            },
            RunState::LoadingConfig => if succeeded {
                RunState::ResolvingRuleset
            } else {
                RunState::Errored
            },
            RunState::ResolvingRuleset => if succeeded {
                RunState::ReadingBinary
            } else {
                RunState::Errored
            },
            RunState::ReadingBinary => if succeeded {
                RunState::DecodingArtifact
            } else {
                RunState::Errored
            },
            RunState::DecodingArtifact => if succeeded {
                RunState::ExecutingModules
            } else {
                RunState::Errored
            },
            RunState::ExecutingModules => RunState::Reporting,
            RunState::Reporting => RunState::Done,
            RunState::Done => RunState::Done,
            RunState::Errored => RunState::Errored,
        }
    }
}

impl ChiselError {
    /// The stage in which this failure arises.
    pub open spec fn stage(self) -> RunState {
        match self {
            ChiselError::ConfigOpenFailed => RunState::LoadingConfig,
            ChiselError::ConfigParseFailed => RunState::LoadingConfig,
            ChiselError::ConfigInvalid => RunState::ResolvingRuleset,
            ChiselError::ConfigMissingFile => RunState::ResolvingRuleset,
            ChiselError::FileTypeMismatch => RunState::ResolvingRuleset,
            ChiselError::ModuleTypeMismatch => RunState::ResolvingRuleset,
            ChiselError::PresetTypeMismatch => RunState::ResolvingRuleset,
            ChiselError::BinaryOpenFailed => RunState::ReadingBinary,
            ChiselError::ArtifactDecodeFailed => RunState::DecodingArtifact,
        }
    }

    /// Returns the stage in which this failure arises.
    pub fn arises_in(&self) -> (r: RunState)
        ensures
            r == self.stage(),
    {
        match self {
            ChiselError::ConfigOpenFailed => RunState::LoadingConfig,
            ChiselError::ConfigParseFailed => RunState::LoadingConfig,
            ChiselError::ConfigInvalid => RunState::ResolvingRuleset,
            ChiselError::ConfigMissingFile => RunState::ResolvingRuleset,
            ChiselError::FileTypeMismatch => RunState::ResolvingRuleset,
            ChiselError::ModuleTypeMismatch => RunState::ResolvingRuleset,
            ChiselError::PresetTypeMismatch => RunState::ResolvingRuleset,
            ChiselError::BinaryOpenFailed => RunState::ReadingBinary,
            ChiselError::ArtifactDecodeFailed => RunState::DecodingArtifact,
        }
    }
}

/// A run that has ended stays where it ended.
pub proof fn lemma_terminal_states_stay(state: RunState, steps: Seq<bool>)
    requires
        state.is_terminal(),
    ensures
        state.after(steps) == state,
    decreases steps.len(),
{
    if steps.len() > 0 {
        lemma_terminal_states_stay(state, steps.drop_last());
    }
}

/// Once the modules are executed nothing fails the run: whatever happens in
/// the stages from there on, the run never ends in `Errored`.
pub proof fn lemma_no_failure_once_executing(state: RunState, steps: Seq<bool>)
    requires
        !state.precedes_execution(),
        !(state is Errored),
    ensures
        !(state.after(steps) is Errored),
        !state.after(steps).precedes_execution(),
        steps.len() >= 1 ==> state.after(steps) is Reporting || state.after(steps) is Done,
        steps.len() >= 2 ==> state.after(steps) is Done,
    decreases steps.len(),
{
    if steps.len() > 0 {
        lemma_no_failure_once_executing(state, steps.drop_last());
    }
}

/// Every failure arises in a stage that comes before the modules are
/// executed, and failing there ends the run in `Errored`.
pub proof fn lemma_failures_precede_execution(error: ChiselError)
    ensures
        error.stage().precedes_execution(),
        error.stage().next(false) is Errored,
{
}

/// A run in which every stage succeeds goes from `Idle` to `Done`.
pub proof fn lemma_success_reaches_done()
    ensures
        RunState::Idle.after(Seq::new(7, |i: int| true)) is Done,
{
    let steps = Seq::new(7, |i: int| true);
    reveal_with_fuel(RunState::after, 8);
    let s6 = steps.drop_last();
    let s5 = s6.drop_last();
    let s4 = s5.drop_last();
    let s3 = s4.drop_last();
    let s2 = s3.drop_last();
    let s1 = s2.drop_last();
    let s0 = s1.drop_last();
    assert(s0.len() == 0);
    assert(RunState::Idle.after(s0) is Idle);
    assert(RunState::Idle.after(s1) is LoadingConfig);
    assert(RunState::Idle.after(s2) is ResolvingRuleset);
    assert(RunState::Idle.after(s3) is ReadingBinary);
    assert(RunState::Idle.after(s4) is DecodingArtifact);
    assert(RunState::Idle.after(s5) is ExecutingModules);
    assert(RunState::Idle.after(s6) is Reporting);
}

} // verus!
