//! The per-branch decision engine.
//!
//! For each local branch the engine runs a small state machine. It decides
//! whether the branch is skipped outright (the checked-out branch, a branch
//! whose name cannot be rendered as text, and the remote's default branch
//! are never touched), whether the operator is asked before the local branch
//! is deleted, whether the branch's upstream is looked up and — after a
//! second confirmation — deleted on the remote by a push, and how lookup and
//! push failures are reported. The engine performs no input or output
//! itself: each step returns an [`Action`] for a driver to carry out, and
//! the driver feeds the outcome of that action back into the next step.
//!
//! Every step is specified against a mathematical twin (`spec_begin`,
//! `spec_on_local_answer`, ...) over [`EngineModel`] values, in which branch
//! and remote names are character sequences.

use vstd::prelude::*;
use crate::refname::build_deletion_refspec;

verus! {

/// What the engine needs to know about one local branch: the short branch
/// name (`None` when the name cannot be rendered as text), the full ref
/// path the branch lives under (`None` when the ref has no textual name),
/// and whether the branch is currently checked out.
pub struct BranchFacts {
    pub short_name: Option<String>,
    pub ref_name: Option<String>,
    pub is_head: bool,
}

/// Mathematical picture of [`BranchFacts`]: names as character sequences.
#[verifier::ext_equal]
pub struct FactsModel {
    pub short_name: Option<Seq<char>>,
    pub ref_name: Option<Seq<char>>,
    pub is_head: bool,
}

/// The view of an optional owned string: an optional character sequence.
pub open spec fn opt_str_view(o: Option<String>) -> Option<Seq<char>> {
    match o {
        Some(s) => Some(s@),
        None => None,
    }
}

impl View for BranchFacts {
    type V = FactsModel;

    open spec fn view(&self) -> FactsModel {
        FactsModel {
            short_name: opt_str_view(self.short_name),
            ref_name: opt_str_view(self.ref_name),
            is_head: self.is_head,
        }
    }
}

/// Why a branch was skipped without ever being offered for deletion.
#[derive(Clone, Copy, Debug, PartialEq, Eq, Structural)]
pub enum SkipReason {
    /// The branch is currently checked out.
    Head,
    /// The branch name could not be rendered as text.
    Unnamed,
    /// The branch has the same short name as the remote's default branch.
    DefaultBranch,
}

/// The outcome of asking the repository which remote a branch tracks.
pub enum UpstreamLookup {
    /// The branch tracks the named remote.
    Found { remote: String },
    /// The branch tracks a remote whose name cannot be rendered as text;
    /// treated like an absent upstream.
    FoundUnnamed,
    /// No upstream is configured: a normal state, not an error.
    NotFound,
    /// The lookup itself failed.
    Failed { message: String },
}

/// Mathematical picture of [`UpstreamLookup`].
#[verifier::ext_equal]
pub enum LookupModel {
    Found { remote: Seq<char> },
    FoundUnnamed,
    NotFound,
    Failed { message: Seq<char> },
}

impl View for UpstreamLookup {
    type V = LookupModel;

    open spec fn view(&self) -> LookupModel {
        match self {
            UpstreamLookup::Found { remote } => LookupModel::Found { remote: remote@ },
            UpstreamLookup::FoundUnnamed => LookupModel::FoundUnnamed,
            UpstreamLookup::NotFound => LookupModel::NotFound,
            UpstreamLookup::Failed { message } => LookupModel::Failed { message: message@ },
        }
    }
}

/// What the driver must do next for the branch at hand. Only `PushDelete`
/// mutates the remote, and only `DeleteLocal` and `ReportThenDeleteLocal`
/// mutate the local branch.
pub enum Action {
    /// Leave the branch alone and say why.
    Skip { reason: SkipReason },
    /// Report a per-branch error; the branch is left alone.
    ReportError { message: String },
    /// The operator declined the local deletion; nothing more to do.
    Finish,
    /// Ask the operator whether to delete the named local branch.
    AskLocalDelete { name: String },
    /// Ask the repository which remote the branch at this ref path tracks.
    LookupUpstream { ref_name: String },
    /// Ask the operator whether to also delete the upstream branch.
    AskUpstreamDelete { ref_name: String },
    /// Push the deletion refspec to the named remote.
    PushDelete { remote: String, refspec: String },
    /// Delete the local branch.
    DeleteLocal,
    /// Report the push failure, then still delete the local branch.
    ReportThenDeleteLocal { message: String },
}

/// Mathematical picture of [`Action`].
#[verifier::ext_equal]
pub enum ActionModel {
    Skip { reason: SkipReason },
    ReportError { message: Seq<char> },
    Finish,
    AskLocalDelete { name: Seq<char> },
    LookupUpstream { ref_name: Seq<char> },
    AskUpstreamDelete { ref_name: Seq<char> },
    PushDelete { remote: Seq<char>, refspec: Seq<char> },
    DeleteLocal,
    ReportThenDeleteLocal { message: Seq<char> },
}

impl View for Action {
    type V = ActionModel;

    open spec fn view(&self) -> ActionModel {
        match self {
            Action::Skip { reason } => ActionModel::Skip { reason: *reason },
            Action::ReportError { message } => ActionModel::ReportError { message: message@ },
            Action::Finish => ActionModel::Finish,
            Action::AskLocalDelete { name } => ActionModel::AskLocalDelete { name: name@ },
            Action::LookupUpstream { ref_name } => ActionModel::LookupUpstream {
                ref_name: ref_name@,
            },
            Action::AskUpstreamDelete { ref_name } => ActionModel::AskUpstreamDelete {
                ref_name: ref_name@,
            },
            Action::PushDelete { remote, refspec } => ActionModel::PushDelete {
                remote: remote@,
                refspec: refspec@,
            },
            Action::DeleteLocal => ActionModel::DeleteLocal,
            Action::ReportThenDeleteLocal { message } => ActionModel::ReportThenDeleteLocal {
                message: message@,
            },
        }
    }
}

/// Where the engine stands for the branch at hand: which outcome it waits
/// for next, or `Done` once the branch is fully handled.
pub enum EngineState {
    AwaitingLocalAnswer,
    AwaitingUpstreamLookup,
    AwaitingUpstreamAnswer { remote: String },
    AwaitingPushResult,
    Done,
}

/// Mathematical picture of [`EngineState`].
#[verifier::ext_equal]
pub enum StateModel {
    AwaitingLocalAnswer,
    AwaitingUpstreamLookup,
    AwaitingUpstreamAnswer { remote: Seq<char> },
    AwaitingPushResult,
    Done,
}

impl View for EngineState {
    type V = StateModel;

    open spec fn view(&self) -> StateModel {
        match self {
            EngineState::AwaitingLocalAnswer => StateModel::AwaitingLocalAnswer,
            EngineState::AwaitingUpstreamLookup => StateModel::AwaitingUpstreamLookup,
            EngineState::AwaitingUpstreamAnswer { remote } => StateModel::AwaitingUpstreamAnswer {
                remote: remote@,
            },
            EngineState::AwaitingPushResult => StateModel::AwaitingPushResult,
            EngineState::Done => StateModel::Done,
        }
    }
}

/// The engine for one branch: the current state, and the branch's full ref
/// path, kept for upstream lookup and refspec construction.
pub struct BranchDecisionEngine {
    pub state: EngineState,
    pub ref_name: Option<String>,
}

/// Mathematical picture of [`BranchDecisionEngine`].
#[verifier::ext_equal]
pub struct EngineModel {
    pub state: StateModel,
    pub ref_name: Option<Seq<char>>,
}

impl View for BranchDecisionEngine {
    type V = EngineModel;

    open spec fn view(&self) -> EngineModel {
        EngineModel { state: self.state@, ref_name: opt_str_view(self.ref_name) }
    }
}

/// The view of a per-branch outcome handed to the engine: the error text as
/// a character sequence.
pub open spec fn outcome_view<T>(r: Result<T, String>) -> Result<T, Seq<char>> {
    match r {
        Ok(v) => Ok(v),
        Err(m) => Err(m@),
    }
}

/// The view of the facts read for a branch, or of the error that reading
/// them produced.
pub open spec fn branch_view(b: Result<BranchFacts, String>) -> Result<FactsModel, Seq<char>> {
    match b {
        Ok(f) => Ok(f@),
        Err(m) => Err(m@),
    }
}

/// Twin of [`BranchDecisionEngine::begin`]: how a branch enters the state
/// machine. A branch that failed to materialize is reported; the
/// checked-out branch, an unnamed branch and the default branch are
/// skipped; every other branch leads to the local-deletion prompt.
pub open spec fn spec_begin(
    branch: Result<FactsModel, Seq<char>>,
    default_short: Option<Seq<char>>,
) -> (EngineModel, ActionModel) {
    match branch {
        Err(message) => (
            EngineModel { state: StateModel::Done, ref_name: None },
            ActionModel::ReportError { message },
        ),
        Ok(f) => if f.is_head {
            (
                EngineModel { state: StateModel::Done, ref_name: f.ref_name },
                ActionModel::Skip { reason: SkipReason::Head },
            )
        } else {
            match f.short_name {
                None => (
                    EngineModel { state: StateModel::Done, ref_name: f.ref_name },
                    ActionModel::Skip { reason: SkipReason::Unnamed },
                ),
                Some(name) => {
                    let is_default = match default_short {
                        Some(d) => name == d,
                        None => false,
                    };
                    if is_default {
                        (
                            EngineModel { state: StateModel::Done, ref_name: f.ref_name },
                            ActionModel::Skip { reason: SkipReason::DefaultBranch },
                        )
                    } else {
                        (
                            EngineModel {
                                state: StateModel::AwaitingLocalAnswer,
                                ref_name: f.ref_name,
                            },
                            ActionModel::AskLocalDelete { name },
                        )
                    }
                },
            }
        },
    }
}

/// Twin of [`BranchDecisionEngine::on_local_answer`]: a declined prompt
/// finishes the branch untouched; an accepted one leads to the upstream
/// lookup, or straight to local deletion when the branch's ref has no
/// textual path to look up.
pub open spec fn spec_on_local_answer(e: EngineModel, accepted: bool) -> (
    EngineModel,
    ActionModel,
) {
    if !accepted {
        (EngineModel { state: StateModel::Done, ..e }, ActionModel::Finish)
    } else {
        match e.ref_name {
            Some(r) => (
                EngineModel { state: StateModel::AwaitingUpstreamLookup, ..e },
                ActionModel::LookupUpstream { ref_name: r },
            ),
            None => (EngineModel { state: StateModel::Done, ..e }, ActionModel::DeleteLocal),
        }
    }
}

/// Twin of [`BranchDecisionEngine::on_upstream_lookup`]: an absent (or
/// unnamed) upstream is a normal state and leads straight to local
/// deletion; a lookup failure is reported and aborts the branch; a found
/// upstream leads to the upstream-deletion prompt.
pub open spec fn spec_on_upstream_lookup(e: EngineModel, lookup: LookupModel) -> (
    EngineModel,
    ActionModel,
) {
    match lookup {
        LookupModel::NotFound => (
            EngineModel { state: StateModel::Done, ..e },
            ActionModel::DeleteLocal,
        ),
        LookupModel::FoundUnnamed => (
            EngineModel { state: StateModel::Done, ..e },
            ActionModel::DeleteLocal,
        ),
        LookupModel::Failed { message } => (
            EngineModel { state: StateModel::Done, ..e },
            ActionModel::ReportError { message },
        ),
        LookupModel::Found { remote } => (
            EngineModel { state: StateModel::AwaitingUpstreamAnswer { remote }, ..e },
            ActionModel::AskUpstreamDelete {
                ref_name: match e.ref_name {
                    Some(r) => r,
                    None => Seq::empty(),
                },
            },
        ),
    }
}

/// Twin of [`BranchDecisionEngine::on_upstream_answer`]: declining leaves
/// the remote untouched and deletes only the local branch; accepting asks
/// for a push of the deletion refspec `:` + ref path.
pub open spec fn spec_on_upstream_answer(e: EngineModel, accepted: bool) -> (
    EngineModel,
    ActionModel,
) {
    if !accepted {
        (EngineModel { state: StateModel::Done, ..e }, ActionModel::DeleteLocal)
    } else {
        let remote = match e.state {
            StateModel::AwaitingUpstreamAnswer { remote } => remote,
            _ => Seq::empty(),
        };
        let rn = match e.ref_name {
            Some(r) => r,
            None => Seq::empty(),
        };
        (
            EngineModel { state: StateModel::AwaitingPushResult, ..e },
            ActionModel::PushDelete { remote, refspec: seq![':'] + rn },
        )
    }
}

/// Twin of [`BranchDecisionEngine::on_push_result`]: whatever the push
/// outcome, the local branch is deleted afterwards; a failed push is
/// additionally reported.
pub open spec fn spec_on_push_result(e: EngineModel, outcome: Result<(), Seq<char>>) -> (
    EngineModel,
    ActionModel,
) {
    match outcome {
        Ok(u) => (EngineModel { state: StateModel::Done, ..e }, ActionModel::DeleteLocal),
        Err(message) => (
            EngineModel { state: StateModel::Done, ..e },
            ActionModel::ReportThenDeleteLocal { message },
        ),
    }
}

impl BranchDecisionEngine {
    /// Enters the state machine for one enumerated branch. `branch` is the
    /// branch's facts, or the error that reading the branch produced;
    /// `default_short` is the short name of the remote's default branch,
    /// absent when no branch is to be protected on that basis.
    pub fn begin(branch: Result<BranchFacts, String>, default_short: &Option<String>) -> (r: (
        BranchDecisionEngine,
        Action,
    ))
        ensures
            r.0@ == spec_begin(branch_view(branch), opt_str_view(*default_short)).0,
            r.1@ == spec_begin(branch_view(branch), opt_str_view(*default_short)).1,
    {
        match branch {
            Err(message) => (
                BranchDecisionEngine { state: EngineState::Done, ref_name: None },
                Action::ReportError { message },
            ),
            Ok(facts) => {
                if facts.is_head {
                    (
                        BranchDecisionEngine { state: EngineState::Done, ref_name: facts.ref_name },
                        Action::Skip { reason: SkipReason::Head },
                    )
                } else {
                    match facts.short_name {
                        None => (
                            BranchDecisionEngine {
                                state: EngineState::Done,
                                ref_name: facts.ref_name,
                            },
                            Action::Skip { reason: SkipReason::Unnamed },
                        ),
                        Some(name) => {
                            let is_default = match default_short {
                                Some(d) => name == *d,
                                None => false,
                            };
                            if is_default {
                                (
                                    BranchDecisionEngine {
                                        state: EngineState::Done,
                                        ref_name: facts.ref_name,
                                    },
                                    Action::Skip { reason: SkipReason::DefaultBranch },
                                )
                            } else {
                                (
                                    BranchDecisionEngine {
                                        state: EngineState::AwaitingLocalAnswer,
                                        ref_name: facts.ref_name,
                                    },
                                    Action::AskLocalDelete { name },
                                )
                            }
                        },
                    }
                }
            },
        }
    }

    /// Feeds in the operator's answer to the local-deletion prompt.
    pub fn on_local_answer(&mut self, accepted: bool) -> (a: Action)
        requires
            old(self).state is AwaitingLocalAnswer,
        ensures
            final(self)@ == spec_on_local_answer(old(self)@, accepted).0,
            a@ == spec_on_local_answer(old(self)@, accepted).1,
    {
        if !accepted {
            self.state = EngineState::Done;
            Action::Finish
        } else {
            match &self.ref_name {
                Some(r) => {
                    let rn = r.clone();
                    self.state = EngineState::AwaitingUpstreamLookup;
                    Action::LookupUpstream { ref_name: rn }
                },
                None => {
                    self.state = EngineState::Done;
                    Action::DeleteLocal
                },
            }
        }
    }

    /// Feeds in the outcome of the upstream lookup.
    pub fn on_upstream_lookup(&mut self, lookup: UpstreamLookup) -> (a: Action)
        requires
            old(self).state is AwaitingUpstreamLookup,
            old(self).ref_name is Some,
        ensures
            final(self)@ == spec_on_upstream_lookup(old(self)@, lookup@).0,
            a@ == spec_on_upstream_lookup(old(self)@, lookup@).1,
    {
        match lookup {
            UpstreamLookup::NotFound => {
                self.state = EngineState::Done;
                Action::DeleteLocal
            },
            UpstreamLookup::FoundUnnamed => {
                self.state = EngineState::Done;
                Action::DeleteLocal
            },
            UpstreamLookup::Failed { message } => {
                self.state = EngineState::Done;
                Action::ReportError { message }
            },
            UpstreamLookup::Found { remote } => {
                let rn = match &self.ref_name {
                    Some(r) => r.clone(),
                    None => unreached(),
                };
                self.state = EngineState::AwaitingUpstreamAnswer { remote };
                Action::AskUpstreamDelete { ref_name: rn }
            },
        }
    }

    /// Feeds in the operator's answer to the upstream-deletion prompt.
    pub fn on_upstream_answer(&mut self, accepted: bool) -> (a: Action)
        requires
            old(self).state is AwaitingUpstreamAnswer,
            old(self).ref_name is Some,
        ensures
            final(self)@ == spec_on_upstream_answer(old(self)@, accepted).0,
            a@ == spec_on_upstream_answer(old(self)@, accepted).1,
    {
        if !accepted {
            self.state = EngineState::Done;
            Action::DeleteLocal
        } else {
            let remote = match &self.state {
                EngineState::AwaitingUpstreamAnswer { remote } => remote.clone(),
                _ => unreached(),
            };
            let refspec = match &self.ref_name {
                Some(r) => build_deletion_refspec(r.as_str()),
                None => unreached(),
            };
            self.state = EngineState::AwaitingPushResult;
            Action::PushDelete { remote, refspec }
        }
    }

    /// Feeds in the outcome of the push that was to delete the upstream.
    pub fn on_push_result(&mut self, outcome: Result<(), String>) -> (a: Action)
        requires
            old(self).state is AwaitingPushResult,
        ensures
            final(self)@ == spec_on_push_result(old(self)@, outcome_view(outcome)).0,
            a@ == spec_on_push_result(old(self)@, outcome_view(outcome)).1,
    {
        self.state = EngineState::Done;
        match outcome {
            Ok(_) => Action::DeleteLocal,
            Err(message) => Action::ReportThenDeleteLocal { message },
        }
    }
}

} // verus!
