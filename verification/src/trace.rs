//! Action traces of the decision engine, and the guarantees proved over
//! them.
//!
//! [`branch_trace`] is the full sequence of actions a compliant driver
//! performs for one branch: it composes the engine's specification twins,
//! stopping as soon as the engine is done. The lemmas in this module state
//! the safety guarantees of the cleanup run: protected branches are never
//! prompted for or touched, a declined prompt mutates nothing, an absent
//! upstream is not an error, every push uses the exact deletion refspec,
//! and no push outcome can block the local deletion the operator asked for.

use vstd::prelude::*;
use crate::engine::{
    ActionModel, FactsModel, LookupModel, SkipReason, spec_begin, spec_on_local_answer,
    spec_on_push_result, spec_on_upstream_answer, spec_on_upstream_lookup,
};

verus! {

/// True of an action that deletes the local branch.
pub open spec fn deletes_local(a: ActionModel) -> bool {
    a is DeleteLocal || a is ReportThenDeleteLocal
}

/// True of an action that touches the remote.
pub open spec fn pushes(a: ActionModel) -> bool {
    a is PushDelete
}

/// True of an action that mutates the branch or its upstream.
pub open spec fn mutates(a: ActionModel) -> bool {
    deletes_local(a) || pushes(a)
}

/// True of an action that prompts the operator.
pub open spec fn prompts(a: ActionModel) -> bool {
    a is AskLocalDelete || a is AskUpstreamDelete
}

/// True of an action that reports an error.
pub open spec fn reports_error(a: ActionModel) -> bool {
    a is ReportError || a is ReportThenDeleteLocal
}

pub open spec fn trace_never_prompts(t: Seq<ActionModel>) -> bool {
    forall|i: int| 0 <= i < t.len() ==> !prompts(#[trigger] t[i])
}

pub open spec fn trace_never_mutates(t: Seq<ActionModel>) -> bool {
    forall|i: int| 0 <= i < t.len() ==> !mutates(#[trigger] t[i])
}

pub open spec fn trace_never_pushes(t: Seq<ActionModel>) -> bool {
    forall|i: int| 0 <= i < t.len() ==> !pushes(#[trigger] t[i])
}

pub open spec fn trace_never_reports(t: Seq<ActionModel>) -> bool {
    forall|i: int| 0 <= i < t.len() ==> !reports_error(#[trigger] t[i])
}

pub open spec fn trace_has_local_delete(t: Seq<ActionModel>) -> bool {
    exists|i: int| 0 <= i < t.len() && deletes_local(#[trigger] t[i])
}

/// Every push action in the trace carries exactly the deletion refspec for
/// the ref path `rn`: a `:` followed by `rn`.
pub open spec fn pushes_use_refspec_of(t: Seq<ActionModel>, rn: Seq<char>) -> bool {
    forall|i: int|
        0 <= i < t.len() ==> ((#[trigger] t[i]) matches ActionModel::PushDelete { refspec, .. }
            ==> refspec == seq![':'] + rn)
}

/// True when the engine's first step leads to the local-deletion prompt:
/// the branch materialized, is not checked out, has a textual short name,
/// and that name is not the default branch's short name.
pub open spec fn reaches_local_prompt(
    branch: Result<FactsModel, Seq<char>>,
    default_short: Option<Seq<char>>,
) -> bool {
    spec_begin(branch, default_short).0.state is AwaitingLocalAnswer
}

/// The full sequence of actions a compliant driver performs for one branch.
/// The driver begins the engine on the branch, carries out each emitted
/// action, and feeds the outcomes back in until the engine is done;
/// `local_answer`, `lookup`, `upstream_answer` and `push_outcome` are those
/// outcomes, consumed only as far as the run actually gets.
pub open spec fn branch_trace(
    branch: Result<FactsModel, Seq<char>>,
    default_short: Option<Seq<char>>,
    local_answer: bool,
    lookup: LookupModel,
    upstream_answer: bool,
    push_outcome: Result<(), Seq<char>>,
) -> Seq<ActionModel> {
    let (e1, a1) = spec_begin(branch, default_short);
    if e1.state is Done {
        seq![a1]
    } else {
        let (e2, a2) = spec_on_local_answer(e1, local_answer);
        if e2.state is Done {
            seq![a1, a2]
        } else {
            let (e3, a3) = spec_on_upstream_lookup(e2, lookup);
            if e3.state is Done {
                seq![a1, a2, a3]
            } else {
                let (e4, a4) = spec_on_upstream_answer(e3, upstream_answer);
                if e4.state is Done {
                    seq![a1, a2, a3, a4]
                } else {
                    let (e5, a5) = spec_on_push_result(e4, push_outcome);
                    seq![a1, a2, a3, a4, a5]
                }
            }
        }
    }
}

/// Law: the checked-out branch is never prompted for and never touched —
/// its whole trace is the one skip notice.
pub proof fn lemma_head_branch_untouched(
    branch: Result<FactsModel, Seq<char>>,
    default_short: Option<Seq<char>>,
    local_answer: bool,
    lookup: LookupModel,
    upstream_answer: bool,
    push_outcome: Result<(), Seq<char>>,
)
    requires
        branch matches Ok(f) && f.is_head,
    ensures
        branch_trace(branch, default_short, local_answer, lookup, upstream_answer, push_outcome)
            =~= seq![ActionModel::Skip { reason: SkipReason::Head }],
        trace_never_prompts(
            branch_trace(branch, default_short, local_answer, lookup, upstream_answer, push_outcome),
        ),
        trace_never_mutates(
            branch_trace(branch, default_short, local_answer, lookup, upstream_answer, push_outcome),
        ),
{
    let t = branch_trace(branch, default_short, local_answer, lookup, upstream_answer, push_outcome);
    assert(t =~= seq![ActionModel::Skip { reason: SkipReason::Head }]);
    assert forall|i: int| 0 <= i < t.len() implies !prompts(#[trigger] t[i]) && !mutates(t[i]) by {
        assert(t[i] == ActionModel::Skip { reason: SkipReason::Head });
    }
}

/// Law: a branch whose short name equals the default branch's short name —
/// the advertised full ref path with a leading `refs/heads/` stripped — is
/// never prompted for and never touched.
pub proof fn lemma_default_branch_untouched(
    branch: Result<FactsModel, Seq<char>>,
    default_path: Seq<char>,
    local_answer: bool,
    lookup: LookupModel,
    upstream_answer: bool,
    push_outcome: Result<(), Seq<char>>,
)
    requires
        branch matches Ok(f) && f.short_name matches Some(name) && name
            == crate::refname::strip_heads_prefix(default_path),
    ensures
        trace_never_prompts(
            branch_trace(
                branch,
                Some(crate::refname::strip_heads_prefix(default_path)),
                local_answer,
                lookup,
                upstream_answer,
                push_outcome,
            ),
        ),
        trace_never_mutates(
            branch_trace(
                branch,
                Some(crate::refname::strip_heads_prefix(default_path)),
                local_answer,
                lookup,
                upstream_answer,
                push_outcome,
            ),
        ),
{
    let d = Some(crate::refname::strip_heads_prefix(default_path));
    let t = branch_trace(branch, d, local_answer, lookup, upstream_answer, push_outcome);
    let f = branch->Ok_0;
    if f.is_head {
        assert(t =~= seq![ActionModel::Skip { reason: SkipReason::Head }]);
    } else {
        assert(t =~= seq![ActionModel::Skip { reason: SkipReason::DefaultBranch }]);
    }
    assert forall|i: int| 0 <= i < t.len() implies !prompts(#[trigger] t[i]) && !mutates(t[i]) by {
        assert(t[i] is Skip);
    }
}

/// Law: for a branch with no configured upstream, no push is ever
/// attempted and nothing is reported as an error on that account.
pub proof fn lemma_no_upstream_no_push_no_report(
    branch: Result<FactsModel, Seq<char>>,
    default_short: Option<Seq<char>>,
    local_answer: bool,
    lookup: LookupModel,
    upstream_answer: bool,
    push_outcome: Result<(), Seq<char>>,
)
    requires
        branch is Ok,
        lookup is NotFound || lookup is FoundUnnamed,
    ensures
        trace_never_pushes(
            branch_trace(branch, default_short, local_answer, lookup, upstream_answer, push_outcome),
        ),
        trace_never_reports(
            branch_trace(branch, default_short, local_answer, lookup, upstream_answer, push_outcome),
        ),
{
    let t = branch_trace(branch, default_short, local_answer, lookup, upstream_answer, push_outcome);
    assert forall|i: int| 0 <= i < t.len() implies !pushes(#[trigger] t[i]) && !reports_error(t[i]) by {
    }
}

/// Law: every push in a branch's trace carries exactly the deletion
/// refspec for that branch's full ref path — a `:` followed by the path —
/// and is addressed to the remote that the upstream lookup found.
pub proof fn lemma_push_uses_exact_refspec(
    branch: Result<FactsModel, Seq<char>>,
    default_short: Option<Seq<char>>,
    local_answer: bool,
    lookup: LookupModel,
    upstream_answer: bool,
    push_outcome: Result<(), Seq<char>>,
)
    requires
        branch matches Ok(f) && f.ref_name matches Some(rn),
    ensures
        pushes_use_refspec_of(
            branch_trace(branch, default_short, local_answer, lookup, upstream_answer, push_outcome),
            branch->Ok_0.ref_name->Some_0,
        ),
        forall|i: int|
            0 <= i
                < branch_trace(
                branch,
                default_short,
                local_answer,
                lookup,
                upstream_answer,
                push_outcome,
            ).len() ==> ((#[trigger] branch_trace(
                branch,
                default_short,
                local_answer,
                lookup,
                upstream_answer,
                push_outcome,
            )[i]) matches ActionModel::PushDelete { remote, .. } ==> (lookup matches
                LookupModel::Found { remote: found } && remote == found)),
{
    let t = branch_trace(branch, default_short, local_answer, lookup, upstream_answer, push_outcome);
    assert forall|i: int| 0 <= i < t.len() implies ((#[trigger] t[i]) matches
        ActionModel::PushDelete { remote, refspec } ==> ((refspec == seq![':']
        + branch->Ok_0.ref_name->Some_0) && (lookup matches LookupModel::Found { remote: found }
        && remote == found))) by {
    }
}

/// Law: declining the local-deletion prompt leaves the branch and its
/// upstream completely untouched.
pub proof fn lemma_declined_local_no_mutation(
    branch: Result<FactsModel, Seq<char>>,
    default_short: Option<Seq<char>>,
    lookup: LookupModel,
    upstream_answer: bool,
    push_outcome: Result<(), Seq<char>>,
)
    ensures
        trace_never_mutates(
            branch_trace(branch, default_short, false, lookup, upstream_answer, push_outcome),
        ),
{
    let t = branch_trace(branch, default_short, false, lookup, upstream_answer, push_outcome);
    assert forall|i: int| 0 <= i < t.len() implies !mutates(#[trigger] t[i]) by {
    }
}

/// Law: declining only the upstream-deletion prompt, after accepting the
/// local one, deletes the local branch and leaves the remote untouched.
pub proof fn lemma_declined_upstream_local_only(
    branch: Result<FactsModel, Seq<char>>,
    default_short: Option<Seq<char>>,
    lookup: LookupModel,
    push_outcome: Result<(), Seq<char>>,
)
    requires
        reaches_local_prompt(branch, default_short),
        lookup is Found,
    ensures
        trace_never_pushes(branch_trace(branch, default_short, true, lookup, false, push_outcome)),
        trace_has_local_delete(
            branch_trace(branch, default_short, true, lookup, false, push_outcome),
        ),
{
    let t = branch_trace(branch, default_short, true, lookup, false, push_outcome);
    let f = branch->Ok_0;
    match f.ref_name {
        Some(rn) => {
            assert(deletes_local(t[3]));
        },
        None => {
            assert(deletes_local(t[1]));
        },
    }
    assert forall|i: int| 0 <= i < t.len() implies !pushes(#[trigger] t[i]) by {
    }
}

/// Law: once the operator has accepted both deletions, the local branch is
/// deleted whatever the push outcome. In particular a credential-lookup
/// failure — which at worst makes the push itself fail — never prevents
/// the local deletion from being attempted.
pub proof fn lemma_push_outcome_never_blocks_local_delete(
    branch: Result<FactsModel, Seq<char>>,
    default_short: Option<Seq<char>>,
    lookup: LookupModel,
    push_outcome: Result<(), Seq<char>>,
)
    requires
        reaches_local_prompt(branch, default_short),
        lookup is Found,
    ensures
        trace_has_local_delete(
            branch_trace(branch, default_short, true, lookup, true, push_outcome),
        ),
{
    let t = branch_trace(branch, default_short, true, lookup, true, push_outcome);
    let f = branch->Ok_0;
    match f.ref_name {
        Some(rn) => {
            assert(deletes_local(t[4]));
        },
        None => {
            assert(deletes_local(t[1]));
        },
    }
}

} // verus!
