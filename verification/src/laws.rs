use vstd::prelude::*;

use crate::state::{
    can_initialize, cancel_error, cancel_step, counted_ballot, create_error, create_step, execute_in_range,
    execute_step, initial_config, lemma_cancel_wf, lemma_create_wf, lemma_execute_wf,
    lemma_initialize_wf, lemma_list_wf, lemma_vote_wf, list_in_range, opened_proposal, settled,
    settled_proposals, vote_error, vote_in_range, vote_step, GovernanceView,
};
use crate::tally::{finalized_status, meets_quorum, meets_threshold};
use crate::types::{Address, GovernanceError, Proposal, ProposalStatus};

verus! {

/// A request to the contract, with what it learns from outside (ledger time,
/// balances, share supply) already filled in.
pub enum Request {
    Initialize {
        admin: Address,
        share_token: Address,
        voting_period_secs: u64,
        quorum_bps: u32,
        pass_bps: u32,
        execution_delay_secs: u64,
        min_share_balance: i128,
    },
    CreateProposal {
        proposer: Address,
        description: String,
        target_contract: Address,
        function_name: String,
        calldata: String,
        now: u64,
        proposer_balance: i128,
        total_supply: i128,
    },
    Vote { proposal_id: u64, voter: Address, in_favor: bool, now: u64, weight: i128 },
    ExecuteProposal { proposal_id: u64, now: u64 },
    CancelProposal { proposal_id: u64, caller: Address },
    ListProposals { now: u64 },
}

/// The state a request leaves. A request the contract cannot serve (it
/// would abort, as `initialize` on an initialised contract does) changes
/// nothing.
pub open spec fn apply(s: GovernanceView, r: Request) -> GovernanceView {
    match r {
        Request::Initialize {
            admin,
            share_token,
            voting_period_secs,
            quorum_bps,
            pass_bps,
            execution_delay_secs,
            min_share_balance,
        } => if can_initialize(s, quorum_bps, pass_bps) {
            GovernanceView {
                config: Some(
                    initial_config(
                        admin,
                        share_token,
                        voting_period_secs,
                        quorum_bps,
                        pass_bps,
                        execution_delay_secs,
                        min_share_balance,
                    ),
                ),
                ..s
            }
        } else {
            s
        },
        Request::CreateProposal {
            proposer,
            description,
            target_contract,
            function_name,
            calldata,
            now,
            proposer_balance,
            total_supply,
        } => if s.proposals.len() < u64::MAX {
            create_step(
                s,
                proposer,
                description,
                target_contract,
                function_name,
                calldata,
                now,
                proposer_balance,
                total_supply,
            ).1
        } else {
            s
        },
        Request::Vote { proposal_id, voter, in_favor, now, weight } => if vote_in_range(
            s,
            proposal_id,
            voter,
            in_favor,
            now,
            weight,
        ) {
            vote_step(s, proposal_id, voter, in_favor, now, weight).1
        } else {
            s
        },
        Request::ExecuteProposal { proposal_id, now } => if execute_in_range(s, proposal_id, now) {
            execute_step(s, proposal_id, now).1
        } else {
            s
        },
        Request::CancelProposal { proposal_id, caller } => cancel_step(s, proposal_id, caller).1,
        Request::ListProposals { now } => if list_in_range(s, now) {
            GovernanceView { proposals: settled_proposals(s, now), ..s }
        } else {
            s
        },
    }
}

/// The request is refused: it is answered with an error, or it aborts.
pub open spec fn refused(s: GovernanceView, r: Request) -> bool {
    match r {
        Request::Initialize { quorum_bps, pass_bps, .. } => !can_initialize(s, quorum_bps, pass_bps),
        Request::CreateProposal {
            proposer,
            description,
            target_contract,
            function_name,
            calldata,
            now,
            proposer_balance,
            total_supply,
        } => !(s.proposals.len() < u64::MAX) || create_step(
            s,
            proposer,
            description,
            target_contract,
            function_name,
            calldata,
            now,
            proposer_balance,
            total_supply,
        ).0 is Err,
        Request::Vote { proposal_id, voter, in_favor, now, weight } => !vote_in_range(
            s,
            proposal_id,
            voter,
            in_favor,
            now,
            weight,
        ) || vote_step(s, proposal_id, voter, in_favor, now, weight).0 is Err,
        Request::ExecuteProposal { proposal_id, now } => !execute_in_range(s, proposal_id, now) || execute_step(
            s,
            proposal_id,
            now,
        ).0 is Err,
        Request::CancelProposal { proposal_id, caller } => cancel_step(s, proposal_id, caller).0 is Err,
        Request::ListProposals { now } => !list_in_range(s, now),
    }
}

/// Everything about a proposal but its tally and status is the same in `a`
/// as in `b`.
pub open spec fn same_terms(a: Proposal, b: Proposal) -> bool {
    a == b.with_tally(a.votes_for, a.votes_against).with_status(a.status)
}

/// The status moves from `a` to `b` along the proposal life cycle: an active
/// proposal is counted as passed or rejected, an active or passed one is
/// executed, and anything not executed may be cancelled.
pub open spec fn status_step(a: ProposalStatus, b: ProposalStatus) -> bool {
    ||| a == b
    ||| a == ProposalStatus::Active && (b == ProposalStatus::Passed || b == ProposalStatus::Rejected)
    ||| (a == ProposalStatus::Active || a == ProposalStatus::Passed) && b == ProposalStatus::Executed
    ||| a != ProposalStatus::Executed && b == ProposalStatus::Cancelled
}

/// A refused request, whether answered with an error or aborted, leaves the
/// state exactly as it was.
pub proof fn law_refused_request_changes_nothing(s: GovernanceView, r: Request)
    requires
        refused(s, r),
    ensures
        apply(s, r) == s,
{
}

/// Every request keeps the state well formed: ids stay consecutive, tallies
/// non-negative, and no voter holds two ballots on one proposal.
pub proof fn law_requests_keep_state_well_formed(s: GovernanceView, r: Request)
    requires
        s.wf(),
    ensures
        apply(s, r).wf(),
{
    match r {
        Request::Initialize {
            admin,
            share_token,
            voting_period_secs,
            quorum_bps,
            pass_bps,
            execution_delay_secs,
            min_share_balance,
        } => if can_initialize(s, quorum_bps, pass_bps) {
            lemma_initialize_wf(
                s,
                admin,
                share_token,
                voting_period_secs,
                quorum_bps,
                pass_bps,
                execution_delay_secs,
                min_share_balance,
            );
        },
        Request::CreateProposal {
            proposer,
            description,
            target_contract,
            function_name,
            calldata,
            now,
            proposer_balance,
            total_supply,
        } => if s.proposals.len() < u64::MAX {
            lemma_create_wf(
                s,
                proposer,
                description,
                target_contract,
                function_name,
                calldata,
                now,
                proposer_balance,
                total_supply,
            );
        },
        Request::Vote { proposal_id, voter, in_favor, now, weight } => if vote_in_range(
            s,
            proposal_id,
            voter,
            in_favor,
            now,
            weight,
        ) {
            lemma_vote_wf(s, proposal_id, voter, in_favor, now, weight);
        },
        Request::ExecuteProposal { proposal_id, now } => {
            lemma_execute_wf(s, proposal_id, now);
        },
        Request::CancelProposal { proposal_id, caller } => {
            lemma_cancel_wf(s, proposal_id, caller);
        },
        Request::ListProposals { now } => {
            lemma_list_wf(s, now);
        },
    }
}

/// How a request can leave proposal `k` (index `k`, id `k + 1`): untouched,
/// with a ballot counted while it is active and open, executed after its vote
/// passed, cancelled while not executed, or counted by listing once its
/// voting window has closed.
pub open spec fn proposal_effect(s: GovernanceView, r: Request, k: int) -> bool {
    let old = s.proposals[k];
    let new = apply(s, r).proposals[k];
    let c = s.config.unwrap();
    ||| new == old
    ||| r matches Request::Vote { proposal_id, in_favor, now, weight, .. } && proposal_id == k + 1
        && old.status == ProposalStatus::Active && now <= old.voting_ends_at && weight > 0
        && new == counted_ballot(old, in_favor, weight)
    ||| r matches Request::ExecuteProposal { proposal_id, now } && proposal_id == k + 1
        && old.status != ProposalStatus::Cancelled && old.status != ProposalStatus::Executed
        && finalized_status(old, c) == ProposalStatus::Passed && new == old.with_status(ProposalStatus::Executed)
    ||| r is CancelProposal && old.status != ProposalStatus::Executed && new == old.with_status(
        ProposalStatus::Cancelled,
    )
    ||| r matches Request::ListProposals { now } && old.status == ProposalStatus::Active && now > old.voting_ends_at
        && new == old.with_status(finalized_status(old, c))
}

proof fn lemma_proposal_effect(s: GovernanceView, r: Request, k: int)
    requires
        s.wf(),
        0 <= k < s.proposals.len(),
    ensures
        apply(s, r).proposals.len() >= s.proposals.len(),
        proposal_effect(s, r, k),
{
    let t = apply(s, r);
    match r {
        Request::Initialize { .. } => {},
        Request::CreateProposal {
            proposer,
            description,
            target_contract,
            function_name,
            calldata,
            now,
            proposer_balance,
            total_supply,
        } => {
            if s.proposals.len() < u64::MAX && create_error(s, proposer_balance) is None {
                assert(t.proposals == s.proposals.push(
                    opened_proposal(s, proposer, description, target_contract, function_name, calldata, now, total_supply),
                ));
                assert(t.proposals[k] == s.proposals[k]);
            }
        },
        Request::Vote { proposal_id, voter, in_favor, now, weight } => {
            if vote_in_range(s, proposal_id, voter, in_favor, now, weight) && vote_error(
                s,
                proposal_id,
                voter,
                now,
                weight,
            ) is None {
                if k != proposal_id - 1 {
                    assert(t.proposals[k] == s.proposals[k]);
                }
            }
        },
        Request::ExecuteProposal { proposal_id, now } => {
            if execute_in_range(s, proposal_id, now) && execute_step(s, proposal_id, now).0 is Ok {
                if k != proposal_id - 1 {
                    assert(t.proposals[k] == s.proposals[k]);
                }
            }
        },
        Request::CancelProposal { proposal_id, caller } => {
            if cancel_error(s, proposal_id, caller) is None {
                if k != proposal_id - 1 {
                    assert(t.proposals[k] == s.proposals[k]);
                }
            }
        },
        Request::ListProposals { now } => {
            if list_in_range(s, now) {
                assert(t.proposals[k] == settled(s.proposals[k], s.config.unwrap(), now));
            }
        },
    }
}

/// A proposal's terms (id, proposer, description, target, call, creation
/// time, voting window, delay and the share supply recorded at creation)
/// never change, and proposals are never removed: only the tally and the
/// status of a proposal move.
pub proof fn law_proposal_terms_are_fixed(s: GovernanceView, r: Request, k: int)
    requires
        s.wf(),
        0 <= k < s.proposals.len(),
    ensures
        apply(s, r).proposals.len() >= s.proposals.len(),
        same_terms(apply(s, r).proposals[k], s.proposals[k]),
{
    lemma_proposal_effect(s, r, k);
}

/// A proposal's status only moves along its life cycle.
pub proof fn law_status_follows_life_cycle(s: GovernanceView, r: Request, k: int)
    requires
        s.wf(),
        0 <= k < s.proposals.len(),
    ensures
        status_step(s.proposals[k].status, apply(s, r).proposals[k].status),
{
    lemma_proposal_effect(s, r, k);
}

/// An executed proposal stays executed whatever is requested.
pub proof fn law_executed_is_final(s: GovernanceView, r: Request, k: int)
    requires
        s.wf(),
        0 <= k < s.proposals.len(),
        s.proposals[k].status == ProposalStatus::Executed,
    ensures
        apply(s, r).proposals[k].status == ProposalStatus::Executed,
{
    lemma_proposal_effect(s, r, k);
}

/// An active proposal passes, or is executed, only when the share supply
/// recorded at its creation is positive and its votes meet quorum and the
/// pass threshold measured against that supply.
pub proof fn law_passing_is_earned(s: GovernanceView, r: Request, k: int)
    requires
        s.wf(),
        0 <= k < s.proposals.len(),
        s.proposals[k].status == ProposalStatus::Active,
        apply(s, r).proposals[k].status == ProposalStatus::Passed || apply(s, r).proposals[k].status
            == ProposalStatus::Executed,
    ensures
        s.proposals[k].snapshot_supply > 0,
        meets_quorum(s.proposals[k], s.config.unwrap()),
        meets_threshold(s.proposals[k], s.config.unwrap()),
{
    lemma_proposal_effect(s, r, k);
}

/// Tallies only grow, and only by a ballot of positive weight on an active
/// proposal whose voting window is still open.
pub proof fn law_tallies_grow_only_by_ballots(s: GovernanceView, r: Request, k: int)
    requires
        s.wf(),
        0 <= k < s.proposals.len(),
    ensures
        apply(s, r).proposals[k].votes_for >= s.proposals[k].votes_for,
        apply(s, r).proposals[k].votes_against >= s.proposals[k].votes_against,
        (apply(s, r).proposals[k].votes_for != s.proposals[k].votes_for || apply(s, r).proposals[k].votes_against
            != s.proposals[k].votes_against) ==> (r matches Request::Vote { proposal_id, now, weight, .. }
            && proposal_id == k + 1 && s.proposals[k].status == ProposalStatus::Active && now
            <= s.proposals[k].voting_ends_at && weight > 0),
{
    lemma_proposal_effect(s, r, k);
}

/// Once a voter's ballot on a proposal is counted, a second ballot by the
/// same voter on that proposal is refused as `AlreadyVoted`, whatever it says
/// and whenever it comes.
pub proof fn law_second_ballot_refused(
    s: GovernanceView,
    proposal_id: u64,
    voter: Address,
    in_favor: bool,
    now: u64,
    weight: i128,
    again: Address,
    in_favor_again: bool,
    now_again: u64,
    weight_again: i128,
)
    requires
        s.wf(),
        vote_step(s, proposal_id, voter, in_favor, now, weight).0 is Ok,
        again@ == voter@,
    ensures
        vote_step(vote_step(s, proposal_id, voter, in_favor, now, weight).1, proposal_id, again, in_favor_again, now_again, weight_again).0
            == Err::<(), GovernanceError>(GovernanceError::AlreadyVoted),
{
    let t = vote_step(s, proposal_id, voter, in_favor, now, weight).1;
    assert(t.votes[t.votes.len() - 1] == (proposal_id, voter));
    assert(t.has_voted(proposal_id, again@));
}

/// A ballot cast after a proposal's voting window has closed is refused.
pub proof fn law_late_ballot_refused(
    s: GovernanceView,
    proposal_id: u64,
    voter: Address,
    in_favor: bool,
    now: u64,
    weight: i128,
)
    requires
        s.proposal(proposal_id) is Some,
        now > s.proposal(proposal_id).unwrap().voting_ends_at,
    ensures
        vote_step(s, proposal_id, voter, in_favor, now, weight).0 is Err,
        vote_step(s, proposal_id, voter, in_favor, now, weight).1 == s,
{
}

/// Only the proposer or the admin can cancel a proposal, and either of them
/// can cancel any proposal that has not been executed.
pub proof fn law_cancel_rights(s: GovernanceView, proposal_id: u64, caller: Address)
    requires
        s.config is Some,
        s.proposal(proposal_id) is Some,
    ensures
        cancel_step(s, proposal_id, caller).0 is Ok <==> {
            &&& caller@ == s.proposal(proposal_id).unwrap().proposer@ || caller@ == s.config.unwrap().admin@
            &&& s.proposal(proposal_id).unwrap().status != ProposalStatus::Executed
        },
        cancel_step(s, proposal_id, caller).0 is Ok ==> cancel_step(s, proposal_id, caller).1.proposal(
            proposal_id,
        ).unwrap().status == ProposalStatus::Cancelled,
{
}

/// Executing a proposal succeeds only after its voting window and the
/// configured delay after it have passed, and only when its counted vote
/// passes; the proposal is then marked executed.
pub proof fn law_execution_needs_passed_vote_and_timelock(s: GovernanceView, proposal_id: u64, now: u64)
    requires
        execute_step(s, proposal_id, now).0 is Ok,
    ensures
        s.proposal(proposal_id) is Some,
        now >= s.proposal(proposal_id).unwrap().voting_ends_at.saturating_add(
            s.config.unwrap().execution_delay_secs,
        ),
        finalized_status(s.proposal(proposal_id).unwrap(), s.config.unwrap()) == ProposalStatus::Passed,
        execute_step(s, proposal_id, now).1.proposal(proposal_id) == Some(
            s.proposal(proposal_id).unwrap().with_status(ProposalStatus::Executed),
        ),
{
}

/// A proposal records the share supply at its creation as its snapshot, gets
/// the next id, starts active with no votes, and is what a later lookup of
/// that id gives back; the other proposals are untouched.
pub proof fn law_snapshot_taken_at_creation(
    s: GovernanceView,
    proposer: Address,
    description: String,
    target_contract: Address,
    function_name: String,
    calldata: String,
    now: u64,
    proposer_balance: i128,
    total_supply: i128,
)
    requires
        s.proposals.len() < u64::MAX,
        create_step(
            s,
            proposer,
            description,
            target_contract,
            function_name,
            calldata,
            now,
            proposer_balance,
            total_supply,
        ).0 is Ok,
    ensures
        ({
            let (r, t) = create_step(
                s,
                proposer,
                description,
                target_contract,
                function_name,
                calldata,
                now,
                proposer_balance,
                total_supply,
            );
            let p = t.proposals.last();
            &&& r == Ok::<u64, GovernanceError>(p.id)
            &&& p.id == s.proposals.len() + 1
            &&& t.proposals.len() == s.proposals.len() + 1
            &&& p.snapshot_supply == total_supply
            &&& p.status == ProposalStatus::Active
            &&& p.votes_for == 0 && p.votes_against == 0
            &&& t.proposal(p.id) == Some(p)
            &&& forall|i: int| 0 <= i < s.proposals.len() ==> #[trigger] t.proposals[i] == s.proposals[i]
        }),
{
}

/// After listing, no proposal is left active with its voting window closed.
pub proof fn law_listing_settles_closed_votes(s: GovernanceView, now: u64, k: int)
    requires
        s.config is Some,
        0 <= k < s.proposals.len(),
    ensures
        !(settled_proposals(s, now)[k].status == ProposalStatus::Active && now
            > settled_proposals(s, now)[k].voting_ends_at),
{
}

} // verus!
