use vstd::prelude::*;

use crate::state::{create_step, execute_step, initial_config, settled_proposals, vote_step, cancel_step, GovernanceView};
use crate::tally::{finalize_outcome, finalized_status};
use crate::types::{Address, GovernanceConfig, GovernanceError, Proposal, ProposalStatus};

verus! {

// What each operation answers and leaves, stated directly over the
// proposal's numbers, the arguments and the stored state.

/// Counting a vote. A settled proposal keeps its status. An active one is
/// rejected when the supply recorded at its creation is not positive, is
/// rejected with `QuorumNotMet` when fewer votes were cast than
/// `snapshot_supply * quorum_bps / 10_000` (rounded down), passes when the
/// votes in favour are at least `pass_bps` basis points of the votes cast,
/// and is rejected otherwise. Only a missed quorum is reported as an error.
pub proof fn law_counting_decides_by_quorum_and_threshold(p: Proposal, c: GovernanceConfig)
    ensures
        p.status != ProposalStatus::Active ==> finalized_status(p, c) == p.status && finalize_outcome(p, c) is Ok,
        p.status == ProposalStatus::Active && p.snapshot_supply <= 0 ==> finalized_status(p, c)
            == ProposalStatus::Rejected && finalize_outcome(p, c) is Ok,
        p.status == ProposalStatus::Active && p.snapshot_supply > 0 && p.votes_for + p.votes_against < (
        p.snapshot_supply * c.quorum_bps) / 10_000 ==> finalized_status(p, c) == ProposalStatus::Rejected
            && finalize_outcome(p, c) == Err::<(), GovernanceError>(GovernanceError::QuorumNotMet),
        p.status == ProposalStatus::Active && p.snapshot_supply > 0 && p.votes_for + p.votes_against >= (
        p.snapshot_supply * c.quorum_bps) / 10_000 && p.votes_for * 10_000 >= (p.votes_for + p.votes_against)
            * c.pass_bps ==> finalized_status(p, c) == ProposalStatus::Passed && finalize_outcome(p, c) is Ok,
        p.status == ProposalStatus::Active && p.snapshot_supply > 0 && p.votes_for + p.votes_against >= (
        p.snapshot_supply * c.quorum_bps) / 10_000 && p.votes_for * 10_000 < (p.votes_for + p.votes_against)
            * c.pass_bps ==> finalized_status(p, c) == ProposalStatus::Rejected && finalize_outcome(p, c) is Ok,
{
}

/// Initialising stores the admin, the share token, the quorum, the pass
/// threshold and the minimum balance as given; a voting period or execution
/// delay is stored as given when it is not zero, and zero stands for seven
/// days and forty-eight hours respectively.
pub proof fn law_initialize_stores_its_arguments(
    admin: Address,
    share_token: Address,
    voting_period_secs: u64,
    quorum_bps: u32,
    pass_bps: u32,
    execution_delay_secs: u64,
    min_share_balance: i128,
)
    requires
        quorum_bps != 0,
        pass_bps != 0,
    ensures
        ({
            let c = initial_config(
                admin,
                share_token,
                voting_period_secs,
                quorum_bps,
                pass_bps,
                execution_delay_secs,
                min_share_balance,
            );
            &&& c.admin == admin
            &&& c.share_token == share_token
            &&& c.quorum_bps == quorum_bps
            &&& c.pass_bps == pass_bps
            &&& c.min_share_balance == min_share_balance
            &&& voting_period_secs != 0 ==> c.voting_period_secs == voting_period_secs
            &&& voting_period_secs == 0 ==> c.voting_period_secs == 7 * 86_400
            &&& execution_delay_secs != 0 ==> c.execution_delay_secs == execution_delay_secs
            &&& execution_delay_secs == 0 ==> c.execution_delay_secs == 48 * 3_600
        }),
{
}

/// Opening a proposal succeeds exactly when the contract is initialised and
/// the proposer holds at least the minimum balance. It then appends, under
/// the next id, an active proposal with no votes whose window closes the
/// configured period after `now` (at the largest time at most), whose delay
/// is the configured one and whose snapshot is the supply given.
pub proof fn law_create_outcome(
    s: GovernanceView,
    proposer: Address,
    description: String,
    target_contract: Address,
    function_name: String,
    calldata: String,
    now: u64,
    proposer_balance: i128,
    total_supply: i128,
)
    requires
        s.proposals.len() < u64::MAX,
    ensures
        ({
            let (r, t) = create_step(
                s,
                proposer,
                description,
                target_contract,
                function_name,
                calldata,
                now,
                proposer_balance,
                total_supply,
            );
            let c = s.config.unwrap();
            let q = t.proposals.last();
            &&& r is Ok <==> (s.config is Some && proposer_balance >= c.min_share_balance)
            &&& s.config is None ==> r == Err::<u64, GovernanceError>(GovernanceError::NotInitialized)
            &&& r is Ok ==> {
                &&& r == Ok::<u64, GovernanceError>(q.id)
                &&& t.config == s.config
                &&& t.votes == s.votes
                &&& t.proposals.len() == s.proposals.len() + 1
                &&& forall|k: int| 0 <= k < s.proposals.len() ==> #[trigger] t.proposals[k] == s.proposals[k]
                &&& q.id == s.proposals.len() + 1
                &&& q.proposer == proposer
                &&& q.description == description
                &&& q.target_contract == target_contract
                &&& q.function_name == function_name
                &&& q.calldata == calldata
                &&& q.votes_for == 0 && q.votes_against == 0
                &&& q.status == ProposalStatus::Active
                &&& q.created_at == now
                &&& (now + c.voting_period_secs <= u64::MAX ==> q.voting_ends_at == now + c.voting_period_secs)
                &&& (now + c.voting_period_secs > u64::MAX ==> q.voting_ends_at == u64::MAX)
                &&& q.execution_delay == c.execution_delay_secs
                &&& q.snapshot_supply == total_supply
            }
        }),
{
}

/// A ballot is accepted exactly when the contract is initialised, the
/// proposal exists and is active, the voter has no ballot on it yet, its
/// window has not closed and the weight is positive; anyone may vote,
/// the proposer included. An accepted ballot adds its weight to the chosen
/// side of that proposal only, and is recorded.
pub proof fn law_vote_outcome(s: GovernanceView, id: u64, voter: Address, in_favor: bool, now: u64, weight: i128)
    ensures
        ({
            let (r, t) = vote_step(s, id, voter, in_favor, now, weight);
            let p = s.proposals[id - 1];
            let q = t.proposals[id - 1];
            &&& r is Ok <==> {
                &&& s.config is Some
                &&& 1 <= id <= s.proposals.len()
                &&& p.status == ProposalStatus::Active
                &&& !(exists|i: int| #![trigger s.votes[i]] 0 <= i < s.votes.len() && s.votes[i].0 == id && s.votes[i].1@ == voter@)
                &&& now <= p.voting_ends_at
                &&& weight > 0
            }
            &&& r is Err ==> t == s
            &&& r is Ok ==> {
                &&& t.config == s.config
                &&& t.votes == s.votes.push((id, voter))
                &&& t.proposals.len() == s.proposals.len()
                &&& forall|k: int| 0 <= k < s.proposals.len() && k != id - 1 ==> #[trigger] t.proposals[k] == s.proposals[k]
                &&& q == p.with_tally(q.votes_for, q.votes_against)
                &&& (in_favor && p.votes_for + weight <= i128::MAX) ==> q.votes_for == p.votes_for + weight
                    && q.votes_against == p.votes_against
                &&& (!in_favor && p.votes_against + weight <= i128::MAX) ==> q.votes_against == p.votes_against + weight
                    && q.votes_for == p.votes_for
            }
        }),
{
    let (r, t) = vote_step(s, id, voter, in_favor, now, weight);
    if r is Ok {
        assert forall|k: int| 0 <= k < s.proposals.len() && k != id - 1 implies #[trigger] t.proposals[k] == s.proposals[k] by {}
    }
}

/// Executing succeeds exactly when the contract is initialised, the proposal
/// exists, is neither cancelled nor executed, its window has closed, the
/// configured delay after it has passed (saturating at the largest time), and
/// it has passed: it is marked passed already, or it is active with a
/// positive snapshot and its votes meet `snapshot_supply * quorum_bps / 10_000`
/// and the pass threshold. Then that proposal alone becomes executed. An
/// active proposal with a positive snapshot that misses quorum is refused
/// with `QuorumNotMet`.
pub proof fn law_execute_outcome(s: GovernanceView, id: u64, now: u64)
    ensures
        ({
            let (r, t) = execute_step(s, id, now);
            let p = s.proposals[id - 1];
            let c = s.config.unwrap();
            let total = p.votes_for + p.votes_against;
            let quorum = (p.snapshot_supply * c.quorum_bps) / 10_000;
            let window_and_delay_passed = now >= p.voting_ends_at && (now >= p.voting_ends_at
                + c.execution_delay_secs || now == u64::MAX);
            &&& r is Ok <==> {
                &&& s.config is Some
                &&& 1 <= id <= s.proposals.len()
                &&& window_and_delay_passed
                &&& (p.status == ProposalStatus::Passed || (p.status == ProposalStatus::Active && p.snapshot_supply > 0
                    && total >= quorum && p.votes_for * 10_000 >= total * c.pass_bps))
            }
            &&& (s.config is Some && 1 <= id <= s.proposals.len() && window_and_delay_passed && p.status
                == ProposalStatus::Active && p.snapshot_supply > 0 && total < quorum) ==> r
                == Err::<(), GovernanceError>(GovernanceError::QuorumNotMet)
            &&& r is Err ==> t == s
            &&& r is Ok ==> {
                &&& t.config == s.config
                &&& t.votes == s.votes
                &&& t.proposals == s.proposals.update(id - 1, p.with_status(ProposalStatus::Executed))
            }
        }),
{
}

/// Cancelling succeeds exactly when the contract is initialised, the
/// proposal exists, the caller is its proposer or the admin, and it is not
/// executed. Then that proposal alone becomes cancelled; every other
/// proposal, the ballots and the configuration stay as they were.
pub proof fn law_cancel_outcome(s: GovernanceView, id: u64, caller: Address)
    ensures
        ({
            let (r, t) = cancel_step(s, id, caller);
            let p = s.proposals[id - 1];
            &&& r is Ok <==> {
                &&& s.config is Some
                &&& 1 <= id <= s.proposals.len()
                &&& (caller@ == p.proposer@ || caller@ == s.config.unwrap().admin@)
                &&& p.status != ProposalStatus::Executed
            }
            &&& r is Err ==> t == s
            &&& r is Ok ==> {
                &&& t.config == s.config
                &&& t.votes == s.votes
                &&& t.proposals.len() == s.proposals.len()
                &&& t.proposals[id - 1] == p.with_status(ProposalStatus::Cancelled)
                &&& forall|k: int| 0 <= k < s.proposals.len() && k != id - 1 ==> #[trigger] t.proposals[k] == s.proposals[k]
            }
        }),
{
}

/// Listing keeps every proposal in place but an active one whose window has
/// closed: that one passes when its snapshot is positive and its votes meet
/// quorum and the pass threshold, and is rejected otherwise.
pub proof fn law_listing_outcome(s: GovernanceView, now: u64, k: int)
    requires
        s.config is Some,
        0 <= k < s.proposals.len(),
    ensures
        ({
            let p = s.proposals[k];
            let c = s.config.unwrap();
            let q = settled_proposals(s, now)[k];
            let total = p.votes_for + p.votes_against;
            let passes = p.snapshot_supply > 0 && total >= (p.snapshot_supply * c.quorum_bps) / 10_000
                && p.votes_for * 10_000 >= total * c.pass_bps;
            &&& settled_proposals(s, now).len() == s.proposals.len()
            &&& !(p.status == ProposalStatus::Active && now > p.voting_ends_at) ==> q == p
            &&& (p.status == ProposalStatus::Active && now > p.voting_ends_at && passes) ==> q == p.with_status(
                ProposalStatus::Passed,
            )
            &&& (p.status == ProposalStatus::Active && now > p.voting_ends_at && !passes) ==> q == p.with_status(
                ProposalStatus::Rejected,
            )
        }),
{
}

/// Looking a proposal up by id finds exactly the stored proposal that
/// carries that id, and finds nothing when no stored proposal carries it.
pub proof fn law_lookup_finds_the_proposal_with_that_id(s: GovernanceView, id: u64)
    requires
        s.wf(),
    ensures
        s.proposal(id) matches Some(p) ==> p.id == id && s.proposals.contains(p),
        (exists|k: int| 0 <= k < s.proposals.len() && #[trigger] s.proposals[k].id == id) ==> s.proposal(id) is Some,
{
    if s.proposal(id) is Some {
        assert(s.proposals[id - 1].id == id);
        assert(s.proposals.contains(s.proposals[id - 1]));
    }
}

} // verus!
