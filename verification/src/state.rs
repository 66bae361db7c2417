use vstd::prelude::*;

use crate::tally::{finalized_status, finalize_outcome, tally_in_range, in_i128};
use crate::types::{Address, GovernanceConfig, GovernanceError, Proposal, ProposalStatus};

verus! {

/// Voting period used when the contract is initialised with a period of zero.
pub const DEFAULT_VOTING_PERIOD_SECS: u64 = 7 * 86_400;

/// Execution delay used when the contract is initialised with a delay of zero.
pub const DEFAULT_EXECUTION_DELAY_SECS: u64 = 48 * 3_600;

/// Quorum used when the contract is initialised with a quorum of zero.
pub const DEFAULT_QUORUM_BPS: u32 = 1_000;

/// Pass threshold used when the contract is initialised with a threshold of zero.
pub const DEFAULT_PASS_BPS: u32 = 6_000;

/// The contract's stored state as plain values: the configuration (absent
/// until the contract is initialised), the proposals in order of creation
/// (proposal `i + 1` at index `i`), and a record of each ballot cast, as the
/// proposal id and the voter.
pub struct GovernanceView {
    pub config: Option<GovernanceConfig>,
    pub proposals: Seq<Proposal>,
    pub votes: Seq<(u64, Address)>,
}

/// Quorum and pass threshold that `initialize` accepts.
pub open spec fn valid_thresholds(quorum_bps: u32, pass_bps: u32) -> bool {
    &&& 0 < quorum_bps <= 10_000
    &&& 5_000 < pass_bps <= 10_000
}

impl GovernanceView {
    /// The proposal with the given id, if there is one.
    pub open spec fn proposal(self, id: u64) -> Option<Proposal> {
        if 1 <= id <= self.proposals.len() {
            Some(self.proposals[id - 1])
        } else {
            None
        }
    }

    /// A ballot by `voter` on proposal `id` has been recorded.
    pub open spec fn has_voted(self, id: u64, voter: Seq<char>) -> bool {
        exists|i: int| #![trigger self.votes[i]] 0 <= i < self.votes.len() && self.votes[i].0 == id && self.votes[i].1@ == voter
    }

    /// The state is one that the contract's operations can reach: a
    /// configuration with valid thresholds exists before any proposal, ids run
    /// from one without gaps, tallies are never negative, each ballot refers to
    /// an existing proposal, and no voter has two ballots on one proposal.
    pub open spec fn wf(self) -> bool {
        &&& (self.config is None ==> self.proposals.len() == 0 && self.votes.len() == 0)
        &&& (self.config matches Some(c) ==> valid_thresholds(c.quorum_bps, c.pass_bps))
        &&& forall|i: int| 0 <= i < self.proposals.len() ==> #[trigger] self.proposals[i].id == i + 1
        &&& forall|i: int|
            0 <= i < self.proposals.len() ==> #[trigger] self.proposals[i].votes_for >= 0
                && self.proposals[i].votes_against >= 0
        &&& forall|i: int| 0 <= i < self.votes.len() ==> 1 <= #[trigger] self.votes[i].0 <= self.proposals.len()
        &&& forall|i: int, j: int|
            0 <= i < j < self.votes.len() ==> !(#[trigger] self.votes[i].0 == #[trigger] self.votes[j].0
                && self.votes[i].1@ == self.votes[j].1@)
    }

    /// The same state with proposal `id` replaced.
    pub open spec fn with_proposal(self, id: u64, p: Proposal) -> GovernanceView {
        GovernanceView { proposals: self.proposals.update(id - 1, p), ..self }
    }
}

/// Replacing a proposal by one with the same id and non-negative tallies
/// keeps a state well formed.
pub proof fn lemma_wf_with_proposal(s: GovernanceView, id: u64, p: Proposal)
    requires
        s.wf(),
        s.proposal(id) is Some,
        p.id == id,
        p.votes_for >= 0,
        p.votes_against >= 0,
    ensures
        s.with_proposal(id, p).wf(),
{
    let t = s.with_proposal(id, p);
    assert forall|i: int| 0 <= i < t.proposals.len() implies #[trigger] t.proposals[i].id == i + 1 by {
        if i != id - 1 {
            assert(t.proposals[i] == s.proposals[i]);
        }
    }
    assert forall|i: int| 0 <= i < t.proposals.len() implies #[trigger] t.proposals[i].votes_for >= 0
        && t.proposals[i].votes_against >= 0 by {
        if i != id - 1 {
            assert(t.proposals[i] == s.proposals[i]);
        }
    }
}

// ---------------------------------------------------------------------------
// initialize

/// `initialize` is accepted: the contract is not yet initialised and the
/// thresholds are valid.
pub open spec fn can_initialize(s: GovernanceView, quorum_bps: u32, pass_bps: u32) -> bool {
    s.config is None && valid_thresholds(quorum_bps, pass_bps)
}

/// The configuration `initialize` stores: a zero period, delay, quorum or
/// threshold stands for its default.
pub open spec fn initial_config(
    admin: Address,
    share_token: Address,
    voting_period_secs: u64,
    quorum_bps: u32,
    pass_bps: u32,
    execution_delay_secs: u64,
    min_share_balance: i128,
) -> GovernanceConfig {
    GovernanceConfig {
        admin,
        share_token,
        voting_period_secs: if voting_period_secs == 0 { DEFAULT_VOTING_PERIOD_SECS } else { voting_period_secs },
        quorum_bps: if quorum_bps == 0 { DEFAULT_QUORUM_BPS } else { quorum_bps },
        pass_bps: if pass_bps == 0 { DEFAULT_PASS_BPS } else { pass_bps },
        execution_delay_secs: if execution_delay_secs == 0 { DEFAULT_EXECUTION_DELAY_SECS } else { execution_delay_secs },
        min_share_balance,
    }
}

// ---------------------------------------------------------------------------
// create_proposal

/// Why `create_proposal` is refused, if it is.
pub open spec fn create_error(s: GovernanceView, proposer_balance: i128) -> Option<GovernanceError> {
    match s.config {
        None => Some(GovernanceError::NotInitialized),
        Some(c) => if proposer_balance < c.min_share_balance {
            Some(GovernanceError::InsufficientShareBalance)
        } else {
            None
        },
    }
}

/// The proposal `create_proposal` opens: the next id, no votes, active, a
/// voting window of the configured length (saturating at the largest time)
/// and the share supply at creation as its snapshot.
pub open spec fn opened_proposal(
    s: GovernanceView,
    proposer: Address,
    description: String,
    target_contract: Address,
    function_name: String,
    calldata: String,
    now: u64,
    total_supply: i128,
) -> Proposal {
    let c = s.config.unwrap();
    Proposal {
        id: (s.proposals.len() + 1) as u64,
        proposer,
        description,
        target_contract,
        function_name,
        calldata,
        votes_for: 0,
        votes_against: 0,
        status: ProposalStatus::Active,
        created_at: now,
        voting_ends_at: now.saturating_add(c.voting_period_secs),
        execution_delay: c.execution_delay_secs,
        snapshot_supply: total_supply,
    }
}

/// What `create_proposal` answers and the state it leaves: on success the id
/// of the new proposal, which is appended to the proposals.
pub open spec fn create_step(
    s: GovernanceView,
    proposer: Address,
    description: String,
    target_contract: Address,
    function_name: String,
    calldata: String,
    now: u64,
    proposer_balance: i128,
    total_supply: i128,
) -> (Result<u64, GovernanceError>, GovernanceView) {
    match create_error(s, proposer_balance) {
        Some(e) => (Err(e), s),
        None => (
            Ok((s.proposals.len() + 1) as u64),
            GovernanceView {
                proposals: s.proposals.push(
                    opened_proposal(s, proposer, description, target_contract, function_name, calldata, now, total_supply),
                ),
                ..s
            },
        ),
    }
}

// ---------------------------------------------------------------------------
// vote

/// Why a ballot is refused before the clock and the voter's weight are
/// looked at, if it is.
pub open spec fn ballot_error(s: GovernanceView, id: u64, voter: Address) -> Option<GovernanceError> {
    if s.config is None {
        Some(GovernanceError::NotInitialized)
    } else if s.proposal(id) is None {
        Some(GovernanceError::ProposalNotFound)
    } else if s.proposal(id).unwrap().status != ProposalStatus::Active {
        Some(GovernanceError::ProposalInactive)
    } else if s.has_voted(id, voter@) {
        Some(GovernanceError::AlreadyVoted)
    } else {
        None
    }
}

/// Why `vote` is refused, if it is.
pub open spec fn vote_error(s: GovernanceView, id: u64, voter: Address, now: u64, weight: i128) -> Option<GovernanceError> {
    if ballot_error(s, id, voter) is Some {
        ballot_error(s, id, voter)
    } else if now > s.proposal(id).unwrap().voting_ends_at {
        Some(GovernanceError::VotingPeriodActive)
    } else if weight <= 0 {
        Some(GovernanceError::InsufficientShareBalance)
    } else {
        None
    }
}

/// The proposal once a ballot of `weight` for or against it is added.
pub open spec fn counted_ballot(p: Proposal, in_favor: bool, weight: i128) -> Proposal {
    if in_favor {
        p.with_tally((p.votes_for + weight) as i128, p.votes_against)
    } else {
        p.with_tally(p.votes_for, (p.votes_against + weight) as i128)
    }
}

/// `vote` is accepted: the tally it adds to stays within an `i128`.
pub open spec fn vote_in_range(s: GovernanceView, id: u64, voter: Address, in_favor: bool, now: u64, weight: i128) -> bool {
    vote_error(s, id, voter, now, weight) is None ==> {
        let p = s.proposal(id).unwrap();
        in_i128(if in_favor { p.votes_for + weight } else { p.votes_against + weight })
    }
}

/// What `vote` answers and the state it leaves.
pub open spec fn vote_step(
    s: GovernanceView,
    id: u64,
    voter: Address,
    in_favor: bool,
    now: u64,
    weight: i128,
) -> (Result<(), GovernanceError>, GovernanceView) {
    match vote_error(s, id, voter, now, weight) {
        Some(e) => (Err(e), s),
        None => (
            Ok(()),
            GovernanceView {
                proposals: s.proposals.update(id - 1, counted_ballot(s.proposal(id).unwrap(), in_favor, weight)),
                votes: s.votes.push((id, voter)),
                ..s
            },
        ),
    }
}

// ---------------------------------------------------------------------------
// execute_proposal

/// Why `execute_proposal` is refused before the vote is counted, if it is.
pub open spec fn execute_precheck(s: GovernanceView, id: u64, now: u64) -> Option<GovernanceError> {
    if s.config is None {
        Some(GovernanceError::NotInitialized)
    } else if s.proposal(id) is None {
        Some(GovernanceError::ProposalNotFound)
    } else if s.proposal(id).unwrap().status == ProposalStatus::Cancelled
        || s.proposal(id).unwrap().status == ProposalStatus::Executed {
        Some(GovernanceError::ProposalInactive)
    } else if now < s.proposal(id).unwrap().voting_ends_at {
        Some(GovernanceError::VotingPeriodActive)
    } else if now < s.proposal(id).unwrap().voting_ends_at.saturating_add(
        s.config.unwrap().execution_delay_secs,
    ) {
        Some(GovernanceError::TimelockActive)
    } else {
        None
    }
}

/// `execute_proposal` is accepted: counting the vote stays within an `i128`.
pub open spec fn execute_in_range(s: GovernanceView, id: u64, now: u64) -> bool {
    execute_precheck(s, id, now) is None ==> tally_in_range(s.proposal(id).unwrap(), s.config.unwrap())
}

/// What `execute_proposal` answers and the state it leaves: the vote is
/// counted, and only a proposal that passes is marked executed. A refusal,
/// a missed quorum or a rejection among them, leaves the state as it was.
pub open spec fn execute_step(s: GovernanceView, id: u64, now: u64) -> (Result<(), GovernanceError>, GovernanceView) {
    match execute_precheck(s, id, now) {
        Some(e) => (Err(e), s),
        None => {
            let p = s.proposal(id).unwrap();
            let c = s.config.unwrap();
            if finalize_outcome(p, c) is Err {
                (finalize_outcome(p, c), s)
            } else if finalized_status(p, c) != ProposalStatus::Passed {
                (Err(GovernanceError::InvalidProposalState), s)
            } else {
                (Ok(()), s.with_proposal(id, p.with_status(ProposalStatus::Executed)))
            }
        },
    }
}

// ---------------------------------------------------------------------------
// cancel_proposal

/// Why `cancel_proposal` is refused, if it is: only the proposer or the admin
/// may cancel, and an executed proposal cannot be cancelled.
pub open spec fn cancel_error(s: GovernanceView, id: u64, caller: Address) -> Option<GovernanceError> {
    if s.config is None {
        Some(GovernanceError::NotInitialized)
    } else if s.proposal(id) is None {
        Some(GovernanceError::ProposalNotFound)
    } else if caller@ != s.proposal(id).unwrap().proposer@ && caller@ != s.config.unwrap().admin@ {
        Some(GovernanceError::Unauthorized)
    } else if s.proposal(id).unwrap().status == ProposalStatus::Executed {
        Some(GovernanceError::ProposalInactive)
    } else {
        None
    }
}

/// What `cancel_proposal` answers and the state it leaves.
pub open spec fn cancel_step(s: GovernanceView, id: u64, caller: Address) -> (Result<(), GovernanceError>, GovernanceView) {
    match cancel_error(s, id, caller) {
        Some(e) => (Err(e), s),
        None => (Ok(()), s.with_proposal(id, s.proposal(id).unwrap().with_status(ProposalStatus::Cancelled))),
    }
}

// ---------------------------------------------------------------------------
// list_proposals

/// A proposal as listing leaves it: an active proposal whose voting window
/// has closed gets its vote counted.
pub open spec fn settled(p: Proposal, c: GovernanceConfig, now: u64) -> Proposal {
    if p.status == ProposalStatus::Active && now > p.voting_ends_at {
        p.with_status(finalized_status(p, c))
    } else {
        p
    }
}

/// `list_proposals` is accepted: counting each closed vote stays within an `i128`.
pub open spec fn list_in_range(s: GovernanceView, now: u64) -> bool {
    s.config matches Some(c) ==> forall|i: int|
        0 <= i < s.proposals.len() && now > #[trigger] s.proposals[i].voting_ends_at ==> tally_in_range(s.proposals[i], c)
}

/// The proposals `list_proposals` returns and stores.
pub open spec fn settled_proposals(s: GovernanceView, now: u64) -> Seq<Proposal> {
    match s.config {
        None => s.proposals,
        Some(c) => Seq::new(s.proposals.len(), |i: int| settled(s.proposals[i], c, now)),
    }
}

} // verus!

verus! {

// ---------------------------------------------------------------------------
// Every operation keeps the state well formed.

/// `initialize` leaves a well-formed state.
pub proof fn lemma_initialize_wf(
    s: GovernanceView,
    admin: Address,
    share_token: Address,
    voting_period_secs: u64,
    quorum_bps: u32,
    pass_bps: u32,
    execution_delay_secs: u64,
    min_share_balance: i128,
)
    requires
        s.wf(),
        can_initialize(s, quorum_bps, pass_bps),
    ensures
        (GovernanceView {
            config: Some(
                initial_config(
                    admin,
                    share_token,
                    voting_period_secs,
                    quorum_bps,
                    pass_bps,
                    execution_delay_secs,
                    min_share_balance,
                ),
            ),
            ..s
        }).wf(),
{
}

/// `create_proposal` leaves a well-formed state.
pub proof fn lemma_create_wf(
    s: GovernanceView,
    proposer: Address,
    description: String,
    target_contract: Address,
    function_name: String,
    calldata: String,
    now: u64,
    proposer_balance: i128,
    total_supply: i128,
)
    requires
        s.wf(),
        s.proposals.len() < u64::MAX,
    ensures
        create_step(
            s,
            proposer,
            description,
            target_contract,
            function_name,
            calldata,
            now,
            proposer_balance,
            total_supply,
        ).1.wf(),
{
    if create_error(s, proposer_balance) is None {
        let p = opened_proposal(s, proposer, description, target_contract, function_name, calldata, now, total_supply);
        let t = create_step(
            s,
            proposer,
            description,
            target_contract,
            function_name,
            calldata,
            now,
            proposer_balance,
            total_supply,
        ).1;
        assert(t.proposals == s.proposals.push(p));
        assert forall|i: int| 0 <= i < t.proposals.len() implies #[trigger] t.proposals[i].id == i + 1 by {
            if i < s.proposals.len() {
                assert(t.proposals[i] == s.proposals[i]);
            }
        }
        assert forall|i: int| 0 <= i < t.proposals.len() implies #[trigger] t.proposals[i].votes_for >= 0
            && t.proposals[i].votes_against >= 0 by {
            if i < s.proposals.len() {
                assert(t.proposals[i] == s.proposals[i]);
            }
        }
    }
}

/// `vote` leaves a well-formed state.
pub proof fn lemma_vote_wf(s: GovernanceView, id: u64, voter: Address, in_favor: bool, now: u64, weight: i128)
    requires
        s.wf(),
        vote_in_range(s, id, voter, in_favor, now, weight),
    ensures
        vote_step(s, id, voter, in_favor, now, weight).1.wf(),
{
    if vote_error(s, id, voter, now, weight) is None {
        let p = counted_ballot(s.proposal(id).unwrap(), in_favor, weight);
        let u = s.with_proposal(id, p);
        lemma_wf_with_proposal(s, id, p);
        let t = vote_step(s, id, voter, in_favor, now, weight).1;
        assert(t == GovernanceView { votes: u.votes.push((id, voter)), ..u });
        assert(!s.has_voted(id, voter@));
        assert forall|i: int, j: int|
            0 <= i < j < t.votes.len() implies !(#[trigger] t.votes[i].0 == #[trigger] t.votes[j].0
                && t.votes[i].1@ == t.votes[j].1@) by {
            if j == t.votes.len() - 1 {
                if t.votes[i].0 == t.votes[j].0 && t.votes[i].1@ == t.votes[j].1@ {
                    assert(s.votes[i].0 == id);
                }
            }
        }
    }
}

/// `execute_proposal` leaves a well-formed state.
pub proof fn lemma_execute_wf(s: GovernanceView, id: u64, now: u64)
    requires
        s.wf(),
    ensures
        execute_step(s, id, now).1.wf(),
{
    if execute_step(s, id, now).0 is Ok {
        lemma_wf_with_proposal(s, id, s.proposal(id).unwrap().with_status(ProposalStatus::Executed));
    }
}

/// `cancel_proposal` leaves a well-formed state.
pub proof fn lemma_cancel_wf(s: GovernanceView, id: u64, caller: Address)
    requires
        s.wf(),
    ensures
        cancel_step(s, id, caller).1.wf(),
{
    if cancel_error(s, id, caller) is None {
        lemma_wf_with_proposal(s, id, s.proposal(id).unwrap().with_status(ProposalStatus::Cancelled));
    }
}

/// `list_proposals` leaves a well-formed state.
pub proof fn lemma_list_wf(s: GovernanceView, now: u64)
    requires
        s.wf(),
    ensures
        (GovernanceView { proposals: settled_proposals(s, now), ..s }).wf(),
{
    let t = GovernanceView { proposals: settled_proposals(s, now), ..s };
    if let Some(c) = s.config {
        assert forall|i: int| 0 <= i < t.proposals.len() implies #[trigger] t.proposals[i].id == i + 1 by {
            assert(t.proposals[i] == settled(s.proposals[i], c, now));
        }
        assert forall|i: int| 0 <= i < t.proposals.len() implies #[trigger] t.proposals[i].votes_for >= 0
            && t.proposals[i].votes_against >= 0 by {
            assert(t.proposals[i] == settled(s.proposals[i], c, now));
        }
    }
}

} // verus!
