use vstd::prelude::*;

use crate::state::{
    can_initialize, cancel_step, create_step, execute_in_range, execute_step, initial_config, lemma_create_wf,
    lemma_vote_wf, lemma_wf_with_proposal, list_in_range, settled, settled_proposals, vote_in_range, vote_step,
    GovernanceView, DEFAULT_EXECUTION_DELAY_SECS, DEFAULT_PASS_BPS, DEFAULT_QUORUM_BPS, DEFAULT_VOTING_PERIOD_SECS,
};
use crate::tally::{finalize_proposal, tally_fits, tally_in_range};
use crate::types::{Address, GovernanceConfig, GovernanceError, Proposal, ProposalStatus};

verus! {

/// Why `initialize` cannot run.
#[derive(Clone, Copy, Debug, PartialEq, Eq, Structural)]
pub enum InitializeRefusal {
    AlreadyInitialized,
    InvalidQuorum,
    InvalidThreshold,
}

/// The governance contract: its stored configuration, proposals and ballots,
/// and the operations on them. What the operations learn from outside the
/// contract (the ledger time, a share balance, the share supply) is handed to
/// them as arguments; who may call them is checked by the caller's signature
/// before they run.
pub struct Governance {
    config: Option<GovernanceConfig>,
    proposals: Vec<Proposal>,
    votes: Vec<(u64, Address)>,
}

impl View for Governance {
    type V = GovernanceView;

    closed spec fn view(&self) -> GovernanceView {
        GovernanceView { config: self.config, proposals: self.proposals@, votes: self.votes@ }
    }
}

impl Governance {
    /// The state is well formed.
    pub open spec fn wf(&self) -> bool {
        self@.wf()
    }

    /// A contract that has not been initialised.
    pub fn new() -> (g: Governance)
        ensures
            g.wf(),
            g@.config is None,
            g@.proposals.len() == 0,
            g@.votes.len() == 0,
    {
        Governance { config: None, proposals: Vec::new(), votes: Vec::new() }
    }

    /// Rebuilds the contract from stored parts: the configuration, the
    /// proposals in order of creation and ballot records. Returns `None` when
    /// the parts do not form a well-formed state.
    pub fn restore(
        config: Option<GovernanceConfig>,
        proposals: Vec<Proposal>,
        votes: Vec<(u64, Address)>,
    ) -> (r: Option<Governance>)
        ensures
            r is Some <==> (GovernanceView { config, proposals: proposals@, votes: votes@ }).wf(),
            r matches Some(g) ==> g@ == (GovernanceView { config, proposals: proposals@, votes: votes@ }),
    {
        let ghost target = GovernanceView { config, proposals: proposals@, votes: votes@ };
        match &config {
            None => {
                if proposals.len() != 0 || votes.len() != 0 {
                    return None;
                }
            },
            Some(c) => {
                if !(0 < c.quorum_bps && c.quorum_bps <= 10_000 && 5_000 < c.pass_bps && c.pass_bps <= 10_000) {
                    return None;
                }
            },
        }
        let n: usize = proposals.len();
        let mut i: usize = 0;
        while i < n
            invariant
                target == (GovernanceView { config, proposals: proposals@, votes: votes@ }),
                n == proposals.len(),
                i <= n,
                forall|j: int| 0 <= j < i ==> #[trigger] proposals@[j].id == j + 1,
                forall|j: int|
                    0 <= j < i ==> #[trigger] proposals@[j].votes_for >= 0 && proposals@[j].votes_against >= 0,
            decreases n - i,
        {
            let p = &proposals[i];
            if p.id != i as u64 + 1 || p.votes_for < 0 || p.votes_against < 0 {
                assert(!target.wf()) by {
                    assert(target.proposals[i as int] == *p);
                }
                return None;
            }
            i = i + 1;
        }
        let m: usize = votes.len();
        let mut a: usize = 0;
        while a < m
            invariant
                target == (GovernanceView { config, proposals: proposals@, votes: votes@ }),
                n == proposals.len(),
                m == votes.len(),
                a <= m,
                forall|j: int| 0 <= j < a ==> 1 <= #[trigger] votes@[j].0 <= n,
                forall|j: int, k: int|
                    0 <= j < k < m && j < a ==> !(#[trigger] votes@[j].0 == #[trigger] votes@[k].0
                        && votes@[j].1@ == votes@[k].1@),
            decreases m - a,
        {
            let id: u64 = votes[a].0;
            if id == 0 || id > n as u64 {
                assert(!target.wf()) by {
                    assert(target.votes[a as int].0 == id);
                }
                return None;
            }
            let mut b: usize = a + 1;
            while b < m
                invariant
                    target == (GovernanceView { config, proposals: proposals@, votes: votes@ }),
                    m == votes.len(),
                    a < b <= m,
                    id == votes@[a as int].0,
                    forall|k: int| a < k < b ==> !(#[trigger] votes@[k].0 == id && votes@[k].1@ == votes@[a as int].1@),
                decreases m - b,
            {
                if votes[b].0 == id && votes[b].1 == votes[a].1 {
                    assert(!target.wf()) by {
                        assert(target.votes[a as int].0 == target.votes[b as int].0);
                    }
                    return None;
                }
                b = b + 1;
            }
            a = a + 1;
        }
        Some(Governance { config, proposals, votes })
    }

    /// Index of proposal `id` in `proposals`, if it exists.
    fn index_of(&self, id: u64) -> (r: Option<usize>)
        ensures
            r is Some <==> self@.proposal(id) is Some,
            r matches Some(i) ==> i == id - 1 && i < self.proposals.len(),
    {
        if id == 0 || id > self.proposals.len() as u64 {
            None
        } else {
            Some((id - 1) as usize)
        }
    }

    /// A ballot by `voter` on proposal `id` has been recorded.
    fn has_voted(&self, id: u64, voter: &Address) -> (r: bool)
        ensures
            r == self@.has_voted(id, voter@),
    {
        let mut i: usize = 0;
        while i < self.votes.len()
            invariant
                i <= self.votes.len(),
                forall|j: int| 0 <= j < i ==> !(#[trigger] self.votes@[j].0 == id && self.votes@[j].1@ == voter@),
            decreases self.votes.len() - i,
        {
            if self.votes[i].0 == id && self.votes[i].1 == *voter {
                assert(self@.votes[i as int].0 == id && self@.votes[i as int].1@ == voter@);
                return true;
            }
            i = i + 1;
        }
        false
    }

    /// The proposal with the given id, if there is one.
    pub fn get_proposal(&self, proposal_id: u64) -> (r: Option<Proposal>)
        ensures
            r == self@.proposal(proposal_id),
    {
        match self.index_of(proposal_id) {
            None => None,
            Some(i) => Some(self.proposals[i].duplicate()),
        }
    }

    /// The configuration, or `NotInitialized` before `initialize`.
    pub fn get_config(&self) -> (r: Result<GovernanceConfig, GovernanceError>)
        ensures
            r == (match self@.config {
                Some(c) => Ok(c),
                None => Err(GovernanceError::NotInitialized),
            }),
    {
        match &self.config {
            Some(c) => Ok(c.duplicate()),
            None => Err(GovernanceError::NotInitialized),
        }
    }

    /// Number of proposals opened so far; the last one has this id.
    pub fn proposal_count(&self) -> (n: u64)
        requires
            self.wf(),
        ensures
            n == self@.proposals.len(),
    {
        if self.proposals.len() > 0 {
            assert(self@.proposals[self@.proposals.len() - 1].id == self@.proposals.len());
        }
        self.proposals.len() as u64
    }

    /// Why `initialize` would abort, if it would: the contract is already
    /// initialised, or the quorum or the pass threshold is out of range.
    pub fn initialize_refusal(&self, quorum_bps: u32, pass_bps: u32) -> (r: Option<InitializeRefusal>)
        ensures
            r is None <==> can_initialize(self@, quorum_bps, pass_bps),
            r == Some(InitializeRefusal::AlreadyInitialized) <==> self@.config is Some,
            r == Some(InitializeRefusal::InvalidQuorum) <==> self@.config is None && !(0 < quorum_bps <= 10_000),
            r == Some(InitializeRefusal::InvalidThreshold) <==> self@.config is None && 0 < quorum_bps <= 10_000
                && !(5_000 < pass_bps <= 10_000),
    {
        if self.config.is_some() {
            Some(InitializeRefusal::AlreadyInitialized)
        } else if quorum_bps == 0 || quorum_bps > 10_000 {
            Some(InitializeRefusal::InvalidQuorum)
        } else if pass_bps <= 5_000 || pass_bps > 10_000 {
            Some(InitializeRefusal::InvalidThreshold)
        } else {
            None
        }
    }

    /// Tells whether a `vote` with these arguments keeps the tally within an
    /// `i128`, so that `vote` may be called with them.
    pub fn vote_fits(&self, proposal_id: u64, voter: &Address, in_favor: bool, now: u64, weight: i128) -> (b: bool)
        ensures
            b == vote_in_range(self@, proposal_id, *voter, in_favor, now, weight),
    {
        if self.config.is_none() {
            return true;
        }
        let idx: usize = match self.index_of(proposal_id) {
            None => return true,
            Some(i) => i,
        };
        let p = &self.proposals[idx];
        if p.status != ProposalStatus::Active || self.has_voted(proposal_id, voter) || now > p.voting_ends_at
            || weight <= 0 {
            return true;
        }
        let tally: i128 = if in_favor {
            p.votes_for
        } else {
            p.votes_against
        };
        tally <= i128::MAX - weight
    }

    /// Tells whether counting the vote of proposal `proposal_id` at `now`
    /// stays within an `i128`, so that `execute_proposal` may be called.
    pub fn execute_fits(&self, proposal_id: u64, now: u64) -> (b: bool)
        ensures
            b == execute_in_range(self@, proposal_id, now),
    {
        let config = match &self.config {
            None => return true,
            Some(c) => c,
        };
        let idx: usize = match self.index_of(proposal_id) {
            None => return true,
            Some(i) => i,
        };
        let p = &self.proposals[idx];
        if p.status == ProposalStatus::Cancelled || p.status == ProposalStatus::Executed || now < p.voting_ends_at
            || now < p.voting_ends_at.saturating_add(config.execution_delay_secs) {
            return true;
        }
        tally_fits(config, p)
    }

    /// Tells whether counting every closed vote at `now` stays within an
    /// `i128`, so that `list_proposals` may be called.
    pub fn list_fits(&self, now: u64) -> (b: bool)
        ensures
            b == list_in_range(self@, now),
    {
        let config = match &self.config {
            None => return true,
            Some(c) => c,
        };
        let n: usize = self.proposals.len();
        let mut i: usize = 0;
        while i < n
            invariant
                n == self.proposals.len(),
                i <= n,
                self@.config == Some(*config),
                forall|j: int|
                    0 <= j < i && now > #[trigger] self@.proposals[j].voting_ends_at ==> tally_in_range(
                        self@.proposals[j],
                        *config,
                    ),
            decreases n - i,
        {
            if now > self.proposals[i].voting_ends_at && !tally_fits(config, &self.proposals[i]) {
                return false;
            }
            i = i + 1;
        }
        true
    }

    /// Initialises the contract with its admin, share token and voting rules.
    /// A voting period or execution delay of zero stands for the default.
    pub fn initialize(
        &mut self,
        admin: Address,
        share_token: Address,
        voting_period_secs: u64,
        quorum_bps: u32,
        pass_bps: u32,
        execution_delay_secs: u64,
        min_share_balance: i128,
    )
        requires
            old(self).wf(),
            can_initialize(old(self)@, quorum_bps, pass_bps),
        ensures
            final(self).wf(),
            final(self)@ == (GovernanceView {
                config: Some(
                    initial_config(
                        admin,
                        share_token,
                        voting_period_secs,
                        quorum_bps,
                        pass_bps,
                        execution_delay_secs,
                        min_share_balance,
                    ),
                ),
                ..old(self)@
            }),
            final(self)@.proposals.len() == 0,
    {
        let config = GovernanceConfig {
            admin,
            share_token,
            voting_period_secs: if voting_period_secs == 0 {
                DEFAULT_VOTING_PERIOD_SECS
            } else {
                voting_period_secs
            },
            quorum_bps: if quorum_bps == 0 {
                DEFAULT_QUORUM_BPS
            } else {
                quorum_bps
            },
            pass_bps: if pass_bps == 0 {
                DEFAULT_PASS_BPS
            } else {
                pass_bps
            },
            execution_delay_secs: if execution_delay_secs == 0 {
                DEFAULT_EXECUTION_DELAY_SECS
            } else {
                execution_delay_secs
            },
            min_share_balance,
        };
        self.config = Some(config);
    }

    /// Opens a proposal by `proposer`, whose share balance is
    /// `proposer_balance`, at ledger time `now`, recording `total_supply` (the
    /// share supply at this moment) as its snapshot. Returns the new id.
    pub fn create_proposal(
        &mut self,
        proposer: Address,
        description: String,
        target_contract: Address,
        function_name: String,
        calldata: String,
        now: u64,
        proposer_balance: i128,
        total_supply: i128,
    ) -> (r: Result<u64, GovernanceError>)
        requires
            old(self).wf(),
            old(self)@.proposals.len() < u64::MAX,
        ensures
            final(self).wf(),
            (r, final(self)@) == create_step(
                old(self)@,
                proposer,
                description,
                target_contract,
                function_name,
                calldata,
                now,
                proposer_balance,
                total_supply,
            ),
            r is Err ==> final(self)@ == old(self)@,
    {
        let (voting_period_secs, execution_delay_secs) = match &self.config {
            None => return Err(GovernanceError::NotInitialized),
            Some(c) => {
                if proposer_balance < c.min_share_balance {
                    return Err(GovernanceError::InsufficientShareBalance);
                }
                (c.voting_period_secs, c.execution_delay_secs)
            },
        };
        let id: u64 = self.proposals.len() as u64 + 1;
        let proposal = Proposal {
            id,
            proposer,
            description,
            target_contract,
            function_name,
            calldata,
            votes_for: 0,
            votes_against: 0,
            status: ProposalStatus::Active,
            created_at: now,
            voting_ends_at: now.saturating_add(voting_period_secs),
            execution_delay: execution_delay_secs,
            snapshot_supply: total_supply,
        };
        let ghost before = self@;
        self.proposals.push(proposal);
        proof {
            lemma_create_wf(
                before,
                proposal.proposer,
                proposal.description,
                proposal.target_contract,
                proposal.function_name,
                proposal.calldata,
                now,
                proposer_balance,
                total_supply,
            );
        }
        Ok(id)
    }

    /// Casts `voter`'s ballot, of `weight` (the voter's share balance), for or
    /// against proposal `proposal_id` at ledger time `now`.
    pub fn vote(
        &mut self,
        proposal_id: u64,
        voter: Address,
        in_favor: bool,
        now: u64,
        weight: i128,
    ) -> (r: Result<(), GovernanceError>)
        requires
            old(self).wf(),
            vote_in_range(old(self)@, proposal_id, voter, in_favor, now, weight),
        ensures
            final(self).wf(),
            (r, final(self)@) == vote_step(old(self)@, proposal_id, voter, in_favor, now, weight),
            r is Err ==> final(self)@ == old(self)@,
    {
        if self.config.is_none() {
            return Err(GovernanceError::NotInitialized);
        }
        let idx: usize = match self.index_of(proposal_id) {
            None => return Err(GovernanceError::ProposalNotFound),
            Some(i) => i,
        };
        if self.proposals[idx].status != ProposalStatus::Active {
            return Err(GovernanceError::ProposalInactive);
        }
        if self.has_voted(proposal_id, &voter) {
            return Err(GovernanceError::AlreadyVoted);
        }
        if now > self.proposals[idx].voting_ends_at {
            return Err(GovernanceError::VotingPeriodActive);
        }
        if weight <= 0 {
            return Err(GovernanceError::InsufficientShareBalance);
        }
        let mut counted = self.proposals[idx].duplicate();
        if in_favor {
            counted.votes_for = counted.votes_for + weight;
        } else {
            counted.votes_against = counted.votes_against + weight;
        }
        let ghost before = self@;
        self.proposals.set(idx, counted);
        self.votes.push((proposal_id, voter));
        proof {
            lemma_vote_wf(before, proposal_id, voter, in_favor, now, weight);
            assert(self@.proposals == before.proposals.update(idx as int, counted));
        }
        Ok(())
    }

    /// Executes proposal `proposal_id` at ledger time `now`: once its voting
    /// window and the configured delay after it have passed, its vote is
    /// counted and, if it passes, it is marked executed.
    pub fn execute_proposal(&mut self, proposal_id: u64, now: u64) -> (r: Result<(), GovernanceError>)
        requires
            old(self).wf(),
            execute_in_range(old(self)@, proposal_id, now),
        ensures
            final(self).wf(),
            (r, final(self)@) == execute_step(old(self)@, proposal_id, now),
            r is Err ==> final(self)@ == old(self)@,
    {
        let config = match &self.config {
            None => return Err(GovernanceError::NotInitialized),
            Some(c) => c,
        };
        let idx: usize = match self.index_of(proposal_id) {
            None => return Err(GovernanceError::ProposalNotFound),
            Some(i) => i,
        };
        let status = self.proposals[idx].status;
        if status == ProposalStatus::Cancelled || status == ProposalStatus::Executed {
            return Err(GovernanceError::ProposalInactive);
        }
        let voting_ends_at: u64 = self.proposals[idx].voting_ends_at;
        if now < voting_ends_at {
            return Err(GovernanceError::VotingPeriodActive);
        }
        if now < voting_ends_at.saturating_add(config.execution_delay_secs) {
            return Err(GovernanceError::TimelockActive);
        }
        let mut counted = self.proposals[idx].duplicate();
        match finalize_proposal(config, &mut counted) {
            Err(e) => return Err(e),
            Ok(()) => {},
        }
        if counted.status != ProposalStatus::Passed {
            return Err(GovernanceError::InvalidProposalState);
        }
        counted.status = ProposalStatus::Executed;
        proof {
            lemma_wf_with_proposal(self@, proposal_id, counted);
        }
        self.proposals.set(idx, counted);
        Ok(())
    }

    /// Cancels proposal `proposal_id` on behalf of `caller`, who must be its
    /// proposer or the admin. An executed proposal cannot be cancelled.
    pub fn cancel_proposal(&mut self, proposal_id: u64, caller: Address) -> (r: Result<(), GovernanceError>)
        requires
            old(self).wf(),
        ensures
            final(self).wf(),
            (r, final(self)@) == cancel_step(old(self)@, proposal_id, caller),
            r is Err ==> final(self)@ == old(self)@,
    {
        let authorized_admin: bool = match &self.config {
            None => return Err(GovernanceError::NotInitialized),
            Some(c) => caller == c.admin,
        };
        let idx: usize = match self.index_of(proposal_id) {
            None => return Err(GovernanceError::ProposalNotFound),
            Some(i) => i,
        };
        if !(caller == self.proposals[idx].proposer) && !authorized_admin {
            return Err(GovernanceError::Unauthorized);
        }
        if self.proposals[idx].status == ProposalStatus::Executed {
            return Err(GovernanceError::ProposalInactive);
        }
        let mut cancelled = self.proposals[idx].duplicate();
        cancelled.status = ProposalStatus::Cancelled;
        proof {
            lemma_wf_with_proposal(self@, proposal_id, cancelled);
        }
        self.proposals.set(idx, cancelled);
        Ok(())
    }

    /// Lists every proposal in order of creation at ledger time `now`. An
    /// active proposal whose voting window has closed gets its vote counted
    /// first, and the counted status is kept.
    pub fn list_proposals(&mut self, now: u64) -> (r: Vec<Proposal>)
        requires
            old(self).wf(),
            list_in_range(old(self)@, now),
        ensures
            final(self).wf(),
            r@ == settled_proposals(old(self)@, now),
            final(self)@ == (GovernanceView { proposals: settled_proposals(old(self)@, now), ..old(self)@ }),
    {
        let mut listed: Vec<Proposal> = Vec::new();
        let config = match &self.config {
            None => return listed,
            Some(c) => c.duplicate(),
        };
        let ghost start = self@;
        let n: usize = self.proposals.len();
        let mut i: usize = 0;
        while i < n
            invariant
                start.wf(),
                start.config == Some(config),
                list_in_range(start, now),
                n == self.proposals.len(),
                n == start.proposals.len(),
                i <= n,
                self@.config == start.config,
                self@.votes == start.votes,
                listed@.len() == i,
                forall|j: int| 0 <= j < i ==> #[trigger] self@.proposals[j] == settled(start.proposals[j], config, now),
                forall|j: int| 0 <= j < i ==> #[trigger] listed@[j] == self@.proposals[j],
                forall|j: int| i <= j < n ==> #[trigger] self@.proposals[j] == start.proposals[j],
            decreases n - i,
        {
            let ghost before = self@.proposals;
            assert(self@.proposals[i as int] == start.proposals[i as int]);
            if self.proposals[i].status == ProposalStatus::Active && now > self.proposals[i].voting_ends_at {
                assert(tally_in_range(start.proposals[i as int], config));
                let mut counted = self.proposals[i].duplicate();
                let _ = finalize_proposal(&config, &mut counted);
                self.proposals.set(i, counted);
            }
            listed.push(self.proposals[i].duplicate());
            assert forall|j: int| i < j < n implies #[trigger] self@.proposals[j] == start.proposals[j] by {
                assert(self@.proposals[j] == before[j]);
            }
            i = i + 1;
        }
        proof {
            assert(self@.proposals == settled_proposals(start, now));
            assert(listed@ == settled_proposals(start, now));
        }
        listed
    }
}

} // verus!
