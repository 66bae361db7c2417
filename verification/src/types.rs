use vstd::prelude::*;

verus! {

/// An account or contract address, held in its textual (strkey) form.
#[derive(Debug)]
pub struct Address {
    text: String,
}

impl View for Address {
    type V = Seq<char>;

    closed spec fn view(&self) -> Seq<char> {
        self.text@
    }
}

impl Address {
    /// Builds an address from its textual form.
    pub fn new(text: String) -> (a: Address)
        ensures
            a@ == text@,
    {
        Address { text }
    }

    /// The textual form of the address.
    pub fn as_str(&self) -> (s: &str)
        ensures
            s@ == self@,
    {
        self.text.as_str()
    }

    /// A copy of the address that is equal to it.
    pub fn duplicate(&self) -> (a: Address)
        ensures
            a == *self,
    {
        Address { text: self.text.clone() }
    }
}

impl Clone for Address {
    fn clone(&self) -> (a: Address)
        ensures
            a == *self,
    {
        self.duplicate()
    }
}

impl PartialEq for Address {
    fn eq(&self, other: &Address) -> (r: bool) {
        self.text == other.text
    }
}

impl vstd::std_specs::cmp::PartialEqSpecImpl for Address {
    open spec fn obeys_eq_spec() -> bool {
        true
    }

    open spec fn eq_spec(&self, other: &Address) -> bool {
        self@ == other@
    }
}

impl Eq for Address {
}

/// Where a proposal stands in its life cycle.
#[derive(Clone, Copy, Debug, PartialEq, Eq, Structural)]
pub enum ProposalStatus {
    Active,
    Passed,
    Rejected,
    Executed,
    Cancelled,
}

/// Why a request to the governance contract was refused.
#[derive(Clone, Copy, Debug, PartialEq, Eq, Structural)]
pub enum GovernanceError {
    NotInitialized,
    ProposalNotFound,
    ProposalInactive,
    AlreadyVoted,
    InsufficientShareBalance,
    VotingPeriodActive,
    TimelockActive,
    QuorumNotMet,
    InvalidProposalState,
    Unauthorized,
}

/// A proposal and its running tally.
#[derive(Debug)]
pub struct Proposal {
    pub id: u64,
    pub proposer: Address,
    pub description: String,
    pub target_contract: Address,
    pub function_name: String,
    pub calldata: String,
    pub votes_for: i128,
    pub votes_against: i128,
    pub status: ProposalStatus,
    pub created_at: u64,
    pub voting_ends_at: u64,
    pub execution_delay: u64,
    /// Total share supply recorded when the proposal was opened. Quorum and the
    /// pass threshold are always measured against this value, so shares minted
    /// afterwards cannot change the outcome of a proposal.
    pub snapshot_supply: i128,
}

impl Proposal {
    /// The same proposal with another status.
    pub open spec fn with_status(self, status: ProposalStatus) -> Proposal {
        Proposal { status, ..self }
    }

    /// The same proposal with another tally.
    pub open spec fn with_tally(self, votes_for: i128, votes_against: i128) -> Proposal {
        Proposal { votes_for, votes_against, ..self }
    }

    /// A copy of the proposal that is equal to it.
    pub fn duplicate(&self) -> (p: Proposal)
        ensures
            p == *self,
    {
        Proposal {
            id: self.id,
            proposer: self.proposer.duplicate(),
            description: self.description.clone(),
            target_contract: self.target_contract.duplicate(),
            function_name: self.function_name.clone(),
            calldata: self.calldata.clone(),
            votes_for: self.votes_for,
            votes_against: self.votes_against,
            status: self.status,
            created_at: self.created_at,
            voting_ends_at: self.voting_ends_at,
            execution_delay: self.execution_delay,
            snapshot_supply: self.snapshot_supply,
        }
    }
}

impl Clone for Proposal {
    fn clone(&self) -> (p: Proposal)
        ensures
            p == *self,
    {
        self.duplicate()
    }
}

/// The parameters the contract was initialised with.
#[derive(Debug)]
pub struct GovernanceConfig {
    pub admin: Address,
    pub share_token: Address,
    pub voting_period_secs: u64,
    pub quorum_bps: u32,
    pub pass_bps: u32,
    pub execution_delay_secs: u64,
    pub min_share_balance: i128,
}

impl GovernanceConfig {
    /// A copy of the configuration that is equal to it.
    pub fn duplicate(&self) -> (c: GovernanceConfig)
        ensures
            c == *self,
    {
        GovernanceConfig {
            admin: self.admin.duplicate(),
            share_token: self.share_token.duplicate(),
            voting_period_secs: self.voting_period_secs,
            quorum_bps: self.quorum_bps,
            pass_bps: self.pass_bps,
            execution_delay_secs: self.execution_delay_secs,
            min_share_balance: self.min_share_balance,
        }
    }
}

impl Clone for GovernanceConfig {
    fn clone(&self) -> (c: GovernanceConfig)
        ensures
            c == *self,
    {
        self.duplicate()
    }
}

} // verus!
