use vstd::prelude::*;

use crate::types::{GovernanceConfig, GovernanceError, Proposal, ProposalStatus};

verus! {

/// Basis points that make up the whole.
pub const BPS_DENOMINATOR: i128 = 10_000;

/// `x` fits in an `i128`.
pub open spec fn in_i128(x: int) -> bool {
    i128::MIN <= x <= i128::MAX
}

/// Total votes cast on a proposal.
pub open spec fn total_votes(p: Proposal) -> int {
    p.votes_for + p.votes_against
}

/// Votes needed for quorum: `quorum_bps` basis points of the supply recorded
/// when the proposal was opened, rounded down.
pub open spec fn quorum_of(snapshot_supply: int, quorum_bps: int) -> int {
    (snapshot_supply * quorum_bps) / 10_000
}

/// The votes cast reach quorum.
pub open spec fn meets_quorum(p: Proposal, config: GovernanceConfig) -> bool {
    total_votes(p) >= quorum_of(p.snapshot_supply as int, config.quorum_bps as int)
}

/// The votes in favour make up at least `pass_bps` basis points of the votes cast.
pub open spec fn meets_threshold(p: Proposal, config: GovernanceConfig) -> bool {
    p.votes_for * 10_000 >= total_votes(p) * config.pass_bps
}

/// The status a proposal has once its vote is counted. Only an active
/// proposal is counted: it passes when the supply recorded at its creation is
/// positive and its votes meet quorum and the pass threshold, and is rejected
/// otherwise.
pub open spec fn finalized_status(p: Proposal, config: GovernanceConfig) -> ProposalStatus {
    if p.status != ProposalStatus::Active {
        p.status
    } else if p.snapshot_supply <= 0 {
        ProposalStatus::Rejected
    } else if !meets_quorum(p, config) {
        ProposalStatus::Rejected
    } else if meets_threshold(p, config) {
        ProposalStatus::Passed
    } else {
        ProposalStatus::Rejected
    }
}

/// What counting the vote reports: a missed quorum is an error, every other
/// outcome (a rejection included) is not.
pub open spec fn finalize_outcome(p: Proposal, config: GovernanceConfig) -> Result<(), GovernanceError> {
    if p.status == ProposalStatus::Active && p.snapshot_supply > 0 && !meets_quorum(p, config) {
        Err(GovernanceError::QuorumNotMet)
    } else {
        Ok(())
    }
}

/// Every product and sum that counting the vote evaluates fits in an `i128`.
pub open spec fn tally_in_range(p: Proposal, config: GovernanceConfig) -> bool {
    p.status != ProposalStatus::Active || p.snapshot_supply <= 0 || {
        &&& in_i128(total_votes(p))
        &&& in_i128(p.snapshot_supply * config.quorum_bps)
        &&& (!meets_quorum(p, config) || {
            &&& in_i128(p.votes_for * 10_000)
            &&& in_i128(total_votes(p) * config.pass_bps)
        })
    }
}

/// Tells whether counting the vote on `proposal` stays within an `i128`,
/// so that `finalize_proposal` may be called on it.
pub fn tally_fits(config: &GovernanceConfig, proposal: &Proposal) -> (b: bool)
    ensures
        b == tally_in_range(*proposal, *config),
{
    if proposal.status != ProposalStatus::Active || proposal.snapshot_supply <= 0 {
        return true;
    }
    let total: i128 = match proposal.votes_for.checked_add(proposal.votes_against) {
        None => return false,
        Some(t) => t,
    };
    let scaled: i128 = match proposal.snapshot_supply.checked_mul(config.quorum_bps as i128) {
        None => return false,
        Some(x) => x,
    };
    assert(scaled >= 0) by (nonlinear_arith)
        requires
            scaled == proposal.snapshot_supply * config.quorum_bps,
            proposal.snapshot_supply > 0,
            config.quorum_bps >= 0,
    ;
    if total < scaled / BPS_DENOMINATOR {
        return true;
    }
    proposal.votes_for.checked_mul(BPS_DENOMINATOR).is_some() && total.checked_mul(config.pass_bps as i128).is_some()
}

/// Counts the vote on an active proposal and records the outcome in its status.
pub fn finalize_proposal(config: &GovernanceConfig, proposal: &mut Proposal) -> (r: Result<(), GovernanceError>)
    requires
        tally_in_range(*old(proposal), *config),
    ensures
        *final(proposal) == old(proposal).with_status(finalized_status(*old(proposal), *config)),
        r == finalize_outcome(*old(proposal), *config),
{
    if proposal.status != ProposalStatus::Active {
        return Ok(());
    }
    let snapshot_supply: i128 = proposal.snapshot_supply;
    if snapshot_supply <= 0 {
        proposal.status = ProposalStatus::Rejected;
        return Ok(());
    }
    let total: i128 = proposal.votes_for + proposal.votes_against;
    let scaled: i128 = snapshot_supply * config.quorum_bps as i128;
    assert(scaled >= 0) by (nonlinear_arith)
        requires
            scaled == snapshot_supply * config.quorum_bps,
            snapshot_supply > 0,
            config.quorum_bps >= 0,
    ;
    let quorum: i128 = scaled / BPS_DENOMINATOR;
    if total < quorum {
        proposal.status = ProposalStatus::Rejected;
        return Err(GovernanceError::QuorumNotMet);
    }
    if proposal.votes_for * BPS_DENOMINATOR >= total * config.pass_bps as i128 {
        proposal.status = ProposalStatus::Passed;
    } else {
        proposal.status = ProposalStatus::Rejected;
    }
    Ok(())
}

} // verus!
