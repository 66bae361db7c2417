//! Each operation on its own: results, error variants and edge cases.

use governance::governance::{Governance as Contract, InitializeRefusal};
use governance::state::{DEFAULT_EXECUTION_DELAY_SECS, DEFAULT_VOTING_PERIOD_SECS};
use governance::tally::tally_fits;
use governance::{finalize_proposal, Address, GovernanceConfig, GovernanceError, Proposal, ProposalStatus};

fn addr(name: &str) -> Address {
    Address::new(name.to_string())
}

/// A contract initialised with a one-day window, a delay of 100 s, 10 %
/// quorum, 60 % threshold and a minimum balance of 1.
fn setup() -> Contract {
    let mut g = Contract::new();
    g.initialize(addr("admin"), addr("share"), 86_400, 1_000, 6_000, 100, 1);
    g
}

fn open(g: &mut Contract, proposer: &str, now: u64, balance: i128, supply: i128) -> Result<u64, GovernanceError> {
    g.create_proposal(
        addr(proposer),
        "describe".to_string(),
        addr("target"),
        "call".to_string(),
        "{}".to_string(),
        now,
        balance,
        supply,
    )
}

fn snapshot(g: &Contract) -> String {
    format!("{:?}", (g.get_config(), (1..=g.proposal_count() + 1).map(|i| g.get_proposal(i)).collect::<Vec<_>>()))
}

fn proposal(status: ProposalStatus, votes_for: i128, votes_against: i128, snapshot_supply: i128) -> Proposal {
    Proposal {
        id: 1,
        proposer: addr("p"),
        description: String::new(),
        target_contract: addr("t"),
        function_name: String::new(),
        calldata: String::new(),
        votes_for,
        votes_against,
        status,
        created_at: 0,
        voting_ends_at: 10,
        execution_delay: 100,
        snapshot_supply,
    }
}

fn config() -> GovernanceConfig {
    GovernanceConfig {
        admin: addr("admin"),
        share_token: addr("share"),
        voting_period_secs: 10,
        quorum_bps: 1_000,
        pass_bps: 6_000,
        execution_delay_secs: 100,
        min_share_balance: 1,
    }
}

// ── initialize and get_config ────────────────────────────────────────────────

#[test]
fn config_missing_before_initialize() {
    let g = Contract::new();
    assert_eq!(g.get_config().unwrap_err(), GovernanceError::NotInitialized);
    assert_eq!(g.proposal_count(), 0);
}

#[test]
fn initialize_applies_defaults_for_zero_period_and_delay() {
    let mut g = Contract::new();
    g.initialize(addr("admin"), addr("share"), 0, 2_500, 7_000, 0, 5);
    let c = g.get_config().unwrap();
    assert_eq!(c.voting_period_secs, 7 * 86_400);
    assert_eq!(c.voting_period_secs, DEFAULT_VOTING_PERIOD_SECS);
    assert_eq!(c.execution_delay_secs, 48 * 3_600);
    assert_eq!(c.execution_delay_secs, DEFAULT_EXECUTION_DELAY_SECS);
    assert_eq!(c.quorum_bps, 2_500);
    assert_eq!(c.pass_bps, 7_000);
    assert_eq!(c.min_share_balance, 5);
    assert_eq!(c.admin.as_str(), "admin");
    assert_eq!(c.share_token.as_str(), "share");
}

#[test]
fn initialize_keeps_given_period_and_delay() {
    let g = setup();
    let c = g.get_config().unwrap();
    assert_eq!(c.voting_period_secs, 86_400);
    assert_eq!(c.execution_delay_secs, 100);
}

// ── create_proposal ──────────────────────────────────────────────────────────

#[test]
fn create_before_initialize_is_refused() {
    let mut g = Contract::new();
    assert_eq!(open(&mut g, "p", 0, 10, 10), Err(GovernanceError::NotInitialized));
    assert_eq!(g.proposal_count(), 0);
}

#[test]
fn create_below_minimum_balance_is_refused() {
    let mut g = setup();
    let before = snapshot(&g);
    assert_eq!(open(&mut g, "p", 0, 0, 10), Err(GovernanceError::InsufficientShareBalance));
    assert_eq!(snapshot(&g), before);
}

#[test]
fn create_assigns_consecutive_ids_and_records_terms() {
    let mut g = setup();
    assert_eq!(open(&mut g, "a", 5, 1, 77), Ok(1));
    assert_eq!(open(&mut g, "b", 6, 1, 78), Ok(2));
    assert_eq!(open(&mut g, "c", 7, 1, 79), Ok(3));
    assert_eq!(g.proposal_count(), 3);
    let p = g.get_proposal(2).unwrap();
    assert_eq!(p.id, 2);
    assert_eq!(p.proposer, addr("b"));
    assert_eq!(p.target_contract, addr("target"));
    assert_eq!(p.description, "describe");
    assert_eq!(p.function_name, "call");
    assert_eq!(p.calldata, "{}");
    assert_eq!(p.created_at, 6);
    assert_eq!(p.voting_ends_at, 6 + 86_400);
    assert_eq!(p.execution_delay, 100);
    assert_eq!(p.snapshot_supply, 78);
    assert_eq!(p.status, ProposalStatus::Active);
    assert_eq!((p.votes_for, p.votes_against), (0, 0));
    assert!(g.get_proposal(0).is_none());
    assert!(g.get_proposal(4).is_none());
}

#[test]
fn voting_window_saturates_at_end_of_time() {
    let mut g = setup();
    let id = open(&mut g, "p", u64::MAX - 10, 1, 1).unwrap();
    assert_eq!(g.get_proposal(id).unwrap().voting_ends_at, u64::MAX);
}

// ── vote ─────────────────────────────────────────────────────────────────────

#[test]
fn vote_before_initialize_is_refused() {
    let mut g = Contract::new();
    assert_eq!(g.vote(1, addr("v"), true, 0, 5), Err(GovernanceError::NotInitialized));
}

#[test]
fn vote_on_missing_proposal_is_refused() {
    let mut g = setup();
    open(&mut g, "p", 0, 1, 100).unwrap();
    assert_eq!(g.vote(0, addr("v"), true, 0, 5), Err(GovernanceError::ProposalNotFound));
    assert_eq!(g.vote(2, addr("v"), true, 0, 5), Err(GovernanceError::ProposalNotFound));
}

#[test]
fn vote_adds_weight_to_the_chosen_side() {
    let mut g = setup();
    let id = open(&mut g, "p", 0, 1, 100).unwrap();
    g.vote(id, addr("a"), true, 10, 30).unwrap();
    g.vote(id, addr("b"), false, 10, 12).unwrap();
    g.vote(id, addr("c"), true, 10, 5).unwrap();
    let p = g.get_proposal(id).unwrap();
    assert_eq!((p.votes_for, p.votes_against), (35, 12));
    assert_eq!(p.status, ProposalStatus::Active);
}

#[test]
fn vote_at_end_of_window_is_counted() {
    let mut g = setup();
    let id = open(&mut g, "p", 0, 1, 100).unwrap();
    assert_eq!(g.vote(id, addr("a"), true, 86_400, 3), Ok(()));
    assert_eq!(g.vote(id, addr("b"), true, 86_401, 3), Err(GovernanceError::VotingPeriodActive));
}

#[test]
fn vote_without_shares_is_refused() {
    let mut g = setup();
    let id = open(&mut g, "p", 0, 1, 100).unwrap();
    let before = snapshot(&g);
    assert_eq!(g.vote(id, addr("a"), true, 1, 0), Err(GovernanceError::InsufficientShareBalance));
    assert_eq!(g.vote(id, addr("a"), true, 1, -4), Err(GovernanceError::InsufficientShareBalance));
    assert_eq!(snapshot(&g), before);
    // the refused ballot was not recorded
    assert_eq!(g.vote(id, addr("a"), true, 1, 4), Ok(()));
}

#[test]
fn second_ballot_is_refused_as_already_voted() {
    let mut g = setup();
    let id = open(&mut g, "p", 0, 1, 100).unwrap();
    g.vote(id, addr("a"), true, 1, 10).unwrap();
    let before = snapshot(&g);
    assert_eq!(g.vote(id, addr("a"), false, 2, 99), Err(GovernanceError::AlreadyVoted));
    assert_eq!(snapshot(&g), before);
    // the same voter may vote on another proposal
    let other = open(&mut g, "p", 0, 1, 100).unwrap();
    assert_eq!(g.vote(other, addr("a"), false, 2, 99), Ok(()));
}

#[test]
fn vote_on_cancelled_proposal_is_refused() {
    let mut g = setup();
    let id = open(&mut g, "p", 0, 1, 100).unwrap();
    g.cancel_proposal(id, addr("p")).unwrap();
    assert_eq!(g.vote(id, addr("a"), true, 1, 10), Err(GovernanceError::ProposalInactive));
}

#[test]
fn late_vote_leaves_proposal_active() {
    let mut g = setup();
    let id = open(&mut g, "p", 0, 1, 100).unwrap();
    g.vote(id, addr("a"), true, 1, 50).unwrap();
    let before = snapshot(&g);
    assert_eq!(g.vote(id, addr("b"), true, 90_000, 10), Err(GovernanceError::VotingPeriodActive));
    assert_eq!(snapshot(&g), before);
    assert_eq!(g.get_proposal(id).unwrap().status, ProposalStatus::Active);
}

// ── execute_proposal ─────────────────────────────────────────────────────────

#[test]
fn execute_waits_for_window_and_timelock() {
    let mut g = setup();
    let id = open(&mut g, "p", 0, 1, 100).unwrap();
    g.vote(id, addr("a"), true, 1, 50).unwrap();
    assert_eq!(g.execute_proposal(id, 86_399), Err(GovernanceError::VotingPeriodActive));
    assert_eq!(g.execute_proposal(id, 86_400), Err(GovernanceError::TimelockActive));
    assert_eq!(g.execute_proposal(id, 86_499), Err(GovernanceError::TimelockActive));
    assert_eq!(g.execute_proposal(id, 86_500), Ok(()));
    assert_eq!(g.get_proposal(id).unwrap().status, ProposalStatus::Executed);
    assert_eq!(g.execute_proposal(id, 86_500), Err(GovernanceError::ProposalInactive));
}

#[test]
fn execute_reports_missed_quorum_and_changes_nothing() {
    let mut g = setup();
    let id = open(&mut g, "p", 0, 1, 1_000).unwrap();
    g.vote(id, addr("a"), true, 1, 99).unwrap();
    let before = snapshot(&g);
    assert_eq!(g.execute_proposal(id, 100_000), Err(GovernanceError::QuorumNotMet));
    assert_eq!(snapshot(&g), before);
}

#[test]
fn execute_reports_failed_threshold_as_invalid_state() {
    let mut g = setup();
    let id = open(&mut g, "p", 0, 1, 1_000).unwrap();
    g.vote(id, addr("a"), true, 1, 59).unwrap();
    g.vote(id, addr("b"), false, 1, 41).unwrap();
    let before = snapshot(&g);
    assert_eq!(g.execute_proposal(id, 100_000), Err(GovernanceError::InvalidProposalState));
    assert_eq!(snapshot(&g), before);
}

#[test]
fn execute_on_missing_or_cancelled_proposal_is_refused() {
    let mut g = setup();
    assert_eq!(g.execute_proposal(1, 0), Err(GovernanceError::ProposalNotFound));
    let id = open(&mut g, "p", 0, 1, 1_000).unwrap();
    g.cancel_proposal(id, addr("admin")).unwrap();
    assert_eq!(g.execute_proposal(id, 100_000), Err(GovernanceError::ProposalInactive));
    let mut fresh = Contract::new();
    assert_eq!(fresh.execute_proposal(1, 0), Err(GovernanceError::NotInitialized));
}

#[test]
fn execute_after_listing_uses_the_recorded_outcome() {
    let mut g = setup();
    let passing = open(&mut g, "p", 0, 1, 1_000).unwrap();
    let failing = open(&mut g, "p", 0, 1, 1_000).unwrap();
    g.vote(passing, addr("a"), true, 1, 100).unwrap();
    g.vote(failing, addr("a"), false, 1, 100).unwrap();
    g.list_proposals(86_401);
    assert_eq!(g.get_proposal(passing).unwrap().status, ProposalStatus::Passed);
    assert_eq!(g.get_proposal(failing).unwrap().status, ProposalStatus::Rejected);
    assert_eq!(g.execute_proposal(passing, 86_500), Ok(()));
    assert_eq!(g.execute_proposal(failing, 86_500), Err(GovernanceError::InvalidProposalState));
    assert_eq!(g.get_proposal(failing).unwrap().status, ProposalStatus::Rejected);
}

#[test]
fn execute_with_non_positive_snapshot_is_rejected() {
    let mut g = setup();
    let id = open(&mut g, "p", 0, 1, 0).unwrap();
    g.vote(id, addr("a"), true, 1, 100).unwrap();
    assert_eq!(g.execute_proposal(id, 86_500), Err(GovernanceError::InvalidProposalState));
    g.list_proposals(86_500);
    assert_eq!(g.get_proposal(id).unwrap().status, ProposalStatus::Rejected);
}

// ── cancel_proposal ──────────────────────────────────────────────────────────

#[test]
fn cancel_by_stranger_is_unauthorized() {
    let mut g = setup();
    let id = open(&mut g, "p", 0, 1, 100).unwrap();
    let before = snapshot(&g);
    assert_eq!(g.cancel_proposal(id, addr("stranger")), Err(GovernanceError::Unauthorized));
    assert_eq!(snapshot(&g), before);
}

#[test]
fn cancel_by_admin_and_of_settled_proposals() {
    let mut g = setup();
    // one share in supply: quorum is zero, so no votes pass
    let id = open(&mut g, "p", 0, 1, 1).unwrap();
    g.list_proposals(86_401);
    assert_eq!(g.get_proposal(id).unwrap().status, ProposalStatus::Passed);
    assert_eq!(g.cancel_proposal(id, addr("admin")), Ok(()));
    assert_eq!(g.get_proposal(id).unwrap().status, ProposalStatus::Cancelled);
    assert_eq!(g.cancel_proposal(id, addr("p")), Ok(()));
    assert_eq!(g.cancel_proposal(9, addr("p")), Err(GovernanceError::ProposalNotFound));
    let mut fresh = Contract::new();
    assert_eq!(fresh.cancel_proposal(1, addr("p")), Err(GovernanceError::NotInitialized));
}

#[test]
fn executed_proposal_cannot_be_cancelled() {
    let mut g = setup();
    let id = open(&mut g, "p", 0, 1, 100).unwrap();
    g.vote(id, addr("a"), true, 1, 50).unwrap();
    g.execute_proposal(id, 86_500).unwrap();
    assert_eq!(g.cancel_proposal(id, addr("p")), Err(GovernanceError::ProposalInactive));
    assert_eq!(g.get_proposal(id).unwrap().status, ProposalStatus::Executed);
}

// ── list_proposals ───────────────────────────────────────────────────────────

#[test]
fn list_settles_only_closed_active_proposals() {
    let mut g = setup();
    let early = open(&mut g, "p", 0, 1, 1_000).unwrap();
    let late = open(&mut g, "p", 50_000, 1, 1_000).unwrap();
    let cancelled = open(&mut g, "p", 0, 1, 1_000).unwrap();
    g.cancel_proposal(cancelled, addr("p")).unwrap();
    g.vote(early, addr("a"), true, 1, 5).unwrap();
    let listed = g.list_proposals(86_401);
    assert_eq!(listed.len(), 3);
    assert_eq!(listed[0].id, early);
    assert_eq!(listed[0].status, ProposalStatus::Rejected);
    assert_eq!(listed[1].id, late);
    assert_eq!(listed[1].status, ProposalStatus::Active);
    assert_eq!(listed[2].status, ProposalStatus::Cancelled);
    assert_eq!(g.get_proposal(early).unwrap().status, ProposalStatus::Rejected);
}

#[test]
fn list_on_empty_contract_is_empty() {
    let mut g = Contract::new();
    assert!(g.list_proposals(5).is_empty());
    let mut h = setup();
    assert!(h.list_proposals(5).is_empty());
}

// ── finalize_proposal ────────────────────────────────────────────────────────

#[test]
fn finalize_passes_at_exact_quorum_and_threshold() {
    // quorum = 1_000 * 1_000 / 10_000 = 100; 60 for, 40 against is exactly 60 %
    let mut p = proposal(ProposalStatus::Active, 60, 40, 1_000);
    assert_eq!(finalize_proposal(&config(), &mut p), Ok(()));
    assert_eq!(p.status, ProposalStatus::Passed);
}

#[test]
fn finalize_rounds_quorum_down() {
    // quorum = 1_009 * 1_000 / 10_000 = 100.9, rounded down to 100
    let mut p = proposal(ProposalStatus::Active, 100, 0, 1_009);
    assert_eq!(finalize_proposal(&config(), &mut p), Ok(()));
    assert_eq!(p.status, ProposalStatus::Passed);
    let mut q = proposal(ProposalStatus::Active, 100, 0, 1_010);
    assert_eq!(finalize_proposal(&config(), &mut q), Err(GovernanceError::QuorumNotMet));
    assert_eq!(q.status, ProposalStatus::Rejected);
}

#[test]
fn finalize_rejects_just_below_threshold() {
    let mut p = proposal(ProposalStatus::Active, 59, 41, 1_000);
    assert_eq!(finalize_proposal(&config(), &mut p), Ok(()));
    assert_eq!(p.status, ProposalStatus::Rejected);
}

#[test]
fn finalize_rejects_non_positive_snapshot_without_error() {
    let mut p = proposal(ProposalStatus::Active, 500, 0, 0);
    assert_eq!(finalize_proposal(&config(), &mut p), Ok(()));
    assert_eq!(p.status, ProposalStatus::Rejected);
    let mut q = proposal(ProposalStatus::Active, 500, 0, -3);
    assert_eq!(finalize_proposal(&config(), &mut q), Ok(()));
    assert_eq!(q.status, ProposalStatus::Rejected);
}

#[test]
fn finalize_leaves_settled_proposals_alone() {
    for status in [ProposalStatus::Passed, ProposalStatus::Rejected, ProposalStatus::Executed, ProposalStatus::Cancelled] {
        let mut p = proposal(status, 0, 0, 1_000);
        assert_eq!(finalize_proposal(&config(), &mut p), Ok(()));
        assert_eq!(p.status, status);
    }
}

// ── restore ──────────────────────────────────────────────────────────────────

#[test]
fn restore_accepts_a_reachable_state() {
    let p = proposal(ProposalStatus::Active, 3, 4, 1_000);
    let g = Contract::restore(Some(config()), vec![p], vec![(1, addr("v"))]).unwrap();
    assert_eq!(g.proposal_count(), 1);
    let mut g = g;
    assert_eq!(g.vote(1, addr("v"), true, 1, 5), Err(GovernanceError::AlreadyVoted));
    assert_eq!(g.vote(1, addr("w"), true, 1, 5), Ok(()));
}

#[test]
fn restore_refuses_malformed_states() {
    let p = proposal(ProposalStatus::Active, 3, 4, 1_000);
    // proposals without a configuration
    assert!(Contract::restore(None, vec![p.clone()], vec![]).is_none());
    // a gap in the ids
    let mut q = p.clone();
    q.id = 2;
    assert!(Contract::restore(Some(config()), vec![q], vec![]).is_none());
    // a negative tally
    let mut n = p.clone();
    n.votes_against = -1;
    assert!(Contract::restore(Some(config()), vec![n], vec![]).is_none());
    // a ballot on a missing proposal
    assert!(Contract::restore(Some(config()), vec![p.clone()], vec![(2, addr("v"))]).is_none());
    // two ballots by one voter on one proposal
    assert!(Contract::restore(Some(config()), vec![p.clone()], vec![(1, addr("v")), (1, addr("v"))]).is_none());
    // invalid thresholds
    let mut c = config();
    c.pass_bps = 5_000;
    assert!(Contract::restore(Some(c), vec![], vec![]).is_none());
    assert!(Contract::restore(None, vec![], vec![]).is_some());
}

// ── addresses ────────────────────────────────────────────────────────────────

#[test]
fn addresses_compare_by_text() {
    assert_eq!(addr("x"), addr("x"));
    assert_ne!(addr("x"), addr("y"));
    assert_eq!(addr("x").clone().as_str(), "x");
}

// ── checks that callers make before a call ──────────────────────────────────

#[test]
fn initialize_refusal_names_the_reason() {
    let g = Contract::new();
    assert_eq!(g.initialize_refusal(0, 6_000), Some(InitializeRefusal::InvalidQuorum));
    assert_eq!(g.initialize_refusal(10_001, 6_000), Some(InitializeRefusal::InvalidQuorum));
    assert_eq!(g.initialize_refusal(1_000, 5_000), Some(InitializeRefusal::InvalidThreshold));
    assert_eq!(g.initialize_refusal(1_000, 10_001), Some(InitializeRefusal::InvalidThreshold));
    assert_eq!(g.initialize_refusal(10_000, 10_000), None);
    assert_eq!(g.initialize_refusal(1, 5_001), None);
    let h = setup();
    assert_eq!(h.initialize_refusal(1_000, 6_000), Some(InitializeRefusal::AlreadyInitialized));
}

#[test]
fn vote_fits_detects_tally_overflow() {
    let p = proposal(ProposalStatus::Active, i128::MAX - 5, 0, 1_000);
    let g = Contract::restore(Some(config()), vec![p], vec![]).unwrap();
    assert!(g.vote_fits(1, &addr("v"), true, 1, 5));
    assert!(!g.vote_fits(1, &addr("v"), true, 1, 6));
    assert!(g.vote_fits(1, &addr("v"), false, 1, 6));
    // a ballot that is refused anyway adds nothing
    assert!(g.vote_fits(1, &addr("v"), true, 11, 6));
    assert!(g.vote_fits(2, &addr("v"), true, 1, 6));
}

#[test]
fn tally_fits_detects_overflow_in_counting() {
    let c = config();
    assert!(tally_fits(&c, &proposal(ProposalStatus::Active, 60, 40, 1_000)));
    assert!(!tally_fits(&c, &proposal(ProposalStatus::Active, i128::MAX, 1, 1_000)));
    assert!(!tally_fits(&c, &proposal(ProposalStatus::Active, 0, 0, i128::MAX / 10)));
    assert!(!tally_fits(&c, &proposal(ProposalStatus::Active, i128::MAX / 1_000, 0, 1)));
    // a missed quorum is decided before the threshold products
    assert!(tally_fits(&c, &proposal(ProposalStatus::Active, 0, 0, i128::MAX / 1_000)));
    assert!(tally_fits(&c, &proposal(ProposalStatus::Executed, i128::MAX, 1, 1_000)));
    assert!(tally_fits(&c, &proposal(ProposalStatus::Active, i128::MAX, 1, 0)));
}

#[test]
fn execute_and_list_fits_follow_the_tally() {
    let big = proposal(ProposalStatus::Active, i128::MAX / 1_000, 0, 1);
    let g = Contract::restore(Some(config()), vec![big], vec![]).unwrap();
    assert!(g.execute_fits(1, 5));
    assert!(!g.execute_fits(1, 110));
    assert!(g.list_fits(10));
    assert!(!g.list_fits(11));
}

// ── laws on concrete values ──────────────────────────────────────────────────

#[test]
fn proposal_terms_survive_every_operation() {
    let mut g = setup();
    let id = open(&mut g, "p", 3, 1, 1_000).unwrap();
    let terms = |p: &Proposal| {
        format!(
            "{:?}",
            (p.id, &p.proposer, &p.description, &p.target_contract, &p.function_name, &p.calldata, p.created_at,
                p.voting_ends_at, p.execution_delay, p.snapshot_supply)
        )
    };
    let first = terms(&g.get_proposal(id).unwrap());
    g.vote(id, addr("a"), true, 4, 900).unwrap();
    assert_eq!(terms(&g.get_proposal(id).unwrap()), first);
    g.list_proposals(90_000);
    assert_eq!(terms(&g.get_proposal(id).unwrap()), first);
    g.execute_proposal(id, 90_000).unwrap();
    assert_eq!(terms(&g.get_proposal(id).unwrap()), first);
    assert_eq!(g.get_proposal(id).unwrap().status, ProposalStatus::Executed);
    assert_eq!(g.vote(id, addr("b"), true, 4, 1), Err(GovernanceError::ProposalInactive));
    g.list_proposals(99_000);
    assert_eq!(g.get_proposal(id).unwrap().status, ProposalStatus::Executed);
}
