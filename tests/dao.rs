use radixdao::annuity::{InterestDivisor, PayoutOutcome, PayoutPolicy, SECONDS_PER_YEAR};
use radixdao::dao::{Contribution, ProposalOutcome, TokenWeigtedDao};
use radixdao::decimal::{Asset, Decimal};
use radixdao::error::DaoError;
use radixdao::proposal::{ProposalCreationRight, VotingType};

const GOV: u64 = 10;
const OWNER: u64 = 11;
const XRD: u64 = 1;
const FIRST_UNITS: u64 = 100;
const NFT: u64 = 50;
const ISSUER: u64 = 500;
const ALICE: u64 = 601;
const BOB: u64 = 602;
// Midnight UTC on 2024-06-25 and on 2029-06-24.
const NOW: u64 = 1_719_273_600;
const MATURITY: u64 = 1_876_953_600;

fn units(n: u64) -> Decimal {
    Decimal::from_units(n)
}

fn xrd(n: u64) -> Asset {
    Asset { resource: XRD, amount: units(n) }
}

fn gov(n: u64) -> Asset {
    Asset { resource: GOV, amount: units(n) }
}

fn new_dao(right: ProposalCreationRight) -> TokenWeigtedDao {
    let (dao, badge) = TokenWeigtedDao::initiate(
        "Pandao".to_string(),
        100,
        units(5),
        units(4),
        right,
        GOV,
        OWNER,
        XRD,
        FIRST_UNITS,
    );
    assert_eq!(badge, Asset { resource: OWNER, amount: Decimal::one() });
    dao
}

fn issue(dao: &mut TokenWeigtedDao, price: u64) -> u64 {
    dao.issue_ann_token(
        "ANN".to_string(),
        "issuer".to_string(),
        "CONTRACT1234".to_string(),
        units(5),
        "XRD".to_string(),
        NOW,
        MATURITY,
        units(1000),
        "long".to_string(),
        units(price),
        10,
        ISSUER,
        Asset { resource: NFT, amount: Decimal::one() },
        PayoutPolicy { interest_divisor: InterestDivisor::Percent, remaining_from_new_payout: true },
        NOW,
    )
    .unwrap()
}

fn propose(dao: &mut TokenWeigtedDao, quorum: u8, target: Option<u64>, end: u64) -> u64 {
    let (id, token) = dao
        .create_praposal(
            "Buy".to_string(),
            "Buy one annuity".to_string(),
            quorum,
            NOW,
            end,
            target.map(|_| ISSUER),
            target.map(units),
            ALICE,
            gov(1),
            VotingType::ResourceHold,
        )
        .unwrap();
    assert_eq!(token, gov(1));
    id
}

#[test]
fn buying_shares_fills_the_treasury() {
    let mut dao = new_dao(ProposalCreationRight::EVERYONE);
    let (change, shares) = dao.obtain_community_token(xrd(53), units(10)).unwrap();
    assert_eq!(change, xrd(3));
    assert_eq!(shares, gov(10));
    assert_eq!(dao.shares, units(50));
    assert_eq!(dao.dao_token, units(90));
}

#[test]
fn buying_shares_refusals() {
    let mut dao = new_dao(ProposalCreationRight::EVERYONE);
    assert_eq!(dao.obtain_community_token(xrd(49), units(10)), Err(DaoError::InsufficientPayment));
    assert_eq!(dao.obtain_community_token(gov(50), units(10)), Err(DaoError::WrongAssetType));
    assert_eq!(dao.obtain_community_token(xrd(600), units(101)), Err(DaoError::SoldOut));
    assert_eq!(dao.shares, units(0));
}

#[test]
fn redeeming_shares_pays_the_buy_back_price() {
    let mut dao = new_dao(ProposalCreationRight::EVERYONE);
    dao.obtain_community_token(xrd(50), units(10)).unwrap();
    assert_eq!(dao.withdraw_power(gov(5)), Ok(xrd(20)));
    assert_eq!(dao.shares, units(30));
    assert_eq!(dao.dao_token, units(95));
    assert_eq!(dao.withdraw_power(gov(10)), Err(DaoError::InsufficientTreasury));
    assert_eq!(dao.withdraw_power(xrd(1)), Err(DaoError::WrongAssetType));
}

#[test]
fn redeeming_shares_is_blocked_while_proposals_are_open() {
    let mut dao = new_dao(ProposalCreationRight::EVERYONE);
    dao.obtain_community_token(xrd(50), units(10)).unwrap();
    propose(&mut dao, 1, None, NOW + 100);
    assert_eq!(dao.withdraw_power(gov(1)), Err(DaoError::ActiveProposalsExist));
}

#[test]
fn creation_policy_is_enforced() {
    let mut dao = new_dao(ProposalCreationRight::ADMIN);
    let r = dao.create_praposal(
        "t".to_string(),
        "d".to_string(),
        1,
        NOW,
        NOW + 10,
        None,
        None,
        ALICE,
        gov(50),
        VotingType::Equality,
    );
    assert_eq!(r, Err(DaoError::Unauthorized));
    let badge = Asset { resource: OWNER, amount: Decimal::one() };
    let r = dao.create_praposal(
        "t".to_string(),
        "d".to_string(),
        1,
        NOW,
        NOW + 10,
        None,
        None,
        ALICE,
        badge,
        VotingType::Equality,
    );
    assert_eq!(r, Ok((0, badge)));

    let mut dao = new_dao(ProposalCreationRight::TOKEN_HOLDER_THRESHOLD(units(3)));
    let r = dao.create_praposal(
        "t".to_string(),
        "d".to_string(),
        1,
        NOW,
        NOW + 10,
        None,
        None,
        ALICE,
        gov(2),
        VotingType::Equality,
    );
    assert_eq!(r, Err(DaoError::Unauthorized));
    let r = dao.create_praposal(
        "t".to_string(),
        "d".to_string(),
        1,
        NOW,
        NOW + 10,
        None,
        None,
        ALICE,
        gov(3),
        VotingType::Equality,
    );
    assert_eq!(r, Ok((0, gov(3))));

    let mut dao = new_dao(ProposalCreationRight::EVERYONE);
    let half = Asset { resource: GOV, amount: Decimal { attos: 500_000_000_000_000_000 } };
    let r = dao.create_praposal(
        "t".to_string(),
        "d".to_string(),
        1,
        NOW,
        NOW + 10,
        None,
        None,
        ALICE,
        half,
        VotingType::Equality,
    );
    assert_eq!(r, Err(DaoError::Unauthorized));
}

#[test]
fn proposal_on_an_unknown_issuer_is_refused() {
    let mut dao = new_dao(ProposalCreationRight::EVERYONE);
    let r = dao.create_praposal(
        "t".to_string(),
        "d".to_string(),
        1,
        NOW,
        NOW + 10,
        Some(ISSUER),
        Some(units(40)),
        ALICE,
        gov(1),
        VotingType::ResourceHold,
    );
    assert_eq!(r, Err(DaoError::NoSuchIssuer));
    assert_eq!(dao.get_proposal_id(), 0);
}

#[test]
fn proposal_ids_are_never_reused() {
    let mut dao = new_dao(ProposalCreationRight::EVERYONE);
    let a = propose(&mut dao, 0, None, NOW + 10);
    let b = propose(&mut dao, 0, None, NOW + 10);
    assert_ne!(a, b);
    assert!(dao.execute_proposal(a, NOW + 11).is_ok());
    let c = propose(&mut dao, 0, None, NOW + 10);
    assert_ne!(c, a);
    assert_ne!(c, b);
}

#[test]
fn each_voter_counts_once() {
    let mut dao = new_dao(ProposalCreationRight::EVERYONE);
    let id = propose(&mut dao, 2, None, NOW + 100);
    assert_eq!(dao.vote(gov(3), false, BOB, id, NOW + 1), Ok(gov(3)));
    assert_eq!(dao.vote(gov(3), true, BOB, id, NOW + 1), Err(DaoError::AlreadyVoted));
    assert_eq!(dao.vote(gov(2), true, ALICE, id, NOW + 1), Ok(gov(2)));
    let p = &dao.current_praposals[0].proposal;
    assert_eq!(p.get_number_of_voters(), 2);
    assert_eq!(p.voted_for, units(3));
    assert_eq!(p.voted_against, units(2));
    assert_eq!(p.get_vote_caster_addresses(), vec![BOB, ALICE]);
}

#[test]
fn equal_voting_weighs_each_voter_one() {
    let mut dao = new_dao(ProposalCreationRight::EVERYONE);
    let (id, _) = dao
        .create_praposal(
            "t".to_string(),
            "d".to_string(),
            1,
            NOW,
            NOW + 10,
            None,
            None,
            ALICE,
            gov(1),
            VotingType::Equality,
        )
        .unwrap();
    dao.vote(gov(40), false, BOB, id, NOW + 1).unwrap();
    assert_eq!(dao.current_praposals[0].proposal.voted_for, units(1));
}

#[test]
fn vote_refusals() {
    let mut dao = new_dao(ProposalCreationRight::EVERYONE);
    let id = propose(&mut dao, 1, None, NOW + 100);
    assert_eq!(dao.vote(xrd(3), false, BOB, id, NOW + 1), Err(DaoError::WrongAssetType));
    assert_eq!(dao.vote(gov(3), false, BOB, id + 1, NOW + 1), Err(DaoError::NoSuchProposal));
    assert_eq!(dao.current_praposals[0].proposal.get_number_of_voters(), 0);
}

#[test]
fn execution_before_the_end_is_too_early() {
    let mut dao = new_dao(ProposalCreationRight::EVERYONE);
    dao.obtain_community_token(xrd(50), units(10)).unwrap();
    issue(&mut dao, 30);
    let id = propose(&mut dao, 1, Some(40), NOW + 100);
    dao.vote(gov(1), false, BOB, id, NOW + 1).unwrap();
    assert_eq!(dao.execute_proposal(id, NOW + 50), Err(DaoError::TooEarly));
    assert_eq!(dao.execute_proposal(id, NOW + 100), Err(DaoError::TooEarly));
    assert_eq!(dao.shares, units(50));
    assert_eq!(dao.current_praposals.len(), 1);
}

#[test]
fn execution_without_quorum_moves_nothing() {
    let mut dao = new_dao(ProposalCreationRight::EVERYONE);
    dao.obtain_community_token(xrd(50), units(10)).unwrap();
    issue(&mut dao, 30);
    let id = propose(&mut dao, 2, Some(40), NOW + 100);
    dao.vote(gov(1), false, BOB, id, NOW + 1).unwrap();
    assert_eq!(
        dao.execute_proposal(id, NOW + 101),
        Ok(ProposalOutcome::QuorumNotMet { number_of_voters: 1, minimum_quorum: 2 })
    );
    assert_eq!(dao.shares, units(50));
    assert_eq!(dao.current_praposals.len(), 1);
    assert_eq!(dao.current_praposals[0].id, id);
}

#[test]
fn execution_beyond_the_treasury_fails() {
    let mut dao = new_dao(ProposalCreationRight::EVERYONE);
    dao.obtain_community_token(xrd(20), units(4)).unwrap();
    issue(&mut dao, 30);
    let id = propose(&mut dao, 0, Some(40), NOW + 100);
    assert_eq!(dao.execute_proposal(id, NOW + 101), Err(DaoError::InsufficientTreasury));
    assert_eq!(dao.execute_proposal(id + 7, NOW + 101), Err(DaoError::NoSuchProposal));
    assert_eq!(dao.shares, units(20));
}

#[test]
fn governance_round_buys_an_annuity() {
    let mut dao = new_dao(ProposalCreationRight::EVERYONE);
    let (change, shares) = dao.obtain_community_token(xrd(50), units(10)).unwrap();
    assert_eq!(change, xrd(0));
    assert_eq!(shares, gov(10));
    assert_eq!(dao.shares, units(50));
    let resource = issue(&mut dao, 30);
    assert_eq!(resource, FIRST_UNITS);
    let id = propose(&mut dao, 1, Some(40), NOW + 100);
    dao.vote(gov(10), false, BOB, id, NOW + 1).unwrap();
    assert_eq!(dao.execute_proposal(id, NOW + 99), Err(DaoError::TooEarly));
    assert_eq!(
        dao.execute_proposal(id, NOW + 101),
        Ok(ProposalOutcome::QuorumMet { spent: units(30) })
    );
    assert_eq!(dao.shares, units(20));
    assert!(dao.current_praposals.is_empty());
    assert_eq!(dao.ann_tokens, vec![Asset { resource: FIRST_UNITS, amount: Decimal::one() }]);
    assert_eq!(dao.ann_token[0].annuity.units_outstanding, 9);
    assert_eq!(dao.ann_token[0].annuity.collected_funds, units(30));
    assert_eq!(dao.execute_proposal(id, NOW + 102), Err(DaoError::NoSuchProposal));
}

#[test]
fn latest_instrument_of_an_issuer_is_the_active_one() {
    let mut dao = new_dao(ProposalCreationRight::EVERYONE);
    let first = issue(&mut dao, 30);
    let second = issue(&mut dao, 20);
    assert_ne!(first, second);
    assert_eq!(dao.purchase_ann_token(ISSUER, xrd(25)), Ok(xrd(5)));
    assert_eq!(dao.ann_token[0].annuity.units_outstanding, 10);
    assert_eq!(dao.ann_token[1].annuity.units_outstanding, 9);
    assert_eq!(dao.purchase_ann_token(ISSUER, xrd(20)), Ok(xrd(0)));
    assert_eq!(dao.ann_tokens, vec![Asset { resource: second, amount: units(2) }]);
    assert_eq!(dao.purchase_ann_token(ISSUER + 1, xrd(20)), Err(DaoError::NoSuchIssuer));
    assert_eq!(dao.purchase_ann_token(ISSUER, xrd(19)), Err(DaoError::InsufficientPayment));
    assert_eq!(dao.get_bond_creator_addresses(), vec![ISSUER]);
    assert_eq!(dao.get_bond_creators().len(), 2);
}

#[test]
fn issue_with_a_short_term_registers_nothing() {
    let mut dao = new_dao(ProposalCreationRight::EVERYONE);
    let r = dao.issue_ann_token(
        "ANN".to_string(),
        "issuer".to_string(),
        "C".to_string(),
        units(5),
        "XRD".to_string(),
        NOW,
        NOW + 10,
        units(1000),
        "long".to_string(),
        units(10),
        10,
        ISSUER,
        Asset { resource: NFT, amount: Decimal::one() },
        PayoutPolicy { interest_divisor: InterestDivisor::Percent, remaining_from_new_payout: true },
        NOW,
    );
    assert_eq!(r, Err(DaoError::InvalidTerm));
    assert!(dao.get_bond_creators().is_empty());
}

#[test]
fn organization_claims_payouts_into_the_treasury() {
    let mut dao = new_dao(ProposalCreationRight::EVERYONE);
    issue(&mut dao, 300);
    assert_eq!(dao.claim_the_payout(ISSUER, NOW + SECONDS_PER_YEAR), Err(DaoError::NoUnitsHeld));
    dao.purchase_ann_token(ISSUER, xrd(300)).unwrap();
    assert_eq!(
        dao.claim_the_payout(ISSUER, NOW + 10),
        Ok(PayoutOutcome::PrematureClaim { remaining_time: (SECONDS_PER_YEAR - 10) as i128 })
    );
    assert_eq!(dao.check_time_until_next_payout(ISSUER, NOW + 10), Ok((SECONDS_PER_YEAR - 10) as i128));
    assert_eq!(
        dao.claim_the_payout(ISSUER, NOW + SECONDS_PER_YEAR),
        Ok(PayoutOutcome::Paid { payout: xrd(250), remaining_time: SECONDS_PER_YEAR as i128 })
    );
    assert_eq!(dao.shares, units(250));
    assert_eq!(dao.ann_tokens[0].amount, units(1));
    assert_eq!(dao.claim_the_payout(ISSUER + 1, NOW), Err(DaoError::NoSuchIssuer));
    assert_eq!(dao.check_time_until_next_payout(ISSUER + 1, NOW), Err(DaoError::NoSuchIssuer));
}

#[test]
fn organization_seizes_collateral_in_default() {
    let mut dao = new_dao(ProposalCreationRight::EVERYONE);
    issue(&mut dao, 10);
    dao.purchase_ann_token(ISSUER, xrd(10)).unwrap();
    let nft = Asset { resource: NFT, amount: Decimal::one() };
    assert_eq!(
        dao.claim_the_payout(ISSUER, MATURITY + 1),
        Ok(PayoutOutcome::Liquidated { collateral: nft })
    );
    assert_eq!(dao.liquidated_collateral, vec![nft]);
    assert_eq!(dao.claim_the_payout(ISSUER, MATURITY + 2), Err(DaoError::NoCollateral));
}

#[test]
fn issuer_repays_and_gets_the_collateral_back() {
    let mut dao = new_dao(ProposalCreationRight::EVERYONE);
    issue(&mut dao, 10);
    dao.purchase_ann_token(ISSUER, xrd(10)).unwrap();
    assert_eq!(dao.take_out_the_invested_XRDs_by_the_community(ISSUER), Ok(xrd(10)));
    assert_eq!(
        dao.take_out_the_invested_XRDs_by_the_community(ISSUER),
        Err(DaoError::InsufficientFunds)
    );
    let r = dao.put_in_money_plus_interest_for_the_community_to_redeem(ISSUER, xrd(1000));
    assert_eq!(r, Ok((xrd(0), None)));
    let r = dao.put_in_money_plus_interest_for_the_community_to_redeem(ISSUER, xrd(60));
    let nft = Asset { resource: NFT, amount: Decimal::one() };
    assert_eq!(r, Ok((xrd(10), Some(nft))));
    let r = dao.put_in_money_plus_interest_for_the_community_to_redeem(ISSUER, xrd(1));
    assert_eq!(r, Ok((xrd(1), None)));
    let r = dao.put_in_money_plus_interest_for_the_community_to_redeem(ISSUER, gov(1));
    assert_eq!(r, Err(DaoError::WrongAssetType));
    let r = dao.put_in_money_plus_interest_for_the_community_to_redeem(ALICE, xrd(1));
    assert_eq!(r, Err(DaoError::NoSuchIssuer));
}

#[test]
fn contributions_are_recorded_per_contributor() {
    let mut dao = new_dao(ProposalCreationRight::EVERYONE);
    assert_eq!(dao.send_money_to_dao_treasury(xrd(5), ALICE), Ok(xrd(0)));
    assert_eq!(dao.send_money_to_dao_treasury(xrd(7), BOB), Ok(xrd(0)));
    assert_eq!(dao.send_money_to_dao_treasury(xrd(1), ALICE), Ok(xrd(0)));
    assert_eq!(dao.send_money_to_dao_treasury(gov(1), ALICE), Err(DaoError::WrongAssetType));
    assert_eq!(
        dao.get_all_contributors(),
        &vec![
            Contribution { contributor: ALICE, amount: units(6) },
            Contribution { contributor: BOB, amount: units(7) },
        ]
    );
    assert_eq!(dao.shares, units(13));
}

#[test]
fn minting_needs_a_mint_proposal() {
    let mut dao = new_dao(ProposalCreationRight::EVERYONE);
    let id = propose(&mut dao, 0, None, NOW + 10);
    assert_eq!(dao.execute_proposal_to_mint_more_tokens(id, NOW + 5), Err(DaoError::TooEarly));
    assert_eq!(dao.execute_proposal_to_mint_more_tokens(id, NOW + 11), Err(DaoError::NotAMintProposal));
    assert_eq!(dao.execute_proposal_to_mint_more_tokens(id + 1, NOW + 11), Err(DaoError::NoSuchProposal));
    dao.current_praposals[0].proposal.amount_of_tokens_should_be_minted = Some(25);
    assert_eq!(dao.execute_proposal_to_mint_more_tokens(id, NOW + 11), Ok(()));
    assert_eq!(dao.dao_token, units(125));
    dao.mint_more_tokens(5);
    assert_eq!(dao.dao_token, units(130));
}

#[test]
fn queries_list_proposals_and_instruments() {
    let mut dao = new_dao(ProposalCreationRight::EVERYONE);
    let a = propose(&mut dao, 0, None, NOW + 10);
    let (b, _) = dao
        .create_praposal(
            "t".to_string(),
            "d".to_string(),
            3,
            NOW,
            NOW + 20,
            None,
            None,
            BOB,
            gov(1),
            VotingType::Equality,
        )
        .unwrap();
    let c = propose(&mut dao, 0, None, NOW + 10);
    assert_eq!(dao.get_proposals_by_creator(ALICE), vec![a, c]);
    assert_eq!(dao.get_proposals_by_creator(BOB), vec![b]);
    assert!(dao.get_proposals_by_creator(ISSUER).is_empty());
    let p = dao.get_proposal(b).unwrap();
    assert_eq!(p.get_minimum_quorum(), 3);
    assert_eq!(p.get_last_time(), NOW + 20);
    assert_eq!(p.proposal_creator_address, Some(BOB));
    assert!(dao.get_proposal(c + 1).is_none());
    assert!(dao.get_annuity(ISSUER).is_none());
    issue(&mut dao, 30);
    let second = issue(&mut dao, 20);
    assert_eq!(dao.get_annuity(ISSUER).unwrap().get_annuity_address(), second);
}

#[test]
fn range_checks_accept_ordinary_amounts() {
    let mut dao = new_dao(ProposalCreationRight::EVERYONE);
    issue(&mut dao, 30);
    let id = propose(&mut dao, 0, Some(40), NOW + 10);
    assert!(dao.can_execute_within_range(id));
    assert!(dao.can_execute_within_range(id + 1));
    assert!(dao.purchase_within_range(ISSUER));
    assert!(dao.can_claim_within_range(ISSUER));
    dao.shares = Decimal { attos: u128::MAX - 1 };
    assert!(!dao.can_claim_within_range(ISSUER));
    dao.ann_token[0].annuity.collected_funds = Decimal { attos: u128::MAX };
    assert!(!dao.purchase_within_range(ISSUER));
    assert!(!dao.can_execute_within_range(id));
}

#[test]
fn votes_close_at_the_end_time() {
    let mut dao = new_dao(ProposalCreationRight::EVERYONE);
    let id = propose(&mut dao, 1, None, NOW + 100);
    assert_eq!(dao.vote(gov(3), false, BOB, id, NOW + 100), Err(DaoError::VotingClosed));
    assert_eq!(dao.vote(gov(3), false, BOB, id, NOW + 500), Err(DaoError::VotingClosed));
    let p = dao.get_proposal(id).unwrap();
    assert_eq!(p.get_number_of_voters(), 0);
    assert_eq!(p.voted_for, units(0));
    assert_eq!(dao.vote(gov(3), false, BOB, id, NOW + 99), Ok(gov(3)));
}

#[test]
fn target_amount_without_issuer_still_needs_the_treasury() {
    let mut dao = new_dao(ProposalCreationRight::EVERYONE);
    dao.obtain_community_token(xrd(20), units(4)).unwrap();
    let (id, _) = dao
        .create_praposal(
            "t".to_string(),
            "d".to_string(),
            0,
            NOW,
            NOW + 10,
            None,
            Some(units(40)),
            ALICE,
            gov(1),
            VotingType::ResourceHold,
        )
        .unwrap();
    assert_eq!(dao.execute_proposal(id, NOW + 11), Err(DaoError::InsufficientTreasury));
    assert_eq!(dao.current_praposals.len(), 1);
    assert_eq!(dao.shares, units(20));
    let (small, _) = dao
        .create_praposal(
            "t".to_string(),
            "d".to_string(),
            0,
            NOW,
            NOW + 10,
            None,
            Some(units(15)),
            ALICE,
            gov(1),
            VotingType::ResourceHold,
        )
        .unwrap();
    assert_eq!(
        dao.execute_proposal(small, NOW + 11),
        Ok(ProposalOutcome::QuorumMet { spent: units(0) })
    );
    assert_eq!(dao.shares, units(20));
}

#[test]
fn proposal_must_end_after_it_starts() {
    let mut dao = new_dao(ProposalCreationRight::EVERYONE);
    let r = dao.create_praposal(
        "t".to_string(),
        "d".to_string(),
        1,
        NOW,
        NOW,
        None,
        None,
        ALICE,
        gov(1),
        VotingType::Equality,
    );
    assert_eq!(r, Err(DaoError::InvalidVotingPeriod));
    assert_eq!(dao.get_proposal_id(), 0);
}

#[test]
fn vote_and_mint_range_checks() {
    let mut dao = new_dao(ProposalCreationRight::EVERYONE);
    let id = propose(&mut dao, 0, None, NOW + 10);
    assert!(dao.can_vote_within_range(id, gov(3)));
    let huge = Asset { resource: GOV, amount: Decimal { attos: u128::MAX } };
    assert!(dao.can_vote_within_range(id, huge));
    dao.vote(gov(3), false, BOB, id, NOW + 1).unwrap();
    assert!(!dao.can_vote_within_range(id, Asset { resource: GOV, amount: Decimal { attos: u128::MAX } }));
    assert!(dao.can_mint_within_range(id));
    dao.current_praposals[0].proposal.amount_of_tokens_should_be_minted = Some(25);
    assert!(dao.can_mint_within_range(id));
    dao.dao_token = Decimal { attos: u128::MAX - 1 };
    assert!(!dao.can_mint_within_range(id));
}
