use vstd::prelude::*;
use crate::annuity::{Annuity, PayoutOutcome, SECONDS_PER_YEAR};
use crate::dao::{has_id, ProposalEntry, TokenWeigtedDao};
use crate::decimal::{Asset, Decimal};
use crate::error::DaoError;
use crate::registry::lemma_last_index_update;

verus! {

/// A paid claim opens a new year: any further claim before that year is out pays
/// nothing, reports the time still to wait, and leaves the time of the last payout
/// where the paid claim put it.
pub proof fn lemma_second_claim_in_window_is_premature(
    a: Annuity,
    first_unit: Asset,
    first_time: u64,
    second_unit: Asset,
    second_time: u64,
)
    requires
        a.wf(),
        a.claim_result(first_unit, first_time) matches Ok((_, PayoutOutcome::Paid { .. })),
        a.is_one_unit(second_unit),
        second_time < first_time + SECONDS_PER_YEAR,
    ensures
        ({
            let b = a.claim_state(first_unit, first_time);
            &&& b.last_payout_epoch == first_time
            &&& b.claim_result(second_unit, second_time) == Ok::<(Asset, PayoutOutcome), crate::error::DaoError>(
                (
                    second_unit,
                    PayoutOutcome::PrematureClaim {
                        remaining_time: (first_time + SECONDS_PER_YEAR - second_time) as i128,
                    },
                ),
            )
            &&& b.claim_state(second_unit, second_time) == b
        }),
{
}

/// The sum of a sequence of amounts, in attos.
pub open spec fn sum_attos(amounts: Seq<Decimal>) -> int
    decreases amounts.len(),
{
    if amounts.len() == 0 {
        0
    } else {
        sum_attos(amounts.drop_last()) + amounts.last().attos
    }
}

/// The instrument after the issuer pays back each amount of `amounts` in turn.
pub open spec fn repaid_after(a: Annuity, amounts: Seq<Decimal>) -> Annuity
    decreases amounts.len(),
{
    if amounts.len() == 0 {
        a
    } else {
        repaid_after(a, amounts.drop_last()).repay_state(amounts.last())
    }
}

/// Repayments add up to what was paid in, up to what is owed in all and never
/// beyond it; the terms and the collateral stay as they were.
pub proof fn lemma_repayments_add_up_to_cap(a: Annuity, amounts: Seq<Decimal>)
    requires
        a.wf(),
        a.total_amount_deposited.attos == 0,
    ensures
        ({
            let b = repaid_after(a, amounts);
            &&& b.wf()
            &&& b.total_payback() == a.total_payback()
            &&& b.total_amount_deposited.attos == if sum_attos(amounts) <= a.total_payback() {
                sum_attos(amounts)
            } else {
                a.total_payback()
            }
            &&& b.collateral == a.collateral
        }),
    decreases amounts.len(),
{
    if amounts.len() > 0 {
        lemma_repayments_add_up_to_cap(a, amounts.drop_last());
        let p = repaid_after(a, amounts.drop_last());
        assert(p.total_payback() == a.total_payback());
    }
}

/// The collateral goes back to the issuer exactly once: never while anything is still
/// owed, and a second request after it left hands back nothing.
pub proof fn lemma_collateral_released_once(a: Annuity)
    requires
        a.wf(),
    ensures
        !a.is_repaid() ==> a.release_result() is None && a.release_state() == a,
        a.is_repaid() ==> a.release_result() == a.collateral,
        a.release_state().release_result() is None,
{
}

/// Once the repayments reach what is owed, the collateral that was escrowed at issue
/// is released to the issuer, and only then.
pub proof fn lemma_release_when_cap_reached(a: Annuity, amounts: Seq<Decimal>)
    requires
        a.wf(),
        a.total_amount_deposited.attos == 0,
    ensures
        repaid_after(a, amounts).release_result() == if sum_attos(amounts) >= a.total_payback() {
            a.collateral
        } else {
            None
        },
{
    lemma_repayments_add_up_to_cap(a, amounts);
}

/// A vote that goes through adds its voter, who had not voted, to the proposal's
/// voters, so their number only grows; from then on every vote by that voter on the
/// proposal is refused and changes nothing, so each identity weighs in the tally at
/// most once.
pub proof fn lemma_each_voter_counts_once(
    before: TokenWeigtedDao,
    after: TokenWeigtedDao,
    token: Asset,
    againsts: bool,
    account: u64,
    proposal_id: u64,
    now: u64,
    later_token: Asset,
    later_againsts: bool,
    later_now: u64,
)
    requires
        before.wf(),
        before.vote_result(token, againsts, account, proposal_id, now) is Ok,
        TokenWeigtedDao::voted(&before, &after, token, againsts, account, proposal_id),
    ensures
        !before.proposal_of(proposal_id).voters().contains(account),
        after.proposal_index(proposal_id) == before.proposal_index(proposal_id),
        after.proposal_of(proposal_id).voters() == before.proposal_of(proposal_id).voters().push(
            account,
        ),
        after.proposal_of(proposal_id).voters().len() == before.proposal_of(
            proposal_id,
        ).voters().len() + 1,
        after.vote_result(later_token, later_againsts, account, proposal_id, later_now) is Err,
        later_token.resource == after.dao_token_address && later_now < after.proposal_of(
            proposal_id,
        ).end_time ==> after.vote_result(
            later_token,
            later_againsts,
            account,
            proposal_id,
            later_now,
        ) == Err::<Asset, DaoError>(DaoError::AlreadyVoted),
{
    crate::registry::lemma_last_index_where(before.current_praposals@, has_id(proposal_id));
    let i = before.proposal_index(proposal_id);
    let e = before.current_praposals@[i];
    let q = after.current_praposals@[i].proposal;
    lemma_last_index_update(
        before.current_praposals@,
        has_id(proposal_id),
        i,
        ProposalEntry { id: e.id, creator: e.creator, proposal: q },
    );
    assert(after.proposal_of(proposal_id).voters().last() == account);
    assert(after.proposal_of(proposal_id).voters().contains(account));
}

} // verus!
