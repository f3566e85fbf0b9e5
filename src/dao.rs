use vstd::prelude::*;
use crate::annuity::{calendar_term, in_calendar_range, terms_fit, utc_year_of, Annuity, PayoutOutcome, PayoutPolicy};
use crate::decimal::{mul_attos, Asset, Decimal, SCALE};
use crate::error::DaoError;
use crate::proposal::{ProposalCreationRight, TokenWeightProposal, VotingType};
use crate::registry::{last_index_where, lemma_last_index_step, lemma_last_index_where};

verus! {

/// A proposal in the registry, with its id and the identity that created it.
pub struct ProposalEntry {
    pub id: u64,
    pub creator: u64,
    pub proposal: TokenWeightProposal,
}

/// An instrument in the registry, with the identity that issued it.
pub struct IssuedAnnuity {
    pub issuer: u64,
    pub annuity: Annuity,
}

/// What one contributor has given to the treasury in all.
#[derive(Clone, Copy, Debug, PartialEq, Eq, Structural)]
pub struct Contribution {
    pub contributor: u64,
    pub amount: Decimal,
}

/// What an execution attempt that passed its time check led to.
#[derive(Clone, Copy, Debug, PartialEq, Eq, Structural)]
pub enum ProposalOutcome {
    /// Enough voters took part: the target was bought and the proposal closed.
    /// `spent` is what left the treasury once the change came back.
    QuorumMet { spent: Decimal },
    /// Too few voters took part: nothing moved and the proposal stays.
    QuorumNotMet { number_of_voters: usize, minimum_quorum: usize },
}

pub open spec fn has_id(id: u64) -> spec_fn(ProposalEntry) -> bool {
    |e: ProposalEntry| e.id == id
}

pub open spec fn by_issuer(issuer: u64) -> spec_fn(IssuedAnnuity) -> bool {
    |e: IssuedAnnuity| e.issuer == issuer
}

pub open spec fn of_resource(resource: u64) -> spec_fn(Asset) -> bool {
    |a: Asset| a.resource == resource
}

pub open spec fn by_contributor(contributor: u64) -> spec_fn(Contribution) -> bool {
    |c: Contribution| c.contributor == contributor
}

/// `holdings` after `asset` is put in: added to the entry of its resource, or a new
/// entry where there is none.
pub open spec fn with_holding(holdings: Seq<Asset>, asset: Asset) -> Seq<Asset> {
    let i = last_index_where(holdings, of_resource(asset.resource));
    if i >= 0 {
        holdings.update(
            i,
            Asset {
                resource: asset.resource,
                amount: Decimal { attos: (holdings[i].amount.attos + asset.amount.attos) as u128 },
            },
        )
    } else {
        holdings.push(asset)
    }
}

/// `contributions` after `contributor` gives `amount`: added to its record, or a new
/// record where there is none.
pub open spec fn with_contribution(contributions: Seq<Contribution>, contributor: u64, amount: Decimal) -> Seq<Contribution> {
    let i = last_index_where(contributions, by_contributor(contributor));
    if i >= 0 {
        contributions.update(
            i,
            Contribution {
                contributor,
                amount: Decimal { attos: (contributions[i].amount.attos + amount.attos) as u128 },
            },
        )
    } else {
        contributions.push(Contribution { contributor, amount })
    }
}

/// The ids of the proposals in `entries` that `creator` made, in registry order.
pub open spec fn ids_by_creator(entries: Seq<ProposalEntry>, creator: u64) -> Seq<u64>
    decreases entries.len(),
{
    if entries.len() == 0 {
        Seq::empty()
    } else if entries.last().creator == creator {
        ids_by_creator(entries.drop_last(), creator).push(entries.last().id)
    } else {
        ids_by_creator(entries.drop_last(), creator)
    }
}

/// A token-weighted organization: its treasury, governance shares, proposals and
/// the instruments issued through it.
pub struct TokenWeigtedDao {
    pub organization_name: String,
    /// Proposals still open, in order of creation.
    pub current_praposals: Vec<ProposalEntry>,
    /// Governance shares not yet sold.
    pub dao_token: Decimal,
    /// The treasury.
    pub shares: Decimal,
    /// Units of instruments that the organization holds, one entry per resource.
    pub ann_tokens: Vec<Asset>,
    pub dao_token_address: u64,
    pub owner_token_addresss: u64,
    /// The resource that shares are bought with and the treasury holds.
    pub currency: u64,
    pub token_price: Decimal,
    pub buy_back_price: Decimal,
    /// Instruments in order of issue; an issuer's latest is its active one.
    pub ann_token: Vec<IssuedAnnuity>,
    pub contributors: Vec<Contribution>,
    pub proposal_creation_right: ProposalCreationRight,
    /// Collateral seized from instruments in default.
    pub liquidated_collateral: Vec<Asset>,
    pub next_proposal_id: u64,
    /// The resource the next instrument's units get.
    pub next_resource: u64,
}

impl TokenWeigtedDao {
    pub open spec fn wf(&self) -> bool {
        &&& forall|i: int|
            0 <= i < self.current_praposals@.len() ==> {
                let e = #[trigger] self.current_praposals@[i];
                &&& e.proposal.wf()
                &&& e.proposal.voter_badge_address == self.dao_token_address
                &&& e.id < self.next_proposal_id
            }
        &&& forall|i: int, j: int|
            0 <= i < j < self.current_praposals@.len() ==> #[trigger] self.current_praposals@[i].id
                != #[trigger] self.current_praposals@[j].id
        &&& forall|i: int|
            0 <= i < self.ann_token@.len() ==> (#[trigger] self.ann_token@[i]).annuity.wf()
                && self.ann_token@[i].annuity.payment_resource == self.currency
    }

    /// Where the proposal with `id` stands in the registry, or -1.
    pub open spec fn proposal_index(&self, id: u64) -> int {
        last_index_where(self.current_praposals@, has_id(id))
    }

    pub open spec fn proposal_of(&self, id: u64) -> TokenWeightProposal {
        self.current_praposals@[self.proposal_index(id)].proposal
    }

    /// Where the latest instrument of `issuer` stands, or -1.
    pub open spec fn annuity_index(&self, issuer: u64) -> int {
        last_index_where(self.ann_token@, by_issuer(issuer))
    }

    pub open spec fn annuity_of(&self, issuer: u64) -> Annuity {
        self.ann_token@[self.annuity_index(issuer)].annuity
    }

    /// Units of `resource` that the organization holds.
    pub open spec fn holding_of(&self, resource: u64) -> int {
        let i = last_index_where(self.ann_tokens@, of_resource(resource));
        if i >= 0 { self.ann_tokens@[i].amount.attos as int } else { 0 }
    }

    /// What `amount` governance shares cost.
    pub open spec fn share_cost(&self, amount: Decimal) -> int {
        mul_attos(self.token_price.attos as int, amount.attos as int)
    }

    /// What `amount` governance shares are bought back for.
    pub open spec fn share_refund(&self, amount: Decimal) -> int {
        mul_attos(amount.attos as int, self.buy_back_price.attos as int)
    }

    /// Whether showing `token` lets its holder create a proposal.
    pub open spec fn may_create(&self, token: Asset) -> bool {
        match self.proposal_creation_right {
            ProposalCreationRight::EVERYONE => token.resource == self.dao_token_address
                && token.amount.attos >= SCALE,
            ProposalCreationRight::TOKEN_HOLDER_THRESHOLD(t) => token.resource
                == self.dao_token_address && token.amount.attos >= t.attos,
            ProposalCreationRight::ADMIN => token.resource == self.owner_token_addresss
                && token.amount.attos >= SCALE,
        }
    }

    fn find_proposal(&self, id: u64) -> (r: Option<usize>)
        ensures
            r matches Some(i) ==> i == self.proposal_index(id),
            r is None ==> self.proposal_index(id) == -1,
    {
        let mut i: usize = self.current_praposals.len();
        assert(self.current_praposals@.subrange(0, i as int) =~= self.current_praposals@);
        while i > 0
            invariant
                i <= self.current_praposals@.len(),
                self.proposal_index(id) == last_index_where(
                    self.current_praposals@.subrange(0, i as int),
                    has_id(id),
                ),
            decreases i,
        {
            proof {
                lemma_last_index_step(self.current_praposals@, has_id(id), i as int);
            }
            if self.current_praposals[i - 1].id == id {
                return Some(i - 1);
            }
            i = i - 1;
        }
        None
    }

    fn find_annuity(&self, issuer: u64) -> (r: Option<usize>)
        ensures
            r matches Some(i) ==> i == self.annuity_index(issuer),
            r is None ==> self.annuity_index(issuer) == -1,
    {
        let mut i: usize = self.ann_token.len();
        assert(self.ann_token@.subrange(0, i as int) =~= self.ann_token@);
        while i > 0
            invariant
                i <= self.ann_token@.len(),
                self.annuity_index(issuer) == last_index_where(
                    self.ann_token@.subrange(0, i as int),
                    by_issuer(issuer),
                ),
            decreases i,
        {
            proof {
                lemma_last_index_step(self.ann_token@, by_issuer(issuer), i as int);
            }
            if self.ann_token[i - 1].issuer == issuer {
                return Some(i - 1);
            }
            i = i - 1;
        }
        None
    }

    /// Sets up an organization with `token_supply` governance shares for sale and
    /// an empty treasury; the owner badge goes to the caller.
    pub fn initiate(
        organization_name: String,
        token_supply: u64,
        token_price: Decimal,
        token_buy_back_price: Decimal,
        proposal_creation_right: ProposalCreationRight,
        dao_token_address: u64,
        owner_token_address: u64,
        currency: u64,
        first_instrument_resource: u64,
    ) -> (r: (TokenWeigtedDao, Asset))
        ensures
            r.0.wf(),
            r.0.organization_name == organization_name,
            r.0.current_praposals@.len() == 0,
            r.0.dao_token.attos == token_supply * SCALE,
            r.0.shares.attos == 0,
            r.0.ann_tokens@.len() == 0,
            r.0.dao_token_address == dao_token_address,
            r.0.owner_token_addresss == owner_token_address,
            r.0.currency == currency,
            r.0.token_price == token_price,
            r.0.buy_back_price == token_buy_back_price,
            r.0.ann_token@.len() == 0,
            r.0.contributors@.len() == 0,
            r.0.proposal_creation_right == proposal_creation_right,
            r.0.liquidated_collateral@.len() == 0,
            r.0.next_proposal_id == 0,
            r.0.next_resource == first_instrument_resource,
            r.1 == (Asset { resource: owner_token_address, amount: Decimal { attos: SCALE } }),
    {
        let dao = TokenWeigtedDao {
            organization_name,
            current_praposals: Vec::new(),
            dao_token: Decimal::from_units(token_supply),
            shares: Decimal::zero(),
            ann_tokens: Vec::new(),
            dao_token_address,
            owner_token_addresss: owner_token_address,
            currency,
            token_price,
            buy_back_price: token_buy_back_price,
            ann_token: Vec::new(),
            contributors: Vec::new(),
            proposal_creation_right,
            liquidated_collateral: Vec::new(),
            next_proposal_id: 0,
            next_resource: first_instrument_resource,
        };
        (dao, Asset { resource: owner_token_address, amount: Decimal::one() })
    }

    /// Buys `token_amount` governance shares at the share price; the cost goes to the
    /// treasury and the rest of the payment comes back.
    pub fn obtain_community_token(&mut self, xrd: Asset, token_amount: Decimal) -> (r: Result<
        (Asset, Asset),
        DaoError,
    >)
        requires
            old(self).share_cost(token_amount) <= u128::MAX,
            old(self).shares.attos + old(self).share_cost(token_amount) <= u128::MAX,
        ensures
            xrd.resource != old(self).currency ==> r == Err::<(Asset, Asset), DaoError>(
                DaoError::WrongAssetType,
            ),
            xrd.resource == old(self).currency && xrd.amount.attos < old(self).share_cost(
                token_amount,
            ) ==> r == Err::<(Asset, Asset), DaoError>(DaoError::InsufficientPayment),
            xrd.resource == old(self).currency && xrd.amount.attos >= old(self).share_cost(
                token_amount,
            ) && token_amount.attos > old(self).dao_token.attos ==> r == Err::<
                (Asset, Asset),
                DaoError,
            >(DaoError::SoldOut),
            r is Err ==> *final(self) == *old(self),
            r matches Ok((change, power)) ==> {
                let cost = old(self).share_cost(token_amount);
                &&& change == Asset {
                    resource: xrd.resource,
                    amount: Decimal { attos: (xrd.amount.attos - cost) as u128 },
                }
                &&& power == Asset { resource: old(self).dao_token_address, amount: token_amount }
                &&& *final(self) == (TokenWeigtedDao {
                    shares: Decimal { attos: (old(self).shares.attos + cost) as u128 },
                    dao_token: Decimal {
                        attos: (old(self).dao_token.attos - token_amount.attos) as u128,
                    },
                    ..*old(self)
                })
            },
            xrd.resource == old(self).currency && xrd.amount.attos >= old(self).share_cost(
                token_amount,
            ) && token_amount.attos <= old(self).dao_token.attos ==> r is Ok,
    {
        if xrd.resource != self.currency {
            return Err(DaoError::WrongAssetType);
        }
        let cost = self.token_price.mul(token_amount);
        if xrd.amount.attos < cost.attos {
            return Err(DaoError::InsufficientPayment);
        }
        if token_amount.attos > self.dao_token.attos {
            return Err(DaoError::SoldOut);
        }
        self.shares = self.shares.add(cost);
        self.dao_token = self.dao_token.sub(token_amount);
        Ok(
            (
                Asset { resource: xrd.resource, amount: xrd.amount.sub(cost) },
                Asset { resource: self.dao_token_address, amount: token_amount },
            ),
        )
    }

    /// Sells governance shares back at the buy-back price, which is refused while any
    /// proposal is open.
    pub fn withdraw_power(&mut self, voting_power: Asset) -> (r: Result<Asset, DaoError>)
        requires
            old(self).share_refund(voting_power.amount) <= u128::MAX,
            old(self).dao_token.attos + voting_power.amount.attos <= u128::MAX,
        ensures
            voting_power.resource != old(self).dao_token_address ==> r == Err::<Asset, DaoError>(
                DaoError::WrongAssetType,
            ),
            voting_power.resource == old(self).dao_token_address && old(
                self,
            ).current_praposals@.len() > 0 ==> r == Err::<Asset, DaoError>(
                DaoError::ActiveProposalsExist,
            ),
            voting_power.resource == old(self).dao_token_address && old(
                self,
            ).current_praposals@.len() == 0 && old(self).share_refund(voting_power.amount) > old(
                self,
            ).shares.attos ==> r == Err::<Asset, DaoError>(DaoError::InsufficientTreasury),
            r is Err ==> *final(self) == *old(self),
            voting_power.resource == old(self).dao_token_address && old(
                self,
            ).current_praposals@.len() == 0 && old(self).share_refund(voting_power.amount) <= old(
                self,
            ).shares.attos ==> {
                let refund = old(self).share_refund(voting_power.amount);
                &&& r == Ok::<Asset, DaoError>(
                    Asset { resource: old(self).currency, amount: Decimal { attos: refund as u128 } },
                )
                &&& *final(self) == (TokenWeigtedDao {
                    shares: Decimal { attos: (old(self).shares.attos - refund) as u128 },
                    dao_token: Decimal {
                        attos: (old(self).dao_token.attos + voting_power.amount.attos) as u128,
                    },
                    ..*old(self)
                })
            },
    {
        if voting_power.resource != self.dao_token_address {
            return Err(DaoError::WrongAssetType);
        }
        if self.current_praposals.len() > 0 {
            return Err(DaoError::ActiveProposalsExist);
        }
        let refund = voting_power.amount.mul(self.buy_back_price);
        if refund.attos > self.shares.attos {
            return Err(DaoError::InsufficientTreasury);
        }
        self.shares = self.shares.sub(refund);
        self.dao_token = self.dao_token.add(voting_power.amount);
        Ok(Asset { resource: self.currency, amount: refund })
    }

    /// The id the next proposal gets; ids are never reused.
    pub fn get_proposal_id(&self) -> (r: u64)
        ensures
            r == self.next_proposal_id,
    {
        self.next_proposal_id
    }

    /// Opens a proposal for the holder of `governance_token_or_owner_token_address`,
    /// which the creation policy must accept and which comes back. The proposal must
    /// end after it starts. The id is returned.
    pub fn create_praposal(
        &mut self,
        title: String,
        description: String,
        minimun_quorum: u8,
        start_time: u64,
        end_time: u64,
        address_issued_bonds_to_sell: Option<u64>,
        target_xrd_amount: Option<Decimal>,
        proposal_creator_address: u64,
        governance_token_or_owner_token_address: Asset,
        voting_type: VotingType,
    ) -> (r: Result<(u64, Asset), DaoError>)
        requires
            old(self).wf(),
            old(self).next_proposal_id < u64::MAX,
        ensures
            final(self).wf(),
            !old(self).may_create(governance_token_or_owner_token_address) ==> r == Err::<
                (u64, Asset),
                DaoError,
            >(DaoError::Unauthorized),
            old(self).may_create(governance_token_or_owner_token_address) && end_time <= start_time
                ==> r == Err::<(u64, Asset), DaoError>(DaoError::InvalidVotingPeriod),
            old(self).may_create(governance_token_or_owner_token_address) && end_time > start_time
                && (address_issued_bonds_to_sell matches Some(b) && old(self).annuity_index(b) < 0) ==> r == Err::<(u64, Asset), DaoError>(DaoError::NoSuchIssuer),
            r is Err ==> *final(self) == *old(self),
            old(self).may_create(governance_token_or_owner_token_address) && end_time > start_time
                && (address_issued_bonds_to_sell matches Some(b) ==> old(self).annuity_index(b)
                >= 0) ==> r is Ok,
            r matches Ok((id, token)) ==> {
                &&& id == old(self).next_proposal_id
                &&& token == governance_token_or_owner_token_address
                &&& final(self).current_praposals@.len() == old(self).current_praposals@.len() + 1
                &&& final(self).current_praposals@.drop_last() == old(self).current_praposals@
                &&& final(self).proposal_index(id) == old(self).current_praposals@.len()
                &&& ({
                    let e = final(self).current_praposals@.last();
                    &&& e.id == id
                    &&& e.creator == proposal_creator_address
                    &&& e.proposal.title == title
                    &&& e.proposal.description == description
                    &&& e.proposal.minimum_quorum == minimun_quorum as usize
                    &&& e.proposal.start_time == start_time
                    &&& e.proposal.end_time == end_time
                    &&& e.proposal.address_issued_bonds_to_sell == address_issued_bonds_to_sell
                    &&& e.proposal.target_xrd_amount == target_xrd_amount
                    &&& e.proposal.voting_type == voting_type
                    &&& e.proposal.voters().len() == 0
                    &&& e.proposal.voted_for.attos == 0
                    &&& e.proposal.voted_against.attos == 0
                    &&& e.proposal.voter_badge_address == old(self).dao_token_address
                })
                &&& *final(self) == (TokenWeigtedDao {
                    current_praposals: final(self).current_praposals,
                    next_proposal_id: (old(self).next_proposal_id + 1) as u64,
                    ..*old(self)
                })
            },
    {
        let token = governance_token_or_owner_token_address;
        let allowed = match self.proposal_creation_right {
            ProposalCreationRight::EVERYONE => token.resource == self.dao_token_address
                && token.amount.attos >= SCALE,
            ProposalCreationRight::TOKEN_HOLDER_THRESHOLD(t) => token.resource
                == self.dao_token_address && token.amount.attos >= t.attos,
            ProposalCreationRight::ADMIN => token.resource == self.owner_token_addresss
                && token.amount.attos >= SCALE,
        };
        if !allowed {
            return Err(DaoError::Unauthorized);
        }
        if end_time <= start_time {
            return Err(DaoError::InvalidVotingPeriod);
        }
        if let Some(b) = address_issued_bonds_to_sell {
            if self.find_annuity(b).is_none() {
                return Err(DaoError::NoSuchIssuer);
            }
        }
        let id = self.next_proposal_id;
        let proposal = TokenWeightProposal::new(
            title,
            description,
            minimun_quorum,
            start_time,
            end_time,
            self.owner_token_addresss,
            self.dao_token_address,
            address_issued_bonds_to_sell,
            target_xrd_amount,
            Some(proposal_creator_address),
            None,
            voting_type,
        );
        let ghost before = self.current_praposals@;
        self.current_praposals.push(ProposalEntry { id, creator: proposal_creator_address, proposal });
        self.next_proposal_id = id + 1;
        proof {
            assert(self.current_praposals@.drop_last() =~= before);
            assert(has_id(id)(self.current_praposals@.last()));
        }
        Ok((id, token))
    }

    /// Whether buying one unit from the latest instrument of `issuer` keeps every
    /// amount within range.
    pub open spec fn purchase_fits(&self, issuer: u64) -> bool {
        self.annuity_index(issuer) >= 0 ==> {
            let a = self.annuity_of(issuer);
            &&& a.collected_funds.attos + a.price.attos <= u128::MAX
            &&& self.holding_of(a.unit_resource) + SCALE <= u128::MAX
        }
    }

    /// Whether executing `proposal_id` at `now` keeps every amount within range: only
    /// a purchase can leave it.
    pub open spec fn execution_fits(&self, proposal_id: u64, now: u64) -> bool {
        self.proposal_index(proposal_id) >= 0 ==> {
            let p = self.proposal_of(proposal_id);
            now > p.end_time && p.voters().len() >= p.minimum_quorum
                && p.target_xrd_amount is Some && p.address_issued_bonds_to_sell is Some
                ==> self.purchase_fits(p.address_issued_bonds_to_sell->Some_0)
        }
    }

    /// `new` is `old` after one unit of the latest instrument of `issuer` was bought
    /// and stored.
    pub open spec fn bought(old: &TokenWeigtedDao, new: &TokenWeigtedDao, issuer: u64) -> bool {
        let i = old.annuity_index(issuer);
        let a = old.annuity_of(issuer);
        &&& new.ann_token@ == old.ann_token@.update(
            i,
            IssuedAnnuity { issuer, annuity: a.sold_one() },
        )
        &&& new.ann_tokens@ == with_holding(
            old.ann_tokens@,
            Asset { resource: a.unit_resource, amount: Decimal { attos: SCALE } },
        )
    }

    /// What a vote by `account` with `token` on `proposal_id` at `now` returns.
    pub open spec fn vote_result(
        &self,
        token: Asset,
        againsts: bool,
        account: u64,
        proposal_id: u64,
        now: u64,
    ) -> Result<Asset, DaoError> {
        if self.proposal_index(proposal_id) < 0 {
            Err(DaoError::NoSuchProposal)
        } else if token.resource != self.dao_token_address {
            Err(DaoError::WrongAssetType)
        } else if now >= self.proposal_of(proposal_id).end_time {
            Err(DaoError::VotingClosed)
        } else if self.proposal_of(proposal_id).voters().contains(account) {
            Err(DaoError::AlreadyVoted)
        } else {
            Ok(token)
        }
    }

    /// `new` is `old` after `account` voted with `token` on `proposal_id`: the weight
    /// joins one side of the tally once, the account joins the voters, and nothing
    /// else changes.
    pub open spec fn voted(
        old: &TokenWeigtedDao,
        new: &TokenWeigtedDao,
        token: Asset,
        againsts: bool,
        account: u64,
        proposal_id: u64,
    ) -> bool {
        let i = old.proposal_index(proposal_id);
        let e = old.current_praposals@[i];
        let q = new.current_praposals@[i].proposal;
        &&& new.current_praposals@ == old.current_praposals@.update(
            i,
            ProposalEntry { id: e.id, creator: e.creator, proposal: q },
        )
        &&& q.voters() == e.proposal.voters().push(account)
        &&& q == (TokenWeightProposal {
            vote_caster_addresses: q.vote_caster_addresses,
            ..e.proposal.tallied(token, againsts)
        })
        &&& *new == (TokenWeigtedDao { current_praposals: new.current_praposals, ..*old })
    }

    /// Casts the vote of `account` on a proposal with a governance token, which comes
    /// back. Votes are taken only before the proposal's end time, and each account
    /// votes at most once.
    pub fn vote(
        &mut self,
        token: Asset,
        againsts: bool,
        account: u64,
        proposal_id: u64,
        now: u64,
    ) -> (r: Result<Asset, DaoError>)
        requires
            old(self).wf(),
            old(self).proposal_index(proposal_id) >= 0 ==> old(self).proposal_of(
                proposal_id,
            ).tally_fits(token),
        ensures
            final(self).wf(),
            r == old(self).vote_result(token, againsts, account, proposal_id, now),
            r is Err ==> *final(self) == *old(self),
            r is Ok ==> Self::voted(&*old(self), &*final(self), token, againsts, account, proposal_id),
    {
        let i = match self.find_proposal(proposal_id) {
            Some(i) => i,
            None => return Err(DaoError::NoSuchProposal),
        };
        proof {
            lemma_last_index_where(self.current_praposals@, has_id(proposal_id));
        }
        if token.resource != self.dao_token_address {
            return Err(DaoError::WrongAssetType);
        }
        if now >= self.current_praposals[i].proposal.get_last_time() {
            return Err(DaoError::VotingClosed);
        }
        if self.current_praposals[i].proposal.has_voted(account) {
            return Err(DaoError::AlreadyVoted);
        }
        let ghost before = self.current_praposals@;
        let result = self.current_praposals[i].proposal.vote(token, againsts, now);
        let ghost mid = self.current_praposals@;
        assert(mid[i as int].proposal == before[i as int].proposal.tallied(token, againsts));
        self.current_praposals[i].proposal.set_vote_caster_address(account);
        proof {
            let q = self.current_praposals@[i as int].proposal;
            assert(q == (TokenWeightProposal {
                vote_caster_addresses: q.vote_caster_addresses,
                ..before[i as int].proposal.tallied(token, againsts)
            }));
            assert(self.current_praposals@ =~= before.update(
                i as int,
                ProposalEntry { id: before[i as int].id, creator: before[i as int].creator, proposal: q },
            ));
            assert forall|j: int| 0 <= j < self.current_praposals@.len() implies {
                let e = #[trigger] self.current_praposals@[j];
                &&& e.proposal.wf()
                &&& e.proposal.voter_badge_address == self.dao_token_address
                &&& e.id < self.next_proposal_id
            } by {
                if j != i {
                    assert(self.current_praposals@[j] == before[j]);
                }
            }
            assert forall|j: int, k: int|
                0 <= j < k < self.current_praposals@.len() implies #[trigger] self.current_praposals@[j].id
                != #[trigger] self.current_praposals@[k].id by {
                assert(self.current_praposals@[j].id == before[j].id);
                assert(self.current_praposals@[k].id == before[k].id);
            }
        }
        result
    }

    fn find_holding(&self, resource: u64) -> (r: Option<usize>)
        ensures
            r matches Some(i) ==> i == last_index_where(self.ann_tokens@, of_resource(resource)),
            r is None ==> last_index_where(self.ann_tokens@, of_resource(resource)) == -1,
    {
        let mut i: usize = self.ann_tokens.len();
        assert(self.ann_tokens@.subrange(0, i as int) =~= self.ann_tokens@);
        while i > 0
            invariant
                i <= self.ann_tokens@.len(),
                last_index_where(self.ann_tokens@, of_resource(resource)) == last_index_where(
                    self.ann_tokens@.subrange(0, i as int),
                    of_resource(resource),
                ),
            decreases i,
        {
            proof {
                lemma_last_index_step(self.ann_tokens@, of_resource(resource), i as int);
            }
            if self.ann_tokens[i - 1].resource == resource {
                return Some(i - 1);
            }
            i = i - 1;
        }
        None
    }

    /// Stores instrument units that the organization bought.
    pub fn update_ann_vault_and_store(&mut self, desired_ann_token: Asset)
        requires
            old(self).holding_of(desired_ann_token.resource) + desired_ann_token.amount.attos
                <= u128::MAX,
        ensures
            final(self).ann_tokens@ == with_holding(old(self).ann_tokens@, desired_ann_token),
            *final(self) == (TokenWeigtedDao { ann_tokens: final(self).ann_tokens, ..*old(self) }),
    {
        match self.find_holding(desired_ann_token.resource) {
            Some(i) => {
                proof {
                    lemma_last_index_where(self.ann_tokens@, of_resource(desired_ann_token.resource));
                }
                let held = self.ann_tokens[i].amount;
                self.ann_tokens.set(
                    i,
                    Asset { resource: desired_ann_token.resource, amount: held.add(desired_ann_token.amount) },
                );
            },
            None => {
                self.ann_tokens.push(desired_ann_token);
            },
        }
    }

    /// Buys one unit from the latest instrument of `issuer` and stores it; the change
    /// of the payment comes back.
    pub fn purchase_ann_token(&mut self, ann_token_creator_address: u64, payment: Asset) -> (r:
        Result<Asset, DaoError>)
        requires
            old(self).wf(),
            old(self).purchase_fits(ann_token_creator_address),
        ensures
            final(self).wf(),
            old(self).annuity_index(ann_token_creator_address) < 0 ==> r == Err::<Asset, DaoError>(
                DaoError::NoSuchIssuer,
            ),
            old(self).annuity_index(ann_token_creator_address) >= 0 ==> {
                let a = old(self).annuity_of(ann_token_creator_address);
                &&& payment.resource != a.payment_resource ==> r == Err::<Asset, DaoError>(
                    DaoError::WrongAssetType,
                )
                &&& payment.resource == a.payment_resource && payment.amount.attos < a.price.attos
                    ==> r == Err::<Asset, DaoError>(DaoError::InsufficientPayment)
                &&& payment.resource == a.payment_resource && payment.amount.attos
                    >= a.price.attos && a.units_outstanding == 0 ==> r == Err::<Asset, DaoError>(
                    DaoError::SoldOut,
                )
                &&& payment.resource == a.payment_resource && payment.amount.attos
                    >= a.price.attos && a.units_outstanding > 0 ==> r == Ok::<Asset, DaoError>(
                    Asset {
                        resource: payment.resource,
                        amount: Decimal { attos: (payment.amount.attos - a.price.attos) as u128 },
                    },
                )
            },
            r is Err ==> *final(self) == *old(self),
            r is Ok ==> Self::bought(&*old(self), &*final(self), ann_token_creator_address)
                && *final(self) == (TokenWeigtedDao {
                ann_token: final(self).ann_token,
                ann_tokens: final(self).ann_tokens,
                ..*old(self)
            }),
    {
        let i = match self.find_annuity(ann_token_creator_address) {
            Some(i) => i,
            None => return Err(DaoError::NoSuchIssuer),
        };
        proof {
            lemma_last_index_where(self.ann_token@, by_issuer(ann_token_creator_address));
        }
        if let Some(e) = self.ann_token[i].annuity.purchase_refusal(payment) {
            return Err(e);
        }
        let ghost before = self.ann_token@;
        let (unit, change) = match self.ann_token[i].annuity.purchase_annuity(payment) {
            Ok(pair) => pair,
            Err(e) => return Err(e),
        };
        proof {
            assert forall|j: int| 0 <= j < self.ann_token@.len() implies (#[trigger] self.ann_token@[j]).annuity.wf()
                && self.ann_token@[j].annuity.payment_resource == self.currency by {
                if j != i {
                    assert(self.ann_token@[j] == before[j]);
                }
            }
        }
        self.update_ann_vault_and_store(unit);
        Ok(change)
    }

    /// Executes a proposal once its voting time is over: with enough voters it spends
    /// its target amount on a unit of the target instrument, takes the change back
    /// into the treasury and closes; with too few it stays as it is. The treasury
    /// must hold any target amount; a proposal that names no instrument, or no
    /// amount, buys nothing and closes.
    pub fn execute_proposal(&mut self, proposal_id: u64, now: u64) -> (r: Result<
        ProposalOutcome,
        DaoError,
    >)
        requires
            old(self).wf(),
            old(self).execution_fits(proposal_id, now),
        ensures
            final(self).wf(),
            r is Err ==> *final(self) == *old(self),
            old(self).proposal_index(proposal_id) < 0 ==> r == Err::<ProposalOutcome, DaoError>(
                DaoError::NoSuchProposal,
            ),
            old(self).proposal_index(proposal_id) >= 0 ==> {
                let i = old(self).proposal_index(proposal_id);
                let p = old(self).proposal_of(proposal_id);
                &&& now <= p.end_time ==> r == Err::<ProposalOutcome, DaoError>(DaoError::TooEarly)
                &&& now > p.end_time && p.voters().len() < p.minimum_quorum ==> r == Ok::<
                    ProposalOutcome,
                    DaoError,
                >(
                    ProposalOutcome::QuorumNotMet {
                        number_of_voters: p.voters().len() as usize,
                        minimum_quorum: p.minimum_quorum,
                    },
                ) && *final(self) == *old(self)
                &&& now > p.end_time && p.voters().len() >= p.minimum_quorum ==> match (
                    p.address_issued_bonds_to_sell,
                    p.target_xrd_amount,
                ) {
                    (Some(b), Some(t)) => {
                        let a = old(self).annuity_of(b);
                        &&& t.attos > old(self).shares.attos ==> r == Err::<
                            ProposalOutcome,
                            DaoError,
                        >(DaoError::InsufficientTreasury)
                        &&& t.attos <= old(self).shares.attos && old(self).annuity_index(b) < 0
                            ==> r == Err::<ProposalOutcome, DaoError>(DaoError::NoSuchIssuer)
                        &&& t.attos <= old(self).shares.attos && old(self).annuity_index(b) >= 0
                            && t.attos < a.price.attos
                            ==> r == Err::<ProposalOutcome, DaoError>(
                            DaoError::InsufficientPayment,
                        )
                        &&& t.attos <= old(self).shares.attos && old(self).annuity_index(b) >= 0
                            && t.attos >= a.price.attos
                            && a.units_outstanding == 0 ==> r == Err::<ProposalOutcome, DaoError>(
                            DaoError::SoldOut,
                        )
                        &&& t.attos <= old(self).shares.attos && old(self).annuity_index(b) >= 0
                            && t.attos >= a.price.attos
                            && a.units_outstanding > 0 ==> {
                            &&& r == Ok::<ProposalOutcome, DaoError>(
                                ProposalOutcome::QuorumMet { spent: a.price },
                            )
                            &&& final(self).current_praposals@ == old(
                                self,
                            ).current_praposals@.remove(i)
                            &&& final(self).shares.attos == old(self).shares.attos - a.price.attos
                            &&& Self::bought(&*old(self), &*final(self), b)
                            &&& *final(self) == (TokenWeigtedDao {
                                current_praposals: final(self).current_praposals,
                                shares: final(self).shares,
                                ann_token: final(self).ann_token,
                                ann_tokens: final(self).ann_tokens,
                                ..*old(self)
                            })
                        }
                    },
                    (_, Some(t)) if t.attos > old(self).shares.attos => r == Err::<
                        ProposalOutcome,
                        DaoError,
                    >(DaoError::InsufficientTreasury),
                    _ => {
                        &&& r == Ok::<ProposalOutcome, DaoError>(
                            ProposalOutcome::QuorumMet { spent: Decimal { attos: 0 } },
                        )
                        &&& final(self).current_praposals@ == old(self).current_praposals@.remove(i)
                        &&& *final(self) == (TokenWeigtedDao {
                            current_praposals: final(self).current_praposals,
                            ..*old(self)
                        })
                    },
                }
            },
    {
        let i = match self.find_proposal(proposal_id) {
            Some(i) => i,
            None => return Err(DaoError::NoSuchProposal),
        };
        proof {
            lemma_last_index_where(self.current_praposals@, has_id(proposal_id));
        }
        let end_time = self.current_praposals[i].proposal.get_last_time();
        if now <= end_time {
            return Err(DaoError::TooEarly);
        }
        let number_of_voters = self.current_praposals[i].proposal.get_number_of_voters();
        let minimum_quorum = self.current_praposals[i].proposal.get_minimum_quorum();
        if number_of_voters < minimum_quorum {
            return Ok(ProposalOutcome::QuorumNotMet { number_of_voters, minimum_quorum });
        }
        let issuer = self.current_praposals[i].proposal.get_address_issued_bonds();
        let target = self.current_praposals[i].proposal.get_target_xrd_amount();
        if let Some(t) = target {
            if t.attos > self.shares.attos {
                return Err(DaoError::InsufficientTreasury);
            }
        }
        let mut spent = Decimal::zero();
        if let (Some(b), Some(t)) = (issuer, target) {
            proof {
                lemma_last_index_where(self.ann_token@, by_issuer(b));
            }
            let payment = Asset { resource: self.currency, amount: t };
            let change = match self.purchase_ann_token(b, payment) {
                Ok(c) => c,
                Err(e) => return Err(e),
            };
            spent = t.sub(change.amount);
            self.shares = self.shares.sub(spent);
        }
        let ghost before = self.current_praposals@;
        self.current_praposals.remove(i);
        proof {
            assert forall|j: int| 0 <= j < self.current_praposals@.len() implies {
                let e = #[trigger] self.current_praposals@[j];
                &&& e.proposal.wf()
                &&& e.proposal.voter_badge_address == self.dao_token_address
                &&& e.id < self.next_proposal_id
            } by {
                if j < i {
                    assert(self.current_praposals@[j] == before[j]);
                } else {
                    assert(self.current_praposals@[j] == before[j + 1]);
                }
            }
            assert forall|j: int, k: int|
                0 <= j < k < self.current_praposals@.len() implies #[trigger] self.current_praposals@[j].id
                != #[trigger] self.current_praposals@[k].id by {
                let j2 = if j < i { j } else { j + 1 };
                let k2 = if k < i { k } else { k + 1 };
                assert(self.current_praposals@[j] == before[j2]);
                assert(self.current_praposals@[k] == before[k2]);
            }
        }
        Ok(ProposalOutcome::QuorumMet { spent })
    }

    /// What `contributor` has given so far.
    pub open spec fn contribution_of(&self, contributor: u64) -> int {
        let i = last_index_where(self.contributors@, by_contributor(contributor));
        if i >= 0 { self.contributors@[i].amount.attos as int } else { 0 }
    }

    /// Issues an instrument for `your_address`, escrowing its collateral; its units
    /// get a fresh resource, which is returned. The instrument becomes the issuer's
    /// active one.
    pub fn issue_ann_token(
        &mut self,
        contract_type: String,
        contract_role: String,
        contract_identifier: String,
        nominal_interest_rate: Decimal,
        currency: String,
        initial_exchange_date: u64,
        maturity_date: u64,
        notional_principal: Decimal,
        annuity_position: String,
        price: Decimal,
        number_of_annuities_to_mint: u64,
        your_address: u64,
        nft_as_a_collateral: Asset,
        payout_policy: PayoutPolicy,
        now: u64,
    ) -> (r: Result<u64, DaoError>)
        requires
            old(self).wf(),
            old(self).next_resource < u64::MAX,
            terms_fit(notional_principal, nominal_interest_rate),
        ensures
            final(self).wf(),
            r matches Err(e) ==> e == DaoError::InvalidTerm && *final(self) == *old(self),
            maturity_date <= i64::MAX && now <= i64::MAX && utc_year_of(
                maturity_date as i64,
            ) - utc_year_of(now as i64) < 1 ==> r is Err,
            in_calendar_range(maturity_date) && in_calendar_range(now) && calendar_term(
                maturity_date,
                now,
            ) >= 1 ==> r is Ok,
            r matches Ok(resource) ==> {
                let a = final(self).ann_token@.last().annuity;
                &&& resource == old(self).next_resource
                &&& final(self).ann_token@.drop_last() == old(self).ann_token@
                &&& final(self).ann_token@.last().issuer == your_address
                &&& final(self).annuity_index(your_address) == old(self).ann_token@.len()
                &&& maturity_date <= i64::MAX && now <= i64::MAX
                &&& a.term_years == utc_year_of(maturity_date as i64)
                    - utc_year_of(now as i64)
                &&& Annuity::is_issued(
                    a,
                    nominal_interest_rate,
                    initial_exchange_date,
                    maturity_date,
                    notional_principal,
                    price,
                    number_of_annuities_to_mint,
                    nft_as_a_collateral,
                    resource,
                    old(self).currency,
                    payout_policy,
                    a.term_years,
                )
                &&& *final(self) == (TokenWeigtedDao {
                    ann_token: final(self).ann_token,
                    next_resource: (old(self).next_resource + 1) as u64,
                    ..*old(self)
                })
            },
    {
        let resource = self.next_resource;
        let annuity = match Annuity::instantiate_annuity(
            contract_type,
            contract_role,
            contract_identifier,
            nominal_interest_rate,
            currency,
            initial_exchange_date,
            maturity_date,
            notional_principal,
            annuity_position,
            price,
            number_of_annuities_to_mint,
            nft_as_a_collateral,
            resource,
            self.currency,
            payout_policy,
            now,
        ) {
            Ok(a) => a,
            Err(e) => return Err(e),
        };
        let ghost before = self.ann_token@;
        self.ann_token.push(IssuedAnnuity { issuer: your_address, annuity });
        self.next_resource = resource + 1;
        proof {
            assert(self.ann_token@.drop_last() =~= before);
            assert(by_issuer(your_address)(self.ann_token@.last()));
        }
        Ok(resource)
    }

    /// Every instrument in order of issue, with its issuer.
    pub fn get_bond_creators(&self) -> (r: &Vec<IssuedAnnuity>)
        ensures
            r@ == self.ann_token@,
    {
        &self.ann_token
    }

    /// The identities that have issued an instrument, each once, in order of their
    /// first issue.
    pub fn get_bond_creator_addresses(&self) -> (r: Vec<u64>)
        ensures
            r@.no_duplicates(),
            forall|x: u64|
                r@.contains(x) <==> exists|i: int|
                    0 <= i < self.ann_token@.len() && (#[trigger] self.ann_token@[i]).issuer == x,
    {
        let mut r: Vec<u64> = Vec::new();
        let mut i: usize = 0;
        while i < self.ann_token.len()
            invariant
                i <= self.ann_token@.len(),
                r@.no_duplicates(),
                forall|x: u64|
                    r@.contains(x) <==> exists|j: int|
                        0 <= j < i && (#[trigger] self.ann_token@[j]).issuer == x,
            decreases self.ann_token.len() - i,
        {
            let issuer = self.ann_token[i].issuer;
            let mut seen = false;
            let mut k: usize = 0;
            while k < r.len()
                invariant
                    k <= r@.len(),
                    seen == exists|m: int| 0 <= m < k && r@[m] == issuer,
                decreases r.len() - k,
            {
                if r[k] == issuer {
                    seen = true;
                }
                k = k + 1;
            }
            let ghost r0 = r@;
            if !seen {
                r.push(issuer);
                proof {
                    assert forall|m: int, n: int| 0 <= m < n < r@.len() implies r@[m] != r@[n] by {
                        if n == r@.len() - 1 {
                            assert(r0.contains(r0[m]));
                        }
                    }
                }
            }
            proof {
                assert forall|x: u64|
                    r@.contains(x) <==> exists|j: int|
                        0 <= j < i + 1 && (#[trigger] self.ann_token@[j]).issuer == x by {
                    if r@.contains(x) && !r0.contains(x) {
                        assert(self.ann_token@[i as int].issuer == x);
                    }
                    if r0.contains(x) {
                        let m = r0.index_of(x);
                        assert(r@[m] == x);
                    }
                    if exists|j: int| 0 <= j < i + 1 && (#[trigger] self.ann_token@[j]).issuer == x {
                        let j = choose|j: int| 0 <= j < i + 1 && (#[trigger] self.ann_token@[j]).issuer == x;
                        if j == i {
                            if seen {
                                let m = choose|m: int| 0 <= m < r0.len() && r0[m] == issuer;
                                assert(r0.contains(x));
                            } else {
                                assert(r@[r@.len() - 1] == x);
                            }
                        } else {
                            assert(r0.contains(x));
                            let m = r0.index_of(x);
                            assert(r@[m] == x);
                        }
                    }
                }
            }
            i = i + 1;
        }
        r
    }

    fn find_contributor(&self, contributor: u64) -> (r: Option<usize>)
        ensures
            r matches Some(i) ==> i == last_index_where(self.contributors@, by_contributor(contributor)),
            r is None ==> last_index_where(self.contributors@, by_contributor(contributor)) == -1,
    {
        let mut i: usize = self.contributors.len();
        assert(self.contributors@.subrange(0, i as int) =~= self.contributors@);
        while i > 0
            invariant
                i <= self.contributors@.len(),
                last_index_where(self.contributors@, by_contributor(contributor)) == last_index_where(
                    self.contributors@.subrange(0, i as int),
                    by_contributor(contributor),
                ),
            decreases i,
        {
            proof {
                lemma_last_index_step(self.contributors@, by_contributor(contributor), i as int);
            }
            if self.contributors[i - 1].contributor == contributor {
                return Some(i - 1);
            }
            i = i - 1;
        }
        None
    }

    fn update_contributor_record(&mut self, address: u64, amount: Decimal)
        requires
            old(self).contribution_of(address) + amount.attos <= u128::MAX,
        ensures
            final(self).contributors@ == with_contribution(old(self).contributors@, address, amount),
            *final(self) == (TokenWeigtedDao { contributors: final(self).contributors, ..*old(self) }),
    {
        match self.find_contributor(address) {
            Some(i) => {
                proof {
                    lemma_last_index_where(self.contributors@, by_contributor(address));
                }
                let so_far = self.contributors[i].amount;
                self.contributors.set(i, Contribution { contributor: address, amount: so_far.add(amount) });
            },
            None => {
                self.contributors.push(Contribution { contributor: address, amount });
            },
        }
    }

    /// A donation to the treasury, recorded under the giver's identity.
    pub fn send_money_to_dao_treasury(&mut self, payment: Asset, account: u64) -> (r: Result<
        Asset,
        DaoError,
    >)
        requires
            old(self).shares.attos + payment.amount.attos <= u128::MAX,
            old(self).contribution_of(account) + payment.amount.attos <= u128::MAX,
        ensures
            payment.resource != old(self).currency ==> r == Err::<Asset, DaoError>(
                DaoError::WrongAssetType,
            ) && *final(self) == *old(self),
            payment.resource == old(self).currency ==> {
                &&& r == Ok::<Asset, DaoError>(
                    Asset { resource: old(self).currency, amount: Decimal { attos: 0 } },
                )
                &&& final(self).shares.attos == old(self).shares.attos + payment.amount.attos
                &&& final(self).contributors@ == with_contribution(
                    old(self).contributors@,
                    account,
                    payment.amount,
                )
                &&& *final(self) == (TokenWeigtedDao {
                    shares: final(self).shares,
                    contributors: final(self).contributors,
                    ..*old(self)
                })
            },
    {
        if payment.resource != self.currency {
            return Err(DaoError::WrongAssetType);
        }
        self.shares = self.shares.add(payment.amount);
        self.update_contributor_record(account, payment.amount);
        Ok(Asset { resource: self.currency, amount: Decimal::zero() })
    }

    /// Every contributor with the total it has given.
    pub fn get_all_contributors(&self) -> (r: &Vec<Contribution>)
        ensures
            r@ == self.contributors@,
    {
        &self.contributors
    }

    /// Adds `token_number_to_mint` governance shares to those for sale.
    pub fn mint_more_tokens(&mut self, token_number_to_mint: u64)
        requires
            old(self).dao_token.attos + token_number_to_mint * SCALE <= u128::MAX,
        ensures
            *final(self) == (TokenWeigtedDao {
                dao_token: Decimal {
                    attos: (old(self).dao_token.attos + token_number_to_mint * SCALE) as u128,
                },
                ..*old(self)
            }),
    {
        self.dao_token = self.dao_token.add(Decimal::from_units(token_number_to_mint));
    }

    /// Mints the governance shares that a proposal asks for once its voting time is over.
    pub fn execute_proposal_to_mint_more_tokens(&mut self, proposal_id: u64, now: u64) -> (r:
        Result<(), DaoError>)
        requires
            old(self).proposal_index(proposal_id) >= 0 ==> (old(self).proposal_of(
                proposal_id,
            ).amount_of_tokens_should_be_minted matches Some(n) ==> old(self).dao_token.attos + n
                * SCALE <= u128::MAX),
        ensures
            r is Err ==> *final(self) == *old(self),
            old(self).proposal_index(proposal_id) < 0 ==> r == Err::<(), DaoError>(
                DaoError::NoSuchProposal,
            ),
            old(self).proposal_index(proposal_id) >= 0 ==> {
                let p = old(self).proposal_of(proposal_id);
                &&& now <= p.end_time ==> r == Err::<(), DaoError>(DaoError::TooEarly)
                &&& now > p.end_time && p.amount_of_tokens_should_be_minted is None ==> r == Err::<
                    (),
                    DaoError,
                >(DaoError::NotAMintProposal)
                &&& now > p.end_time && p.amount_of_tokens_should_be_minted is Some ==> r is Ok
                    && *final(self) == (TokenWeigtedDao {
                    dao_token: Decimal {
                        attos: (old(self).dao_token.attos
                            + p.amount_of_tokens_should_be_minted->Some_0 * SCALE) as u128,
                    },
                    ..*old(self)
                })
            },
    {
        let i = match self.find_proposal(proposal_id) {
            Some(i) => i,
            None => return Err(DaoError::NoSuchProposal),
        };
        proof {
            lemma_last_index_where(self.current_praposals@, has_id(proposal_id));
        }
        if now <= self.current_praposals[i].proposal.get_last_time() {
            return Err(DaoError::TooEarly);
        }
        match self.current_praposals[i].proposal.get_token_mint_amount() {
            Some(n) => {
                self.mint_more_tokens(n as u64);
                Ok(())
            },
            None => Err(DaoError::NotAMintProposal),
        }
    }

    /// Seconds until the next payout of the latest instrument of `issuer` falls due.
    pub fn check_time_until_next_payout(&self, ann_token_creator_address: u64, now: u64) -> (r:
        Result<i128, DaoError>)
        ensures
            self.annuity_index(ann_token_creator_address) < 0 ==> r == Err::<i128, DaoError>(
                DaoError::NoSuchIssuer,
            ),
            self.annuity_index(ann_token_creator_address) >= 0 ==> r == Ok::<i128, DaoError>(
                self.annuity_of(ann_token_creator_address).time_to_next_payout(now) as i128,
            ),
    {
        match self.find_annuity(ann_token_creator_address) {
            Some(i) => {
                proof {
                    lemma_last_index_where(self.ann_token@, by_issuer(ann_token_creator_address));
                }
                Ok(self.ann_token[i].annuity.check_time_until_next_payout(now))
            },
            None => Err(DaoError::NoSuchIssuer),
        }
    }

    /// Claims the yearly payout of the latest instrument of `issuer` with one unit
    /// that the organization holds, which it keeps. A payout goes to the treasury,
    /// seized collateral to the liquidated collateral.
    pub fn claim_the_payout(&mut self, ann_token_creator_address: u64, now: u64) -> (r: Result<
        PayoutOutcome,
        DaoError,
    >)
        requires
            old(self).wf(),
            old(self).annuity_index(ann_token_creator_address) >= 0 ==> old(self).shares.attos
                + old(self).annuity_of(ann_token_creator_address).annual_due() <= u128::MAX,
        ensures
            final(self).wf(),
            r is Err ==> *final(self) == *old(self),
            old(self).annuity_index(ann_token_creator_address) < 0 ==> r == Err::<
                PayoutOutcome,
                DaoError,
            >(DaoError::NoSuchIssuer),
            old(self).annuity_index(ann_token_creator_address) >= 0 ==> {
                let i = old(self).annuity_index(ann_token_creator_address);
                let a = old(self).annuity_of(ann_token_creator_address);
                let unit = Asset { resource: a.unit_resource, amount: Decimal { attos: SCALE } };
                &&& old(self).holding_of(a.unit_resource) < SCALE ==> r == Err::<
                    PayoutOutcome,
                    DaoError,
                >(DaoError::NoUnitsHeld)
                &&& old(self).holding_of(a.unit_resource) >= SCALE ==> match a.claim_result(
                    unit,
                    now,
                ) {
                    Err(e) => r == Err::<PayoutOutcome, DaoError>(e),
                    Ok((_, outcome)) => {
                        &&& r == Ok::<PayoutOutcome, DaoError>(outcome)
                        &&& final(self).ann_token@ == old(self).ann_token@.update(
                            i,
                            IssuedAnnuity {
                                issuer: ann_token_creator_address,
                                annuity: a.claim_state(unit, now),
                            },
                        )
                        &&& final(self).shares.attos == old(self).shares.attos + match outcome {
                            PayoutOutcome::Paid { payout, .. } => payout.amount.attos as int,
                            _ => 0,
                        }
                        &&& final(self).liquidated_collateral@ == match outcome {
                            PayoutOutcome::Liquidated { collateral } => old(
                                self,
                            ).liquidated_collateral@.push(collateral),
                            _ => old(self).liquidated_collateral@,
                        }
                        &&& *final(self) == (TokenWeigtedDao {
                            ann_token: final(self).ann_token,
                            shares: final(self).shares,
                            liquidated_collateral: final(self).liquidated_collateral,
                            ..*old(self)
                        })
                    },
                }
            },
    {
        let i = match self.find_annuity(ann_token_creator_address) {
            Some(i) => i,
            None => return Err(DaoError::NoSuchIssuer),
        };
        proof {
            lemma_last_index_where(self.ann_token@, by_issuer(ann_token_creator_address));
        }
        let unit_resource = self.ann_token[i].annuity.get_annuity_address();
        match self.find_holding(unit_resource) {
            Some(h) => {
                proof {
                    lemma_last_index_where(self.ann_tokens@, of_resource(unit_resource));
                }
                if self.ann_tokens[h].amount.attos < SCALE {
                    return Err(DaoError::NoUnitsHeld);
                }
            },
            None => return Err(DaoError::NoUnitsHeld),
        }
        let unit = Asset { resource: unit_resource, amount: Decimal::one() };
        if let Some(e) = self.ann_token[i].annuity.claim_refusal(unit, now) {
            return Err(e);
        }
        let ghost before = self.ann_token@;
        let outcome = match self.ann_token[i].annuity.claim_annual_payout(unit, now) {
            Ok((_, outcome)) => outcome,
            Err(e) => return Err(e),
        };
        proof {
            assert forall|j: int| 0 <= j < self.ann_token@.len() implies (#[trigger] self.ann_token@[j]).annuity.wf()
                && self.ann_token@[j].annuity.payment_resource == self.currency by {
                if j != i {
                    assert(self.ann_token@[j] == before[j]);
                }
            }
        }
        match outcome {
            PayoutOutcome::Paid { payout, .. } => {
                self.shares = self.shares.add(payout.amount);
            },
            PayoutOutcome::Liquidated { collateral } => {
                self.liquidated_collateral.push(collateral);
            },
            PayoutOutcome::PrematureClaim { .. } => {},
        }
        Ok(outcome)
    }

    /// The issuer takes out the proceeds of one unit's sale from its latest instrument.
    #[allow(non_snake_case)]
    pub fn take_out_the_invested_XRDs_by_the_community(&mut self, ann_creator_address: u64) -> (r:
        Result<Asset, DaoError>)
        requires
            old(self).wf(),
        ensures
            final(self).wf(),
            r is Err ==> *final(self) == *old(self),
            old(self).annuity_index(ann_creator_address) < 0 ==> r == Err::<Asset, DaoError>(
                DaoError::NoSuchIssuer,
            ),
            old(self).annuity_index(ann_creator_address) >= 0 ==> {
                let i = old(self).annuity_index(ann_creator_address);
                let a = old(self).annuity_of(ann_creator_address);
                &&& a.collected_funds.attos < a.price.attos ==> r == Err::<Asset, DaoError>(
                    DaoError::InsufficientFunds,
                )
                &&& a.collected_funds.attos >= a.price.attos ==> {
                    &&& r == Ok::<Asset, DaoError>(
                        Asset { resource: a.payment_resource, amount: a.price },
                    )
                    &&& final(self).ann_token@ == old(self).ann_token@.update(
                        i,
                        IssuedAnnuity {
                            issuer: ann_creator_address,
                            annuity: Annuity {
                                collected_funds: Decimal {
                                    attos: (a.collected_funds.attos - a.price.attos) as u128,
                                },
                                ..a
                            },
                        },
                    )
                    &&& *final(self) == (TokenWeigtedDao {
                        ann_token: final(self).ann_token,
                        ..*old(self)
                    })
                }
            },
    {
        let i = match self.find_annuity(ann_creator_address) {
            Some(i) => i,
            None => return Err(DaoError::NoSuchIssuer),
        };
        proof {
            lemma_last_index_where(self.ann_token@, by_issuer(ann_creator_address));
        }
        if let Some(e) = self.ann_token[i].annuity.withdrawal_refusal() {
            return Err(e);
        }
        let ghost before = self.ann_token@;
        let taken = match self.ann_token[i].annuity.take_out_the_invested_xrds_by_community() {
            Ok(t) => t,
            Err(e) => return Err(e),
        };
        proof {
            assert forall|j: int| 0 <= j < self.ann_token@.len() implies (#[trigger] self.ann_token@[j]).annuity.wf()
                && self.ann_token@[j].annuity.payment_resource == self.currency by {
                if j != i {
                    assert(self.ann_token@[j] == before[j]);
                }
            }
        }
        Ok(taken)
    }

    /// The issuer pays back toward its latest instrument; the change comes back, and
    /// once everything owed is paid the collateral comes back too.
    pub fn put_in_money_plus_interest_for_the_community_to_redeem(
        &mut self,
        ann_creator_address: u64,
        borrowed_xrd_with_interest: Asset,
    ) -> (r: Result<(Asset, Option<Asset>), DaoError>)
        requires
            old(self).wf(),
            old(self).annuity_index(ann_creator_address) >= 0 ==> old(self).annuity_of(
                ann_creator_address,
            ).collected_funds.attos + old(self).annuity_of(ann_creator_address).repay_accepted(
                borrowed_xrd_with_interest.amount,
            ) <= u128::MAX,
        ensures
            final(self).wf(),
            r is Err ==> *final(self) == *old(self),
            old(self).annuity_index(ann_creator_address) < 0 ==> r == Err::<
                (Asset, Option<Asset>),
                DaoError,
            >(DaoError::NoSuchIssuer),
            old(self).annuity_index(ann_creator_address) >= 0 ==> {
                let i = old(self).annuity_index(ann_creator_address);
                let a = old(self).annuity_of(ann_creator_address);
                let repaid = a.repay_state(borrowed_xrd_with_interest.amount);
                &&& borrowed_xrd_with_interest.resource != a.payment_resource ==> r == Err::<
                    (Asset, Option<Asset>),
                    DaoError,
                >(DaoError::WrongAssetType)
                &&& borrowed_xrd_with_interest.resource == a.payment_resource ==> {
                    &&& r == Ok::<(Asset, Option<Asset>), DaoError>(
                        (
                            Asset {
                                resource: borrowed_xrd_with_interest.resource,
                                amount: Decimal {
                                    attos: (borrowed_xrd_with_interest.amount.attos
                                        - a.repay_accepted(borrowed_xrd_with_interest.amount)) as u128,
                                },
                            },
                            repaid.release_result(),
                        ),
                    )
                    &&& final(self).ann_token@ == old(self).ann_token@.update(
                        i,
                        IssuedAnnuity { issuer: ann_creator_address, annuity: repaid.release_state() },
                    )
                    &&& *final(self) == (TokenWeigtedDao {
                        ann_token: final(self).ann_token,
                        ..*old(self)
                    })
                }
            },
    {
        let i = match self.find_annuity(ann_creator_address) {
            Some(i) => i,
            None => return Err(DaoError::NoSuchIssuer),
        };
        proof {
            lemma_last_index_where(self.ann_token@, by_issuer(ann_creator_address));
        }
        if let Some(e) = self.ann_token[i].annuity.repay_refusal(borrowed_xrd_with_interest) {
            return Err(e);
        }
        let ghost before = self.ann_token@;
        let change = match self.ann_token[i].annuity.put_in_money_plus_interest_for_the_community_to_redeem(
            borrowed_xrd_with_interest,
        ) {
            Ok(c) => c,
            Err(e) => return Err(e),
        };
        let collateral = self.ann_token[i].annuity.get_back_the_collateral();
        proof {
            assert forall|j: int| 0 <= j < self.ann_token@.len() implies (#[trigger] self.ann_token@[j]).annuity.wf()
                && self.ann_token@[j].annuity.payment_resource == self.currency by {
                if j != i {
                    assert(self.ann_token@[j] == before[j]);
                }
            }
        }
        Ok((change, collateral))
    }

    /// Whether `execute_proposal(proposal_id, now)` keeps every amount within range;
    /// `true` says so for every `now`.
    pub fn can_execute_within_range(&self, proposal_id: u64) -> (r: bool)
        ensures
            r == (self.proposal_index(proposal_id) >= 0 ==> (self.proposal_of(
                proposal_id,
            ).address_issued_bonds_to_sell matches Some(b) ==> self.purchase_fits(b))),
            r ==> forall|now: u64| self.execution_fits(proposal_id, now),
    {
        let i = match self.find_proposal(proposal_id) {
            Some(i) => i,
            None => return true,
        };
        proof {
            lemma_last_index_where(self.current_praposals@, has_id(proposal_id));
        }
        match self.current_praposals[i].proposal.get_address_issued_bonds() {
            Some(b) => self.purchase_within_range(b),
            None => true,
        }
    }

    /// Whether buying from the latest instrument of `issuer` keeps every amount
    /// within range.
    pub fn purchase_within_range(&self, issuer: u64) -> (r: bool)
        ensures
            r == self.purchase_fits(issuer),
    {
        let i = match self.find_annuity(issuer) {
            Some(i) => i,
            None => return true,
        };
        proof {
            lemma_last_index_where(self.ann_token@, by_issuer(issuer));
        }
        let a = &self.ann_token[i].annuity;
        if a.collected_funds.attos > u128::MAX - a.price.attos {
            return false;
        }
        let held: u128 = match self.find_holding(a.unit_resource) {
            Some(h) => {
                proof {
                    lemma_last_index_where(self.ann_tokens@, of_resource(a.unit_resource));
                }
                self.ann_tokens[h].amount.attos
            },
            None => 0,
        };
        held <= u128::MAX - SCALE
    }

    /// Whether `claim_the_payout(issuer, ..)` keeps the treasury within range.
    pub fn can_claim_within_range(&self, issuer: u64) -> (r: bool)
        requires
            self.wf(),
        ensures
            r == (self.annuity_index(issuer) >= 0 ==> self.shares.attos + self.annuity_of(
                issuer,
            ).annual_due() <= u128::MAX),
    {
        let i = match self.find_annuity(issuer) {
            Some(i) => i,
            None => return true,
        };
        proof {
            lemma_last_index_where(self.ann_token@, by_issuer(issuer));
        }
        let due = self.ann_token[i].annuity.annual_due_amount();
        self.shares.attos <= u128::MAX - due.attos
    }

    /// The ids of the open proposals that `creator` made, oldest first.
    pub fn get_proposals_by_creator(&self, creator: u64) -> (r: Vec<u64>)
        ensures
            r@ == ids_by_creator(self.current_praposals@, creator),
    {
        let mut r: Vec<u64> = Vec::new();
        let mut i: usize = 0;
        while i < self.current_praposals.len()
            invariant
                i <= self.current_praposals@.len(),
                r@ == ids_by_creator(self.current_praposals@.subrange(0, i as int), creator),
            decreases self.current_praposals.len() - i,
        {
            proof {
                assert(self.current_praposals@.subrange(0, i + 1).drop_last()
                    =~= self.current_praposals@.subrange(0, i as int));
            }
            if self.current_praposals[i].creator == creator {
                r.push(self.current_praposals[i].id);
            }
            i = i + 1;
        }
        proof {
            assert(self.current_praposals@.subrange(0, i as int) =~= self.current_praposals@);
        }
        r
    }

    /// The open proposal with `proposal_id`.
    pub fn get_proposal(&self, proposal_id: u64) -> (r: Option<&TokenWeightProposal>)
        ensures
            self.proposal_index(proposal_id) < 0 ==> r is None,
            self.proposal_index(proposal_id) >= 0 ==> r == Some(&self.proposal_of(proposal_id)),
    {
        match self.find_proposal(proposal_id) {
            Some(i) => {
                proof {
                    lemma_last_index_where(self.current_praposals@, has_id(proposal_id));
                }
                Some(&self.current_praposals[i].proposal)
            },
            None => None,
        }
    }

    /// The active instrument of `issuer`: the latest it issued.
    pub fn get_annuity(&self, issuer: u64) -> (r: Option<&Annuity>)
        ensures
            self.annuity_index(issuer) < 0 ==> r is None,
            self.annuity_index(issuer) >= 0 ==> r == Some(&self.annuity_of(issuer)),
    {
        match self.find_annuity(issuer) {
            Some(i) => {
                proof {
                    lemma_last_index_where(self.ann_token@, by_issuer(issuer));
                }
                Some(&self.ann_token[i].annuity)
            },
            None => None,
        }
    }

    /// Whether a vote with `token` on `proposal_id` keeps the tally within range.
    pub fn can_vote_within_range(&self, proposal_id: u64, token: Asset) -> (r: bool)
        ensures
            r == (self.proposal_index(proposal_id) >= 0 ==> self.proposal_of(
                proposal_id,
            ).tally_fits(token)),
    {
        let i = match self.find_proposal(proposal_id) {
            Some(i) => i,
            None => return true,
        };
        proof {
            lemma_last_index_where(self.current_praposals@, has_id(proposal_id));
        }
        let p = &self.current_praposals[i].proposal;
        let weight = match p.voting_type {
            VotingType::ResourceHold => token.amount.attos,
            VotingType::Equality => SCALE,
        };
        p.voted_for.attos <= u128::MAX - weight && p.voted_against.attos <= u128::MAX - weight
    }

    /// Whether minting what `proposal_id` asks for keeps the shares for sale within range.
    pub fn can_mint_within_range(&self, proposal_id: u64) -> (r: bool)
        ensures
            r == (self.proposal_index(proposal_id) >= 0 ==> (self.proposal_of(
                proposal_id,
            ).amount_of_tokens_should_be_minted matches Some(n) ==> self.dao_token.attos + n
                * SCALE <= u128::MAX)),
    {
        let i = match self.find_proposal(proposal_id) {
            Some(i) => i,
            None => return true,
        };
        proof {
            lemma_last_index_where(self.current_praposals@, has_id(proposal_id));
        }
        match self.current_praposals[i].proposal.get_token_mint_amount() {
            Some(n) => {
                let room = (u128::MAX - self.dao_token.attos) / SCALE;
                proof {
                    let d = (u128::MAX - self.dao_token.attos) as int;
                    vstd::arithmetic::div_mod::lemma_fundamental_div_mod(d, SCALE as int);
                    vstd::arithmetic::div_mod::lemma_mod_bound(d, SCALE as int);
                    if n as int <= room as int {
                        vstd::arithmetic::mul::lemma_mul_inequality(n as int, room as int, SCALE as int);
                    } else {
                        vstd::arithmetic::mul::lemma_mul_inequality(room as int + 1, n as int, SCALE as int);
                    }
                }
                n as u128 <= room
            },
            None => true,
        }
    }
}

} // verus!
