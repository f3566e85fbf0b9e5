use vstd::prelude::*;
use crate::decimal::{Asset, Decimal, SCALE};
use crate::error::DaoError;

verus! {

/// Who may create a proposal.
#[allow(non_camel_case_types)]
#[derive(Clone, Copy, Debug, PartialEq, Eq, Structural)]
pub enum ProposalCreationRight {
    /// Any holder of at least one governance token.
    EVERYONE,
    /// A holder of at least the given amount of governance tokens.
    TOKEN_HOLDER_THRESHOLD(Decimal),
    /// The holder of the owner badge.
    ADMIN,
}

/// How a vote is weighed.
#[derive(Clone, Copy, Debug, PartialEq, Eq, Structural)]
pub enum VotingType {
    /// By the amount of governance tokens shown.
    ResourceHold,
    /// One vote per voter.
    Equality,
}

/// One governance vote: its terms, its running tally and who has voted.
pub struct TokenWeightProposal {
    pub title: String,
    pub description: String,
    pub voted_for: Decimal,
    pub voted_against: Decimal,
    /// Distinct voters needed for the proposal to pass.
    pub minimum_quorum: usize,
    /// Seconds since the Unix epoch.
    pub end_time: u64,
    /// Seconds since the Unix epoch.
    pub start_time: u64,
    pub owner_token_address: u64,
    /// The governance token that voters show.
    pub voter_badge_address: u64,
    /// The issuer whose latest instrument is bought on execution.
    pub address_issued_bonds_to_sell: Option<u64>,
    /// What the treasury spends on execution.
    pub target_xrd_amount: Option<Decimal>,
    pub vote_caster_addresses: Vec<u64>,
    pub proposal_creator_address: Option<u64>,
    pub amount_of_tokens_should_be_minted: Option<usize>,
    pub voting_type: VotingType,
}

impl TokenWeightProposal {
    /// No voter is recorded twice.
    pub open spec fn wf(&self) -> bool {
        self.vote_caster_addresses@.no_duplicates()
    }

    pub open spec fn voters(&self) -> Seq<u64> {
        self.vote_caster_addresses@
    }

    /// The weight a vote with `token` carries.
    pub open spec fn weight_of(&self, token: Asset) -> int {
        match self.voting_type {
            VotingType::ResourceHold => token.amount.attos as int,
            VotingType::Equality => SCALE as int,
        }
    }

    /// Whether a vote with `token` keeps both tallies within range.
    pub open spec fn tally_fits(&self, token: Asset) -> bool {
        self.voted_for.attos + self.weight_of(token) <= u128::MAX
            && self.voted_against.attos + self.weight_of(token) <= u128::MAX
    }

    pub fn new(
        title: String,
        description: String,
        minimun_quorum: u8,
        start_time: u64,
        end_time: u64,
        owner_badge_address: u64,
        voter_badge_address: u64,
        address_issued_bonds_to_sell: Option<u64>,
        target_xrd_amount: Option<Decimal>,
        proposal_creator_address: Option<u64>,
        amount_of_tokens_should_be_minted: Option<usize>,
        voting_type: VotingType,
    ) -> (r: TokenWeightProposal)
        ensures
            r.wf(),
            r.title == title,
            r.description == description,
            r.voted_for.attos == 0,
            r.voted_against.attos == 0,
            r.minimum_quorum == minimun_quorum as usize,
            r.start_time == start_time,
            r.end_time == end_time,
            r.owner_token_address == owner_badge_address,
            r.voter_badge_address == voter_badge_address,
            r.address_issued_bonds_to_sell == address_issued_bonds_to_sell,
            r.target_xrd_amount == target_xrd_amount,
            r.voters().len() == 0,
            r.proposal_creator_address == proposal_creator_address,
            r.amount_of_tokens_should_be_minted == amount_of_tokens_should_be_minted,
            r.voting_type == voting_type,
    {
        TokenWeightProposal {
            title,
            description,
            voted_for: Decimal::zero(),
            voted_against: Decimal::zero(),
            minimum_quorum: minimun_quorum as usize,
            end_time,
            start_time,
            owner_token_address: owner_badge_address,
            voter_badge_address,
            address_issued_bonds_to_sell,
            target_xrd_amount,
            vote_caster_addresses: Vec::new(),
            proposal_creator_address,
            amount_of_tokens_should_be_minted,
            voting_type,
        }
    }

    /// The proposal with the weight of `token` added to one side of its tally.
    pub open spec fn tallied(self, token: Asset, against: bool) -> TokenWeightProposal {
        TokenWeightProposal {
            voted_for: Decimal {
                attos: (self.voted_for.attos + if against { 0 } else { self.weight_of(token) }) as u128,
            },
            voted_against: Decimal {
                attos: (self.voted_against.attos + if against { self.weight_of(token) } else { 0 }) as u128,
            },
            ..self
        }
    }

    /// Adds the weight of `token` to one side of the tally and hands the token back:
    /// voting locks nothing. Votes are taken only before the end time.
    pub fn vote(&mut self, token: Asset, against: bool, now: u64) -> (r: Result<Asset, DaoError>)
        requires
            old(self).tally_fits(token),
        ensures
            token.resource != old(self).voter_badge_address ==> r == Err::<Asset, DaoError>(
                DaoError::WrongAssetType,
            ),
            token.resource == old(self).voter_badge_address && now >= old(self).end_time ==> r
                == Err::<Asset, DaoError>(DaoError::VotingClosed),
            r is Err ==> *final(self) == *old(self),
            token.resource == old(self).voter_badge_address && now < old(self).end_time ==> r
                == Ok::<Asset, DaoError>(token) && *final(self) == old(self).tallied(token, against),
    {
        if token.resource != self.voter_badge_address {
            return Err(DaoError::WrongAssetType);
        }
        if now >= self.end_time {
            return Err(DaoError::VotingClosed);
        }
        let weight = match self.voting_type {
            VotingType::ResourceHold => token.amount,
            VotingType::Equality => Decimal::one(),
        };
        if against {
            self.voted_against = self.voted_against.add(weight);
        } else {
            self.voted_for = self.voted_for.add(weight);
        }
        Ok(token)
    }

    /// Whether `address` has voted.
    pub fn has_voted(&self, address: u64) -> (r: bool)
        ensures
            r == self.voters().contains(address),
    {
        let mut i: usize = 0;
        while i < self.vote_caster_addresses.len()
            invariant
                i <= self.vote_caster_addresses.len(),
                forall|j: int| 0 <= j < i ==> self.vote_caster_addresses@[j] != address,
            decreases self.vote_caster_addresses.len() - i,
        {
            if self.vote_caster_addresses[i] == address {
                return true;
            }
            i = i + 1;
        }
        false
    }

    /// Records `address` as a voter; one already recorded is not recorded again.
    pub fn set_vote_caster_address(&mut self, address: u64)
        requires
            old(self).wf(),
        ensures
            final(self).wf(),
            old(self).voters().contains(address) ==> *final(self) == *old(self),
            !old(self).voters().contains(address) ==> final(self).voters() == old(
                self,
            ).voters().push(address),
            *final(self) == (TokenWeightProposal {
                vote_caster_addresses: final(self).vote_caster_addresses,
                ..*old(self)
            }),
    {
        if !self.has_voted(address) {
            self.vote_caster_addresses.push(address);
        }
    }

    pub fn get_address_issued_bonds(&self) -> (r: Option<u64>)
        ensures
            r == self.address_issued_bonds_to_sell,
    {
        self.address_issued_bonds_to_sell
    }

    pub fn get_target_xrd_amount(&self) -> (r: Option<Decimal>)
        ensures
            r == self.target_xrd_amount,
    {
        self.target_xrd_amount
    }

    pub fn get_vote_caster_addresses(&self) -> (r: Vec<u64>)
        ensures
            r@ == self.voters(),
    {
        self.vote_caster_addresses.clone()
    }

    pub fn get_last_time(&self) -> (r: u64)
        ensures
            r == self.end_time,
    {
        self.end_time
    }

    pub fn get_token_mint_amount(&self) -> (r: Option<usize>)
        ensures
            r == self.amount_of_tokens_should_be_minted,
    {
        self.amount_of_tokens_should_be_minted
    }

    pub fn get_number_of_voters(&self) -> (r: usize)
        ensures
            r == self.voters().len(),
    {
        self.vote_caster_addresses.len()
    }

    pub fn get_minimum_quorum(&self) -> (r: usize)
        ensures
            r == self.minimum_quorum,
    {
        self.minimum_quorum
    }
}

} // verus!
