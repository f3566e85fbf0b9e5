use vstd::prelude::*;
use crate::decimal::{mul_attos, Asset, Decimal, SCALE};
use crate::error::DaoError;

verus! {

/// Length of a payout period: a 365-day year, in seconds.
pub const SECONDS_PER_YEAR: u64 = 31_536_000;

/// Rates are given in percent.
pub const PERCENT: u64 = 100;

/// The last second of the year 9999, UTC: every timestamp from the epoch up to it
/// has a calendar year.
pub const MAX_CALENDAR_TIMESTAMP: u64 = 253_402_300_799;

/// The year of the proleptic Gregorian calendar, in UTC, in which a Unix timestamp
/// falls. Days are counted from 0000-03-01 so that the leap day ends each 4-, 100- and
/// 400-year cycle; a year counted from March gains one for January and February.
pub open spec fn utc_year_of(secs: i64) -> int {
    let z = secs as int / 86_400 + 719_468;
    let era = z / 146_097;
    let doe = z - era * 146_097;
    let yoe = (doe - doe / 1460 + doe / 36_524 - doe / 146_096) / 365;
    let doy = doe - (365 * yoe + yoe / 4 - yoe / 100);
    let mp = (5 * doy + 2) / 153;
    era * 400 + yoe + if mp >= 10 { 1int } else { 0int }
}

/// Whether a timestamp lies between the epoch and the end of the year 9999.
pub open spec fn in_calendar_range(t: u64) -> bool {
    t <= MAX_CALENDAR_TIMESTAMP
}

/// Whole calendar years from the year of `now` to the year of `maturity_date`.
pub open spec fn calendar_term(maturity_date: u64, now: u64) -> int {
    utc_year_of(maturity_date as i64) - utc_year_of(now as i64)
}

/// Relies on chrono's `DateTime::from_timestamp` and `Datelike::year`: the UTC year
/// of a Unix timestamp, or nothing where the timestamp lies outside chrono's range,
/// which reaches far beyond the year 9999.
#[verifier::external_body]
fn utc_year(secs: i64) -> (r: Option<i32>)
    ensures
        r matches Some(y) ==> y as int == utc_year_of(secs),
        0 <= secs <= MAX_CALENDAR_TIMESTAMP ==> r is Some,
{
    match chrono::DateTime::from_timestamp(secs, 0) {
        Some(dt) => Some(chrono::Datelike::year(&dt)),
        None => None,
    }
}

/// Interest over the whole life of an instrument: `principal * rate / 100`.
pub open spec fn interest_on(principal: Decimal, rate: Decimal) -> int {
    mul_attos(principal.attos as int, rate.attos as int) / (PERCENT as int)
}

/// Whether an instrument's amounts stay within range for every computation on them.
pub open spec fn terms_fit(principal: Decimal, rate: Decimal) -> bool {
    mul_attos(principal.attos as int, rate.attos as int) <= u128::MAX
        && principal.attos + interest_on(principal, rate) <= u128::MAX
}

/// How the yearly interest is worked out from principal and rate.
#[derive(Clone, Copy, Debug, PartialEq, Eq, Structural)]
pub enum InterestDivisor {
    /// The rate is a yearly percentage: `principal * rate / 100`.
    Percent,
    /// The rate is a percentage over the whole term, spread over its years:
    /// `principal * rate / (100 * term_years)`.
    PercentPerTermYear,
}

/// The choices that the payout rules leave to the issuer.
#[derive(Clone, Copy, Debug, PartialEq, Eq, Structural)]
pub struct PayoutPolicy {
    pub interest_divisor: InterestDivisor,
    /// Whether a paid claim reports the time to the next payout counted from the
    /// payout it just made (a full year), or from the payout before it.
    pub remaining_from_new_payout: bool,
}

/// Whether an instrument with this principal and rate keeps every amount within range.
pub fn terms_within_range(principal: Decimal, rate: Decimal) -> (r: bool)
    ensures
        r == terms_fit(principal, rate),
{
    let a1 = principal.attos / SCALE;
    let a0 = principal.attos % SCALE;
    let b1 = rate.attos / SCALE;
    let b0 = rate.attos % SCALE;
    proof {
        crate::decimal::lemma_split_product(principal.attos as int, rate.attos as int);
    }
    let low = a0 * b0 / SCALE;
    let mid = match a0.checked_mul(b1) {
        Some(m) => m,
        None => return false,
    };
    let high = match a1.checked_mul(rate.attos) {
        Some(h) => h,
        None => return false,
    };
    let product = match high.checked_add(mid) {
        Some(x) => match x.checked_add(low) {
            Some(y) => y,
            None => return false,
        },
        None => return false,
    };
    principal.attos <= u128::MAX - product / (PERCENT as u128)
}

/// What a claim leads to when it does not fail.
#[derive(Clone, Copy, Debug, PartialEq, Eq, Structural)]
pub enum PayoutOutcome {
    /// The yearly payout was made from the collected funds. `remaining_time` follows
    /// the instrument's payout policy.
    Paid { payout: Asset, remaining_time: i128 },
    /// The funds fell short after maturity: the collateral goes to the claimant.
    Liquidated { collateral: Asset },
    /// Nothing is due yet, or the funds fall short before maturity. `remaining_time`
    /// counts the seconds from now to one year after the last payout (zero or less
    /// when that point has passed).
    PrematureClaim { remaining_time: i128 },
}

/// Seconds in a day.
pub const SECONDS_PER_DAY: u64 = 86_400;

/// Whole days from `now` to `maturity_date`, counted toward zero; negative once
/// maturity has passed.
pub open spec fn days_left(maturity_date: u64, now: u64) -> int {
    if maturity_date >= now {
        (maturity_date - now) as int / SECONDS_PER_DAY as int
    } else {
        -((now - maturity_date) as int / SECONDS_PER_DAY as int)
    }
}

/// A snapshot of an instrument's terms and state, for display.
#[derive(Debug)]
pub struct AnnuityDetails {
    pub contract_type: String,
    pub contract_role: String,
    pub contract_identifier: String,
    pub nominal_interest_rate: Decimal,
    pub currency: String,
    pub initial_exchange_date: u64,
    pub maturity_date: u64,
    pub notional_principal: Decimal,
    pub annuity_position: String,
    pub price: Decimal,
    /// Units still for sale.
    pub amount: Decimal,
    pub maturity_days_left: i64,
    pub annual_payout: Decimal,
    pub last_payout_epoch: u64,
}

/// One fixed-rate instrument: units sold against payment, yearly payouts, and a
/// collateral held until it is repaid or seized.
pub struct Annuity {
    pub contract_type: String,
    pub contract_role: String,
    pub contract_identifier: String,
    /// In percent.
    pub nominal_interest_rate: Decimal,
    pub currency: String,
    pub initial_exchange_date: u64,
    pub maturity_date: u64,
    pub notional_principal: Decimal,
    pub annuity_position: String,
    /// Price of one unit.
    pub price: Decimal,
    /// Whole years from issue to maturity.
    pub term_years: u64,
    /// The principal spread over the term.
    pub annual_payout: Decimal,
    pub last_payout_epoch: u64,
    /// Units still held for sale.
    pub units_outstanding: u64,
    /// The resource of the instrument's units.
    pub unit_resource: u64,
    /// The resource that pays for units and that payouts are made in.
    pub payment_resource: u64,
    pub collected_funds: Decimal,
    /// The escrowed collateral; gone once returned or seized.
    pub collateral: Option<Asset>,
    /// What the issuer has paid back so far.
    pub total_amount_deposited: Decimal,
    pub payout_policy: PayoutPolicy,
}

impl Annuity {
    pub open spec fn interest(&self) -> int {
        interest_on(self.notional_principal, self.nominal_interest_rate)
    }

    /// Principal and interest: what the issuer owes in all.
    pub open spec fn total_payback(&self) -> int {
        self.notional_principal.attos + self.interest()
    }

    /// The interest that one yearly claim pays, by the payout policy.
    pub open spec fn yearly_interest(&self) -> int {
        match self.payout_policy.interest_divisor {
            InterestDivisor::Percent => self.interest(),
            InterestDivisor::PercentPerTermYear => self.interest() / (self.term_years as int),
        }
    }

    /// What one yearly claim pays.
    pub open spec fn annual_due(&self) -> int {
        self.annual_payout.attos + self.yearly_interest()
    }

    /// The share of principal and interest that falls on one year of the term.
    pub open spec fn annual_payback(&self) -> int {
        self.annual_payout.attos + self.interest() / (self.term_years as int)
    }

    pub open spec fn wf(&self) -> bool {
        &&& self.term_years >= 1
        &&& self.annual_payout.attos == self.notional_principal.attos as int / (
        self.term_years as int)
        &&& terms_fit(self.notional_principal, self.nominal_interest_rate)
        &&& self.total_amount_deposited.attos <= self.total_payback()
    }

    /// Whether `unit` is exactly one unit of this instrument.
    pub open spec fn is_one_unit(&self, unit: Asset) -> bool {
        unit.resource == self.unit_resource && unit.amount.attos == SCALE
    }

    /// Seconds from `now` to one year after the last payout.
    pub open spec fn time_to_next_payout(&self, now: u64) -> int {
        self.last_payout_epoch + SECONDS_PER_YEAR - now
    }

    /// What a claim with `unit` at `now` returns.
    pub open spec fn claim_result(self, unit: Asset, now: u64) -> Result<
        (Asset, PayoutOutcome),
        DaoError,
    > {
        if !self.is_one_unit(unit) {
            Err(DaoError::WrongAssetType)
        } else if now < self.last_payout_epoch + SECONDS_PER_YEAR {
            Ok(
                (
                    unit,
                    PayoutOutcome::PrematureClaim {
                        remaining_time: self.time_to_next_payout(now) as i128,
                    },
                ),
            )
        } else if self.annual_due() <= self.collected_funds.attos {
            Ok(
                (
                    unit,
                    PayoutOutcome::Paid {
                        payout: Asset {
                            resource: self.payment_resource,
                            amount: Decimal { attos: self.annual_due() as u128 },
                        },
                        remaining_time: if self.payout_policy.remaining_from_new_payout {
                            SECONDS_PER_YEAR as i128
                        } else {
                            self.time_to_next_payout(now) as i128
                        },
                    },
                ),
            )
        } else if now > self.maturity_date {
            match self.collateral {
                Some(c) => Ok((unit, PayoutOutcome::Liquidated { collateral: c })),
                None => Err(DaoError::NoCollateral),
            }
        } else {
            Ok(
                (
                    unit,
                    PayoutOutcome::PrematureClaim {
                        remaining_time: self.time_to_next_payout(now) as i128,
                    },
                ),
            )
        }
    }

    /// The instrument after a claim with `unit` at `now`.
    pub open spec fn claim_state(self, unit: Asset, now: u64) -> Annuity {
        match self.claim_result(unit, now) {
            Ok((_, PayoutOutcome::Paid { payout, .. })) => Annuity {
                collected_funds: Decimal { attos: (self.collected_funds.attos - payout.amount.attos) as u128 },
                last_payout_epoch: now,
                ..self
            },
            Ok((_, PayoutOutcome::Liquidated { .. })) => Annuity { collateral: None, ..self },
            _ => self,
        }
    }

    /// How much of a repayment of `amount` the instrument takes: no more than is
    /// still owed.
    pub open spec fn repay_accepted(&self, amount: Decimal) -> int {
        let owed = self.total_payback() - self.total_amount_deposited.attos;
        if amount.attos <= owed { amount.attos as int } else { owed }
    }

    /// Why selling a unit for `payment` is refused, if it is.
    pub open spec fn purchase_error(&self, payment: Asset) -> Option<DaoError> {
        if payment.resource != self.payment_resource {
            Some(DaoError::WrongAssetType)
        } else if payment.amount.attos < self.price.attos {
            Some(DaoError::InsufficientPayment)
        } else if self.units_outstanding == 0 {
            Some(DaoError::SoldOut)
        } else {
            None
        }
    }

    /// The instrument after the issuer pays back `amount`.
    pub open spec fn repay_state(self, amount: Decimal) -> Annuity {
        let taken = self.repay_accepted(amount);
        Annuity {
            collected_funds: Decimal { attos: (self.collected_funds.attos + taken) as u128 },
            total_amount_deposited: Decimal {
                attos: (self.total_amount_deposited.attos + taken) as u128,
            },
            ..self
        }
    }

    /// The instrument after one unit is sold.
    pub open spec fn sold_one(self) -> Annuity {
        Annuity {
            units_outstanding: (self.units_outstanding - 1) as u64,
            collected_funds: Decimal { attos: (self.collected_funds.attos + self.price.attos) as u128 },
            ..self
        }
    }

    /// Whether everything owed has been paid back.
    pub open spec fn is_repaid(&self) -> bool {
        self.total_amount_deposited.attos >= self.total_payback()
    }

    /// What a request for the collateral hands back.
    pub open spec fn release_result(self) -> Option<Asset> {
        if self.is_repaid() { self.collateral } else { None }
    }

    /// The instrument after a request for the collateral.
    pub open spec fn release_state(self) -> Annuity {
        if self.is_repaid() { Annuity { collateral: None, ..self } } else { self }
    }
}

/// The whole years from `current_year` to `maturity_year`; a term under one year
/// is refused.
pub fn term_in_years(maturity_year: i32, current_year: i32) -> (r: Result<u64, DaoError>)
    ensures
        maturity_year - current_year >= 1 ==> r == Ok::<u64, DaoError>(
            (maturity_year - current_year) as u64,
        ),
        maturity_year - current_year < 1 ==> r == Err::<u64, DaoError>(DaoError::InvalidTerm),
{
    let diff: i64 = maturity_year as i64 - current_year as i64;
    if diff >= 1 {
        Ok(diff as u64)
    } else {
        Err(DaoError::InvalidTerm)
    }
}

impl Annuity {
    /// The term in whole calendar years from `now` to `maturity_date`.
    pub fn determine_maturity_year(maturity_date: u64, now: u64) -> (r: Result<u64, DaoError>)
        ensures
            r matches Ok(t) ==> maturity_date <= i64::MAX && now <= i64::MAX && t == utc_year_of(
                maturity_date as i64,
            ) - utc_year_of(now as i64),
            r matches Ok(t) ==> t >= 1,
            r matches Err(e) ==> e == DaoError::InvalidTerm,
            maturity_date <= i64::MAX && now <= i64::MAX && utc_year_of(maturity_date as i64)
                - utc_year_of(now as i64) < 1 ==> r is Err,
            in_calendar_range(maturity_date) && in_calendar_range(now) && calendar_term(
                maturity_date,
                now,
            ) >= 1 ==> r == Ok::<u64, DaoError>(calendar_term(maturity_date, now) as u64),
    {
        if maturity_date > i64::MAX as u64 || now > i64::MAX as u64 {
            return Err(DaoError::InvalidTerm);
        }
        let maturity_year = match utc_year(maturity_date as i64) {
            Some(y) => y,
            None => return Err(DaoError::InvalidTerm),
        };
        let current_year = match utc_year(now as i64) {
            Some(y) => y,
            None => return Err(DaoError::InvalidTerm),
        };
        term_in_years(maturity_year, current_year)
    }

    /// Whether `a` is a freshly issued instrument with these terms and a term of
    /// `term_years`.
    pub open spec fn is_issued(
        a: Annuity,
        nominal_interest_rate: Decimal,
        initial_exchange_date: u64,
        maturity_date: u64,
        notional_principal: Decimal,
        price: Decimal,
        number_of_annuities_to_mint: u64,
        nft_as_a_collateral: Asset,
        unit_resource: u64,
        payment_resource: u64,
        payout_policy: PayoutPolicy,
        term_years: u64,
    ) -> bool {
        &&& a.wf()
        &&& a.nominal_interest_rate == nominal_interest_rate
        &&& a.initial_exchange_date == initial_exchange_date
        &&& a.maturity_date == maturity_date
        &&& a.notional_principal == notional_principal
        &&& a.price == price
        &&& a.term_years == term_years
        &&& a.annual_payout.attos == notional_principal.attos as int / (term_years as int)
        &&& a.last_payout_epoch == initial_exchange_date
        &&& a.units_outstanding == number_of_annuities_to_mint
        &&& a.unit_resource == unit_resource
        &&& a.payment_resource == payment_resource
        &&& a.collected_funds.attos == 0
        &&& a.collateral == Some(nft_as_a_collateral)
        &&& a.total_amount_deposited.attos == 0
        &&& a.payout_policy == payout_policy
    }

    /// Issues an instrument whose term is `term_years` whole years.
    pub fn instantiate_with_term(
        contract_type: String,
        contract_role: String,
        contract_identifier: String,
        nominal_interest_rate: Decimal,
        currency: String,
        initial_exchange_date: u64,
        maturity_date: u64,
        notional_principal: Decimal,
        annuity_position: String,
        price: Decimal,
        number_of_annuities_to_mint: u64,
        nft_as_a_collateral: Asset,
        unit_resource: u64,
        payment_resource: u64,
        payout_policy: PayoutPolicy,
        term_years: u64,
    ) -> (r: Annuity)
        requires
            term_years >= 1,
            terms_fit(notional_principal, nominal_interest_rate),
        ensures
            Self::is_issued(
                r,
                nominal_interest_rate,
                initial_exchange_date,
                maturity_date,
                notional_principal,
                price,
                number_of_annuities_to_mint,
                nft_as_a_collateral,
                unit_resource,
                payment_resource,
                payout_policy,
                term_years,
            ),
            r.contract_type == contract_type,
            r.contract_role == contract_role,
            r.contract_identifier == contract_identifier,
            r.currency == currency,
            r.annuity_position == annuity_position,
    {
        Annuity {
            contract_type,
            contract_role,
            contract_identifier,
            nominal_interest_rate,
            currency,
            initial_exchange_date,
            maturity_date,
            notional_principal,
            annuity_position,
            price,
            term_years,
            annual_payout: notional_principal.div_int(term_years),
            last_payout_epoch: initial_exchange_date,
            units_outstanding: number_of_annuities_to_mint,
            unit_resource,
            payment_resource,
            collected_funds: Decimal::zero(),
            collateral: Some(nft_as_a_collateral),
            total_amount_deposited: Decimal::zero(),
            payout_policy,
        }
    }

    /// Issues an instrument maturing at `maturity_date`, its term counted in
    /// calendar years from `now`; the collateral and all units go into escrow.
    pub fn instantiate_annuity(
        contract_type: String,
        contract_role: String,
        contract_identifier: String,
        nominal_interest_rate: Decimal,
        currency: String,
        initial_exchange_date: u64,
        maturity_date: u64,
        notional_principal: Decimal,
        annuity_position: String,
        price: Decimal,
        number_of_annuities_to_mint: u64,
        nft_as_a_collateral: Asset,
        unit_resource: u64,
        payment_resource: u64,
        payout_policy: PayoutPolicy,
        now: u64,
    ) -> (r: Result<Annuity, DaoError>)
        requires
            terms_fit(notional_principal, nominal_interest_rate),
        ensures
            r matches Ok(a) ==> maturity_date <= i64::MAX && now <= i64::MAX && a.term_years
                == utc_year_of(maturity_date as i64) - utc_year_of(now as i64) && Self::is_issued(
                a,
                nominal_interest_rate,
                initial_exchange_date,
                maturity_date,
                notional_principal,
                price,
                number_of_annuities_to_mint,
                nft_as_a_collateral,
                unit_resource,
                payment_resource,
                payout_policy,
                a.term_years,
            ),
            r matches Err(e) ==> e == DaoError::InvalidTerm,
            maturity_date <= i64::MAX && now <= i64::MAX && utc_year_of(maturity_date as i64)
                - utc_year_of(now as i64) < 1 ==> r is Err,
            in_calendar_range(maturity_date) && in_calendar_range(now) && calendar_term(
                maturity_date,
                now,
            ) >= 1 ==> r is Ok,
    {
        let term_years = match Self::determine_maturity_year(maturity_date, now) {
            Ok(t) => t,
            Err(e) => return Err(e),
        };
        Ok(
            Self::instantiate_with_term(
                contract_type,
                contract_role,
                contract_identifier,
                nominal_interest_rate,
                currency,
                initial_exchange_date,
                maturity_date,
                notional_principal,
                annuity_position,
                price,
                number_of_annuities_to_mint,
                nft_as_a_collateral,
                unit_resource,
                payment_resource,
                payout_policy,
                term_years,
            ),
        )
    }

    /// Why selling a unit for `payment` would be refused, if it would.
    pub fn purchase_refusal(&self, payment: Asset) -> (r: Option<DaoError>)
        ensures
            r == self.purchase_error(payment),
    {
        if payment.resource != self.payment_resource {
            Some(DaoError::WrongAssetType)
        } else if payment.amount.attos < self.price.attos {
            Some(DaoError::InsufficientPayment)
        } else if self.units_outstanding == 0 {
            Some(DaoError::SoldOut)
        } else {
            None
        }
    }

    /// Why a claim with `unit` at `now` would be refused, if it would.
    pub fn claim_refusal(&self, unit: Asset, now: u64) -> (r: Option<DaoError>)
        requires
            self.wf(),
        ensures
            r == match self.claim_result(unit, now) {
                Err(e) => Some(e),
                Ok(_) => None,
            },
    {
        if unit.resource != self.unit_resource || unit.amount.attos != SCALE {
            Some(DaoError::WrongAssetType)
        } else if (now as u128) >= self.last_payout_epoch as u128 + SECONDS_PER_YEAR as u128
            && self.annual_due_amount().attos > self.collected_funds.attos && now
            > self.maturity_date && self.collateral.is_none() {
            Some(DaoError::NoCollateral)
        } else {
            None
        }
    }

    /// Why a repayment with `funds` would be refused, if it would.
    pub fn repay_refusal(&self, funds: Asset) -> (r: Option<DaoError>)
        ensures
            r == (if funds.resource != self.payment_resource {
                Some(DaoError::WrongAssetType)
            } else {
                None
            }),
    {
        if funds.resource != self.payment_resource {
            Some(DaoError::WrongAssetType)
        } else {
            None
        }
    }

    /// Why the issuer's withdrawal of one unit's proceeds would be refused, if it would.
    pub fn withdrawal_refusal(&self) -> (r: Option<DaoError>)
        ensures
            r == (if self.collected_funds.attos < self.price.attos {
                Some(DaoError::InsufficientFunds)
            } else {
                None
            }),
    {
        if self.collected_funds.attos < self.price.attos {
            Some(DaoError::InsufficientFunds)
        } else {
            None
        }
    }

    pub fn get_annuity_address(&self) -> (r: u64)
        ensures
            r == self.unit_resource,
    {
        self.unit_resource
    }

    /// Sells one unit for exactly `price`; the rest of the payment comes back as change.
    pub fn purchase_annuity(&mut self, payment: Asset) -> (r: Result<(Asset, Asset), DaoError>)
        requires
            old(self).wf(),
            old(self).collected_funds.attos + old(self).price.attos <= u128::MAX,
        ensures
            payment.resource != old(self).payment_resource ==> r == Err::<(Asset, Asset), DaoError>(
                DaoError::WrongAssetType,
            ),
            payment.resource == old(self).payment_resource && payment.amount.attos < old(
                self,
            ).price.attos ==> r == Err::<(Asset, Asset), DaoError>(DaoError::InsufficientPayment),
            payment.resource == old(self).payment_resource && payment.amount.attos >= old(
                self,
            ).price.attos && old(self).units_outstanding == 0 ==> r == Err::<
                (Asset, Asset),
                DaoError,
            >(DaoError::SoldOut),
            r is Err ==> *final(self) == *old(self),
            final(self).wf(),
            r matches Ok((unit, change)) ==> {
                &&& unit == Asset { resource: old(self).unit_resource, amount: Decimal { attos: SCALE } }
                &&& change.resource == payment.resource
                &&& change.amount.attos == payment.amount.attos - old(self).price.attos
                &&& *final(self) == old(self).sold_one()
            },
            payment.resource == old(self).payment_resource && payment.amount.attos >= old(
                self,
            ).price.attos && old(self).units_outstanding > 0 ==> r is Ok,
    {
        if let Some(e) = self.purchase_refusal(payment) {
            return Err(e);
        }
        let change = Asset { resource: payment.resource, amount: payment.amount.sub(self.price) };
        self.collected_funds = self.collected_funds.add(self.price);
        self.units_outstanding = self.units_outstanding - 1;
        Ok((Asset { resource: self.unit_resource, amount: Decimal::one() }, change))
    }

    /// Seconds from `now` until the next payout falls due; zero or less once it has.
    pub fn check_time_until_next_payout(&self, now: u64) -> (r: i128)
        ensures
            r == self.time_to_next_payout(now),
    {
        self.last_payout_epoch as i128 + SECONDS_PER_YEAR as i128 - now as i128
    }

    /// Claims the yearly payout with one unit of the instrument, which comes back.
    pub fn claim_annual_payout(&mut self, annuity_token: Asset, now: u64) -> (r: Result<
        (Asset, PayoutOutcome),
        DaoError,
    >)
        requires
            old(self).wf(),
        ensures
            r == old(self).claim_result(annuity_token, now),
            *final(self) == old(self).claim_state(annuity_token, now),
            final(self).wf(),
    {
        if annuity_token.resource != self.unit_resource || annuity_token.amount.attos != SCALE {
            return Err(DaoError::WrongAssetType);
        }
        let remaining_time = self.check_time_until_next_payout(now);
        if (now as u128) < self.last_payout_epoch as u128 + SECONDS_PER_YEAR as u128 {
            return Ok((annuity_token, PayoutOutcome::PrematureClaim { remaining_time }));
        }
        let due = self.annual_due_amount();
        if due.attos <= self.collected_funds.attos {
            self.collected_funds = self.collected_funds.sub(due);
            self.last_payout_epoch = now;
            let remaining_time = if self.payout_policy.remaining_from_new_payout {
                self.check_time_until_next_payout(now)
            } else {
                remaining_time
            };
            let payout = Asset { resource: self.payment_resource, amount: due };
            Ok((annuity_token, PayoutOutcome::Paid { payout, remaining_time }))
        } else if now > self.maturity_date {
            match self.collateral {
                Some(c) => {
                    self.collateral = None;
                    Ok((annuity_token, PayoutOutcome::Liquidated { collateral: c }))
                },
                None => Err(DaoError::NoCollateral),
            }
        } else {
            Ok((annuity_token, PayoutOutcome::PrematureClaim { remaining_time }))
        }
    }

    /// Interest over the whole life of the instrument.
    pub fn interest_amount(&self) -> (r: Decimal)
        requires
            self.wf(),
        ensures
            r.attos == self.interest(),
    {
        self.notional_principal.mul(self.nominal_interest_rate).div_int(PERCENT)
    }

    /// The interest that one yearly claim pays, by the payout policy.
    pub fn yearly_interest_amount(&self) -> (r: Decimal)
        requires
            self.wf(),
        ensures
            r.attos == self.yearly_interest(),
    {
        match self.payout_policy.interest_divisor {
            InterestDivisor::Percent => self.interest_amount(),
            InterestDivisor::PercentPerTermYear => self.interest_amount().div_int(self.term_years),
        }
    }

    /// What one yearly claim pays: the annual share of principal plus the interest.
    pub fn annual_due_amount(&self) -> (r: Decimal)
        requires
            self.wf(),
        ensures
            r.attos == self.annual_due(),
    {
        proof {
            self.lemma_annual_bounded();
        }
        self.annual_payout.add(self.yearly_interest_amount())
    }

    proof fn lemma_annual_bounded(&self)
        requires
            self.wf(),
        ensures
            self.annual_payout.attos <= self.notional_principal.attos,
            0 <= self.interest(),
            self.interest() / (self.term_years as int) <= self.interest(),
            self.annual_due() <= u128::MAX,
            self.annual_payback() <= self.annual_due(),
    {
        vstd::arithmetic::div_mod::lemma_div_is_ordered_by_denominator(
            self.notional_principal.attos as int,
            1,
            self.term_years as int,
        );
        vstd::arithmetic::div_mod::lemma_div_pos_is_pos(
            mul_attos(self.notional_principal.attos as int, self.nominal_interest_rate.attos as int),
            PERCENT as int,
        );
        vstd::arithmetic::div_mod::lemma_div_pos_is_pos(
            (self.notional_principal.attos * self.nominal_interest_rate.attos) as int,
            SCALE as int,
        );
        vstd::arithmetic::div_mod::lemma_div_is_ordered_by_denominator(
            self.interest(),
            1,
            self.term_years as int,
        );
    }

    /// Hands the collateral to the claimant once the maturity date has passed.
    pub fn liquidate_collateral(&mut self, now: u64) -> (r: Result<Asset, DaoError>)
        ensures
            now <= old(self).maturity_date ==> r == Err::<Asset, DaoError>(DaoError::TooEarly),
            now > old(self).maturity_date && old(self).collateral is None ==> r == Err::<
                Asset,
                DaoError,
            >(DaoError::NoCollateral),
            now > old(self).maturity_date && old(self).collateral is Some ==> r == Ok::<
                Asset,
                DaoError,
            >(old(self).collateral->Some_0),
            r is Err ==> *final(self) == *old(self),
            r is Ok ==> *final(self) == (Annuity { collateral: None, ..*old(self) }),
    {
        if now <= self.maturity_date {
            return Err(DaoError::TooEarly);
        }
        match self.collateral {
            Some(c) => {
                self.collateral = None;
                Ok(c)
            },
            None => Err(DaoError::NoCollateral),
        }
    }

    /// The issuer takes out the proceeds of one unit's sale.
    pub fn take_out_the_invested_xrds_by_community(&mut self) -> (r: Result<Asset, DaoError>)
        ensures
            old(self).collected_funds.attos < old(self).price.attos ==> r == Err::<Asset, DaoError>(
                DaoError::InsufficientFunds,
            ) && *final(self) == *old(self),
            old(self).collected_funds.attos >= old(self).price.attos ==> r == Ok::<Asset, DaoError>(
                Asset { resource: old(self).payment_resource, amount: old(self).price },
            ) && *final(self) == (Annuity {
                collected_funds: Decimal {
                    attos: (old(self).collected_funds.attos - old(self).price.attos) as u128,
                },
                ..*old(self)
            }),
    {
        if let Some(e) = self.withdrawal_refusal() {
            return Err(e);
        }
        self.collected_funds = self.collected_funds.sub(self.price);
        Ok(Asset { resource: self.payment_resource, amount: self.price })
    }

    /// The annual share of principal and interest, interest spread over the term.
    pub fn annual_amount_to_payback(&self) -> (r: Decimal)
        requires
            self.wf(),
        ensures
            r.attos == self.annual_payback(),
    {
        proof {
            self.lemma_annual_bounded();
        }
        self.annual_payout.add(self.interest_amount().div_int(self.term_years))
    }

    /// Principal plus interest.
    pub fn total_amount_to_payback(&self) -> (r: Decimal)
        requires
            self.wf(),
        ensures
            r.attos == self.total_payback(),
    {
        self.notional_principal.add(self.interest_amount())
    }

    /// The issuer pays back toward what it owes; whatever exceeds the debt still
    /// outstanding comes back as change.
    pub fn put_in_money_plus_interest_for_the_community_to_redeem(
        &mut self,
        borrowed_xrd_with_interest: Asset,
    ) -> (r: Result<Asset, DaoError>)
        requires
            old(self).wf(),
            old(self).collected_funds.attos + old(self).repay_accepted(
                borrowed_xrd_with_interest.amount,
            ) <= u128::MAX,
        ensures
            final(self).wf(),
            borrowed_xrd_with_interest.resource != old(self).payment_resource ==> r == Err::<
                Asset,
                DaoError,
            >(DaoError::WrongAssetType) && *final(self) == *old(self),
            borrowed_xrd_with_interest.resource == old(self).payment_resource ==> {
                let taken = old(self).repay_accepted(borrowed_xrd_with_interest.amount);
                &&& r == Ok::<Asset, DaoError>(
                    Asset {
                        resource: borrowed_xrd_with_interest.resource,
                        amount: Decimal {
                            attos: (borrowed_xrd_with_interest.amount.attos - taken) as u128,
                        },
                    },
                )
                &&& *final(self) == old(self).repay_state(borrowed_xrd_with_interest.amount)
            },
    {
        if let Some(e) = self.repay_refusal(borrowed_xrd_with_interest) {
            return Err(e);
        }
        let owed = self.remaining_amount_to_be_deposited();
        let taken = borrowed_xrd_with_interest.amount.min(owed);
        self.collected_funds = self.collected_funds.add(taken);
        self.total_amount_deposited = self.total_amount_deposited.add(taken);
        Ok(
            Asset {
                resource: borrowed_xrd_with_interest.resource,
                amount: borrowed_xrd_with_interest.amount.sub(taken),
            },
        )
    }

    pub fn check_the_balance_of_ann_contract(&self) -> (r: Decimal)
        ensures
            r == self.collected_funds,
    {
        self.collected_funds
    }

    pub fn total_amount_deposited(&self) -> (r: Decimal)
        ensures
            r == self.total_amount_deposited,
    {
        self.total_amount_deposited
    }

    /// Returns the collateral to the issuer once everything owed has been paid back;
    /// it leaves the instrument only once.
    pub fn get_back_the_collateral(&mut self) -> (r: Option<Asset>)
        requires
            old(self).wf(),
        ensures
            final(self).wf(),
            r == old(self).release_result(),
            *final(self) == old(self).release_state(),
    {
        let total = self.total_amount_to_payback();
        if self.total_amount_deposited.attos >= total.attos {
            let c = self.collateral;
            self.collateral = None;
            c
        } else {
            None
        }
    }

    /// What the issuer still owes.
    pub fn remaining_amount_to_be_deposited(&self) -> (r: Decimal)
        requires
            self.wf(),
        ensures
            r.attos == self.total_payback() - self.total_amount_deposited.attos,
    {
        self.total_amount_to_payback().sub(self.total_amount_deposited)
    }

    /// The instrument's terms and state as seen at `now`.
    pub fn get_annuity_details(&self, now: u64) -> (r: AnnuityDetails)
        ensures
            r.contract_type == self.contract_type,
            r.contract_role == self.contract_role,
            r.contract_identifier == self.contract_identifier,
            r.nominal_interest_rate == self.nominal_interest_rate,
            r.currency == self.currency,
            r.initial_exchange_date == self.initial_exchange_date,
            r.maturity_date == self.maturity_date,
            r.notional_principal == self.notional_principal,
            r.annuity_position == self.annuity_position,
            r.price == self.price,
            r.amount.attos == self.units_outstanding * SCALE,
            r.maturity_days_left == days_left(self.maturity_date, now),
            r.annual_payout == self.annual_payout,
            r.last_payout_epoch == self.last_payout_epoch,
    {
        let maturity_days_left: i64 = if self.maturity_date >= now {
            ((self.maturity_date - now) / SECONDS_PER_DAY) as i64
        } else {
            -(((now - self.maturity_date) / SECONDS_PER_DAY) as i64)
        };
        AnnuityDetails {
            contract_type: self.contract_type.clone(),
            contract_role: self.contract_role.clone(),
            contract_identifier: self.contract_identifier.clone(),
            nominal_interest_rate: self.nominal_interest_rate,
            currency: self.currency.clone(),
            initial_exchange_date: self.initial_exchange_date,
            maturity_date: self.maturity_date,
            notional_principal: self.notional_principal,
            annuity_position: self.annuity_position.clone(),
            price: self.price,
            amount: Decimal::from_units(self.units_outstanding),
            maturity_days_left,
            annual_payout: self.annual_payout,
            last_payout_epoch: self.last_payout_epoch,
        }
    }
}

} // verus!
