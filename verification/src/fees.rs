//! The fees contract: a percentage fee, set by an administrator, that is
//! deducted from amounts and added up. Callers are named by the accounts
//! that the host has authenticated them as.

use vstd::prelude::*;
use crate::account::{opt_name, Account};

verus! {

/// Why an operation of the fees contract was rejected.
#[derive(Copy, Clone, Debug, PartialEq, Eq, Structural, PartialOrd, Ord)]
pub enum FeeError {
    NotInitialized,
    AlreadyInitialized,
    Unauthorized,
    InvalidPercentage,
    InvalidAmount,
    Overflow,
}

impl FeeError {
    /// The numeric code under which the error is reported.
    pub fn code(&self) -> (code: u32)
        ensures
            code == match *self {
                FeeError::NotInitialized => 1u32,
                FeeError::AlreadyInitialized => 2u32,
                FeeError::Unauthorized => 3u32,
                FeeError::InvalidPercentage => 4u32,
                FeeError::InvalidAmount => 5u32,
                FeeError::Overflow => 6u32,
            },
    {
        match self {
            FeeError::NotInitialized => 1,
            FeeError::AlreadyInitialized => 2,
            FeeError::Unauthorized => 3,
            FeeError::InvalidPercentage => 4,
            FeeError::InvalidAmount => 5,
            FeeError::Overflow => 6,
        }
    }
}

/// The share that stands for the whole: 10000 basis points.
pub const MAX_PERCENTAGE_BPS: u32 = 10_000;

/// What the fees contract reports. The contract only collects events;
/// publishing them is left to its host.
#[derive(Debug, PartialEq, Eq)]
pub enum FeeEvent {
    /// `fee` was deducted from `amount` of `payer` at time `at`.
    Deducted { payer: Account, amount: i128, fee: i128, at: u64 },
    /// `admin` set the percentage to `percentage_bps` at time `at`.
    ConfigUpdated { admin: Account, percentage_bps: u32, at: u64 },
}

impl FeeEvent {
    /// The pair of topic words under which the event is published.
    pub fn topics(&self) -> (topics: (&'static str, &'static str))
        ensures
            topics.0@ == "fee"@,
            self is Deducted ==> topics.1@ == "deducted"@,
            self is ConfigUpdated ==> topics.1@ == "config_updated"@,
    {
        match self {
            FeeEvent::Deducted { .. } => ("fee", "deducted"),
            FeeEvent::ConfigUpdated { .. } => ("fee", "config_updated"),
        }
    }
}

/// The makers of the fees contract's events.
pub struct FeeEvents;

impl FeeEvents {
    /// The event for a fee that was deducted.
    pub fn fee_deducted(payer: &Account, amount: i128, fee: i128, at: u64) -> (event: FeeEvent)
        ensures
            event matches FeeEvent::Deducted { payer: p, amount: a, fee: f, at: t } && p@ == payer@ && a
                == amount && f == fee && t == at,
    {
        FeeEvent::Deducted { payer: payer.clone(), amount, fee, at }
    }

    /// The event for a percentage that was set.
    pub fn config_updated(admin: &Account, percentage_bps: u32, at: u64) -> (event: FeeEvent)
        ensures
            event matches FeeEvent::ConfigUpdated { admin: a, percentage_bps: p, at: t } && a@ == admin@
                && p == percentage_bps && t == at,
    {
        FeeEvent::ConfigUpdated { admin: admin.clone(), percentage_bps, at }
    }
}

/// The fee on `amount` at `percentage_bps` basis points, rounded down.
pub open spec fn fee_of(amount: int, percentage_bps: int) -> int {
    amount * percentage_bps / 10000
}

/// The state of the fees contract.
pub struct FeesContract {
    pub admin: Option<Account>,
    /// The fee in basis points; zero before initialization.
    pub percentage_bps: u32,
    /// The sum of all fees deducted so far.
    pub total_collected: i128,
    /// The events that were collected and not yet taken.
    pub events: Vec<FeeEvent>,
}

impl FeesContract {
    /// The invariant of the contract: the percentage is at most the whole.
    pub open spec fn wf(&self) -> bool {
        self.percentage_bps <= MAX_PERCENTAGE_BPS
    }

    /// The contract before initialization.
    pub fn new() -> (contract: FeesContract)
        ensures
            contract.wf(),
            contract.admin is None,
            contract.percentage_bps == 0,
            contract.total_collected == 0,
            contract.events@.len() == 0,
    {
        FeesContract { admin: None, percentage_bps: 0, total_collected: 0, events: Vec::new() }
    }

    /// Why an initialization is refused, if it is.
    pub open spec fn initialize_error(&self, percentage_bps: u32) -> Option<FeeError> {
        if self.admin is Some {
            Some(FeeError::AlreadyInitialized)
        } else if percentage_bps > MAX_PERCENTAGE_BPS {
            Some(FeeError::InvalidPercentage)
        } else {
            None
        }
    }

    /// Makes `admin` the administrator, sets the percentage and resets the
    /// sum of collected fees. Can be done once.
    pub fn initialize(&mut self, admin: Account, percentage_bps: u32) -> (result: Result<(), FeeError>)
        requires
            old(self).wf(),
        ensures
            final(self).wf(),
            final(self).events@ == old(self).events@,
            match old(self).initialize_error(percentage_bps) {
                Some(e) => result == Err::<(), FeeError>(e) && *final(self) == *old(self),
                None => {
                    &&& result is Ok
                    &&& opt_name(final(self).admin) == Some(admin@)
                    &&& final(self).percentage_bps == percentage_bps
                    &&& final(self).total_collected == 0
                },
            },
    {
        if self.admin.is_some() {
            return Err(FeeError::AlreadyInitialized);
        }
        if percentage_bps > MAX_PERCENTAGE_BPS {
            return Err(FeeError::InvalidPercentage);
        }
        self.admin = Some(admin);
        self.percentage_bps = percentage_bps;
        self.total_collected = 0;
        Ok(())
    }

    /// Why a new percentage is refused, if it is.
    pub open spec fn set_percentage_error(&self, caller: Seq<char>, percentage_bps: u32) -> Option<
        FeeError,
    > {
        if self.admin is None {
            Some(FeeError::NotInitialized)
        } else if opt_name(self.admin) != Some(caller) {
            Some(FeeError::Unauthorized)
        } else if percentage_bps > MAX_PERCENTAGE_BPS {
            Some(FeeError::InvalidPercentage)
        } else {
            None
        }
    }

    /// Sets the percentage on behalf of the administrator, at time `now`,
    /// and collects the event that reports it.
    pub fn set_percentage(&mut self, caller: Account, percentage_bps: u32, now: u64) -> (result: Result<
        (),
        FeeError,
    >)
        requires
            old(self).wf(),
        ensures
            final(self).wf(),
            match old(self).set_percentage_error(caller@, percentage_bps) {
                Some(e) => result == Err::<(), FeeError>(e) && *final(self) == *old(self),
                None => {
                    &&& result is Ok
                    &&& final(self).percentage_bps == percentage_bps
                    &&& final(self).admin == old(self).admin
                    &&& final(self).total_collected == old(self).total_collected
                    &&& final(self).events@.len() == old(self).events@.len() + 1
                    &&& final(self).events@.drop_last() == old(self).events@
                    &&& final(self).events@.last() matches FeeEvent::ConfigUpdated {
                        admin: a,
                        percentage_bps: p,
                        at: t,
                    } && a@ == caller@ && p == percentage_bps && t == now
                },
            },
    {
        match &self.admin {
            None => {
                return Err(FeeError::NotInitialized);
            },
            Some(admin) => {
                if !admin.same(&caller) {
                    return Err(FeeError::Unauthorized);
                }
            },
        }
        if percentage_bps > MAX_PERCENTAGE_BPS {
            return Err(FeeError::InvalidPercentage);
        }
        self.percentage_bps = percentage_bps;
        self.events.push(FeeEvents::config_updated(&caller, percentage_bps, now));
        assert(self.events@.drop_last() =~= old(self).events@);
        Ok(())
    }

    /// The fee in basis points.
    pub fn get_percentage(&self) -> (percentage_bps: u32)
        ensures
            percentage_bps == self.percentage_bps,
    {
        self.percentage_bps
    }

    /// Why no fee can be calculated for `amount`, if none can.
    pub open spec fn calculate_error(&self, amount: int) -> Option<FeeError> {
        if amount <= 0 {
            Some(FeeError::InvalidAmount)
        } else if amount * self.percentage_bps > i128::MAX {
            Some(FeeError::Overflow)
        } else {
            None
        }
    }

    /// The fee on `amount`, rounded down. The amount must be positive, and
    /// its product with the percentage must be representable.
    pub fn calculate_fee(&self, amount: i128) -> (result: Result<i128, FeeError>)
        ensures
            match self.calculate_error(amount as int) {
                Some(e) => result == Err::<i128, FeeError>(e),
                None => result == Ok::<i128, FeeError>(
                    fee_of(amount as int, self.percentage_bps as int) as i128,
                ),
            },
            result is Ok && self.wf() ==> 0 <= result->Ok_0 <= amount,
    {
        if amount <= 0 {
            return Err(FeeError::InvalidAmount);
        }
        assert(0 <= amount * self.percentage_bps) by (nonlinear_arith)
            requires
                0 < amount,
                0 <= self.percentage_bps,
        ;
        match amount.checked_mul(self.percentage_bps as i128) {
            None => Err(FeeError::Overflow),
            Some(product) => {
                let fee = product / 10_000;
                proof {
                    if self.wf() {
                        assert(amount * self.percentage_bps <= amount * 10000) by (nonlinear_arith)
                            requires
                                0 < amount,
                                self.percentage_bps <= 10000,
                        ;
                    }
                }
                Ok(fee)
            },
        }
    }

    /// Why no fee can be deducted from `amount`, if none can.
    pub open spec fn deduct_error(&self, amount: int) -> Option<FeeError> {
        if self.calculate_error(amount) is Some {
            self.calculate_error(amount)
        } else if self.total_collected + fee_of(amount, self.percentage_bps as int) > i128::MAX {
            Some(FeeError::Overflow)
        } else {
            None
        }
    }

    /// Deducts the fee from `amount` of `payer` at time `now`: returns the
    /// rest and the fee, adds the fee to the sum collected and collects the
    /// event that reports it. A refused deduction changes nothing.
    pub fn deduct_fee(&mut self, payer: Account, amount: i128, now: u64) -> (result: Result<
        (i128, i128),
        FeeError,
    >)
        requires
            old(self).wf(),
            old(self).total_collected >= 0,
        ensures
            final(self).wf(),
            final(self).total_collected >= 0,
            match old(self).deduct_error(amount as int) {
                Some(e) => result == Err::<(i128, i128), FeeError>(e) && *final(self) == *old(self),
                None => {
                    let fee = fee_of(amount as int, old(self).percentage_bps as int);
                    &&& result == Ok::<(i128, i128), FeeError>(((amount - fee) as i128, fee as i128))
                    &&& final(self).total_collected == old(self).total_collected + fee
                    &&& final(self).percentage_bps == old(self).percentage_bps
                    &&& final(self).admin == old(self).admin
                    &&& final(self).events@.len() == old(self).events@.len() + 1
                    &&& final(self).events@.drop_last() == old(self).events@
                    &&& final(self).events@.last() matches FeeEvent::Deducted {
                        payer: p,
                        amount: a,
                        fee: f,
                        at: t,
                    } && p@ == payer@ && a == amount && f == fee && t == now
                },
            },
    {
        let fee = match self.calculate_fee(amount) {
            Err(e) => {
                return Err(e);
            },
            Ok(fee) => fee,
        };
        let net = amount - fee;
        let total = match self.total_collected.checked_add(fee) {
            None => {
                return Err(FeeError::Overflow);
            },
            Some(total) => total,
        };
        self.total_collected = total;
        self.events.push(FeeEvents::fee_deducted(&payer, amount, fee, now));
        assert(self.events@.drop_last() =~= old(self).events@);
        Ok((net, fee))
    }

    /// The sum of all fees deducted so far.
    pub fn get_total_collected(&self) -> (total: i128)
        ensures
            total == self.total_collected,
    {
        self.total_collected
    }

    /// Hands out the collected events, oldest first, and forgets them.
    pub fn take_events(&mut self) -> (events: Vec<FeeEvent>)
        ensures
            events@ == old(self).events@,
            final(self).events@.len() == 0,
            final(self).admin == old(self).admin,
            final(self).percentage_bps == old(self).percentage_bps,
            final(self).total_collected == old(self).total_collected,
    {
        let mut events: Vec<FeeEvent> = Vec::new();
        std::mem::swap(&mut self.events, &mut events);
        events
    }
}

} // verus!
