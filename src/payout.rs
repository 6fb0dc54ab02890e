//! The payout operation, in the two steps around the host's transfer: first
//! the decision whether to transfer and what, then the record of its outcome.
//!
//! The host runs a payout call as `payout`, then (only on `Ok`) the transfer
//! of the returned amount to the returned recipient, then `record_payout`
//! with what the transfer reported. Nothing is written before the transfer
//! has succeeded, so a refused call leaves the state as it was.
use vstd::prelude::*;

use crate::params::decode_request;
use crate::params::PayoutParams;
use crate::params::PayoutRequest;
use crate::types::Amount;
use crate::types::Caller;
use crate::types::ContractError;
use crate::types::State;
use crate::types::TransferError;

verus! {

/// Whether `amount` can be added to the total of `s` without leaving 64 bits.
pub open spec fn fits_total(s: State, amount: u64) -> bool {
    s.total_payouts.micro_ccd + amount <= u64::MAX
}

/// The transfer that a payout call by `caller` with the bytes `parameter`
/// asks for, or the error that stops it. The caller is checked first, then
/// the request is decoded, then the new total is checked to fit.
pub open spec fn payout_plan(s: State, caller: Caller, parameter: Seq<u8>) -> Result<
    PayoutRequest,
    ContractError,
> {
    if !caller.is_account(s.owner) {
        Err(ContractError::Unauthorized)
    } else {
        match decode_request(parameter) {
            None => Err(ContractError::ParseError),
            Some(p) => if fits_total(s, p.amount) {
                Ok(p)
            } else {
                Err(ContractError::InvariantViolation)
            },
        }
    }
}

/// The state and outcome after a transfer of `amount` that ended with `transfer`.
pub open spec fn record_outcome(s: State, amount: u64, transfer: Result<(), TransferError>) -> (
    State,
    Result<(), ContractError>,
) {
    match transfer {
        Err(_) => (s, Err(ContractError::TransferFailed)),
        Ok(()) => if fits_total(s, amount) {
            (
                State {
                    owner: s.owner,
                    total_payouts: Amount { micro_ccd: (s.total_payouts.micro_ccd + amount) as u64 },
                },
                Ok(()),
            )
        } else {
            (s, Err(ContractError::InvariantViolation))
        },
    }
}

impl State {
    /// Decides a payout call by `caller` with the request bytes `parameter`.
    /// `Ok` holds the one transfer to make: its recipient and amount. Only
    /// the owner gets that far; anyone else gets `Unauthorized` whatever the
    /// bytes hold.
    pub fn payout(&self, caller: &Caller, parameter: &[u8]) -> (r: Result<PayoutParams, ContractError>)
        ensures
            match r {
                Ok(p) => payout_plan(*self, *caller, parameter@) == Ok::<PayoutRequest, ContractError>(p@),
                Err(e) => payout_plan(*self, *caller, parameter@) == Err::<PayoutRequest, ContractError>(e),
            },
    {
        if !caller.matches_account(&self.owner) {
            return Err(ContractError::Unauthorized);
        }
        let params = PayoutParams::decode(parameter)?;
        if self.total_payouts.checked_add(params.amount).is_none() {
            return Err(ContractError::InvariantViolation);
        }
        Ok(params)
    }

    /// Records the outcome of the transfer that `payout` asked for: on
    /// success the amount is added to the total; on failure nothing changes
    /// and the call fails with `TransferFailed`.
    pub fn record_payout(&mut self, params: &PayoutParams, transfer: Result<(), TransferError>) -> (r:
        Result<(), ContractError>)
        ensures
            (*final(self), r) == record_outcome(*old(self), params.amount.micro_ccd, transfer),
    {
        if transfer.is_err() {
            return Err(ContractError::TransferFailed);
        }
        match self.total_payouts.checked_add(params.amount) {
            Some(total) => {
                self.total_payouts = total;
                Ok(())
            },
            None => Err(ContractError::InvariantViolation),
        }
    }
}

} // verus!
