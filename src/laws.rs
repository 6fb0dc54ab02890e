//! What holds of the ledger over whole payout calls and sequences of them.
use vstd::prelude::*;

use crate::params::decode_request;
use crate::params::PayoutRequest;
use crate::payout::fits_total;
use crate::payout::payout_plan;
use crate::payout::record_outcome;
use crate::types::Amount;
use crate::types::AccountAddress;
use crate::types::Caller;
use crate::types::ContractError;
use crate::types::State;
use crate::types::TransferError;

verus! {

/// One payout call as the host runs it: who called, the request bytes, and
/// what the transfer would report if one is made.
pub struct PayoutCall {
    pub caller: Caller,
    pub parameter: Seq<u8>,
    pub transfer: Result<(), TransferError>,
}

/// The state and outcome after the payout call `c` on `s`: `payout`, then,
/// only where it allows one, the transfer and `record_payout`.
pub open spec fn payout_step(s: State, c: PayoutCall) -> (State, Result<(), ContractError>) {
    match payout_plan(s, c.caller, c.parameter) {
        Err(e) => (s, Err(e)),
        Ok(p) => record_outcome(s, p.amount, c.transfer),
    }
}

/// The amount that the payout call `c` on `s` pays out: its amount where it
/// succeeds, else nothing.
pub open spec fn paid_by(s: State, c: PayoutCall) -> int {
    match payout_plan(s, c.caller, c.parameter) {
        Ok(p) => if payout_step(s, c).1 is Ok {
            p.amount as int
        } else {
            0
        },
        Err(_) => 0,
    }
}

/// The state after the payout calls `calls`, one after the other, from `s`.
pub open spec fn run_calls(s: State, calls: Seq<PayoutCall>) -> State
    decreases calls.len(),
{
    if calls.len() == 0 {
        s
    } else {
        payout_step(run_calls(s, calls.drop_last()), calls.last()).0
    }
}

/// The sum of the amounts of the calls among `calls`, run from `s`, that succeed.
pub open spec fn total_paid(s: State, calls: Seq<PayoutCall>) -> int
    decreases calls.len(),
{
    if calls.len() == 0 {
        0
    } else {
        total_paid(s, calls.drop_last()) + paid_by(run_calls(s, calls.drop_last()), calls.last())
    }
}

/// A caller other than the owner is refused with `Unauthorized` and the
/// state is left as it was, whatever the request bytes hold and whatever a
/// transfer would report: no transfer is asked for.
pub proof fn lemma_authorization_gate(s: State, c: PayoutCall)
    requires
        !c.caller.is_account(s.owner),
    ensures
        payout_plan(s, c.caller, c.parameter) == Err::<PayoutRequest, ContractError>(
            ContractError::Unauthorized,
        ),
        payout_step(s, c) == (s, Err::<(), ContractError>(ContractError::Unauthorized)),
{
}

/// The owner, with a well-formed request whose amount fits the total, gets
/// exactly one transfer, of that amount to that recipient; once it succeeds
/// the total has grown by the amount and the owner is the same.
pub proof fn lemma_owner_payout(s: State, c: PayoutCall, request: PayoutRequest)
    requires
        c.caller.is_account(s.owner),
        decode_request(c.parameter) == Some(request),
        fits_total(s, request.amount),
        c.transfer is Ok,
    ensures
        payout_plan(s, c.caller, c.parameter) == Ok::<PayoutRequest, ContractError>(request),
        payout_step(s, c) == (
            State {
                owner: s.owner,
                total_payouts: Amount {
                    micro_ccd: (s.total_payouts.micro_ccd + request.amount) as u64,
                },
            },
            Ok::<(), ContractError>(()),
        ),
        payout_step(s, c).0.total_payouts.micro_ccd == s.total_payouts.micro_ccd + request.amount,
{
}

/// Where the call is allowed a transfer but the transfer fails, the state
/// is exactly what it was and the call fails with `TransferFailed`.
pub proof fn lemma_transfer_failure_keeps_state(s: State, c: PayoutCall)
    requires
        payout_plan(s, c.caller, c.parameter) is Ok,
        c.transfer is Err,
    ensures
        payout_step(s, c) == (s, Err::<(), ContractError>(ContractError::TransferFailed)),
{
}

/// Over any sequence of payout calls the owner stays the same, the total
/// never decreases from one call to the next, and the total at the end is
/// the total at the start plus the amounts of the calls that succeeded.
pub proof fn lemma_total_tracks_payouts(s: State, calls: Seq<PayoutCall>)
    ensures
        run_calls(s, calls).owner == s.owner,
        run_calls(s, calls).total_payouts.micro_ccd == s.total_payouts.micro_ccd + total_paid(s, calls),
        forall|i: int|
            0 <= i < calls.len() ==> (#[trigger] run_calls(s, calls.take(i))).total_payouts.micro_ccd
                <= run_calls(s, calls.take(i + 1)).total_payouts.micro_ccd,
    decreases calls.len(),
{
    if calls.len() > 0 {
        lemma_total_tracks_payouts(s, calls.drop_last());
        lemma_step_grows(run_calls(s, calls.drop_last()), calls.last());
        assert forall|i: int|
            0 <= i < calls.len() implies (#[trigger] run_calls(s, calls.take(i))).total_payouts.micro_ccd
                <= run_calls(s, calls.take(i + 1)).total_payouts.micro_ccd by {
            let prefix = calls.take(i + 1);
            assert(prefix.drop_last() =~= calls.take(i));
            assert(prefix.last() == calls[i]);
            lemma_step_grows(run_calls(s, calls.take(i)), calls[i]);
        }
    }
}

/// One payout call keeps the owner and adds to the total exactly what it pays out.
proof fn lemma_step_grows(s: State, c: PayoutCall)
    ensures
        payout_step(s, c).0.owner == s.owner,
        payout_step(s, c).0.total_payouts.micro_ccd == s.total_payouts.micro_ccd + paid_by(s, c),
        paid_by(s, c) >= 0,
{
}

/// The state that an account creates has paid out nothing, and a payout
/// call passes the owner check exactly when that account makes it.
pub proof fn lemma_creation(origin: AccountAddress, c: PayoutCall)
    ensures
        State::created_by(origin).total_payouts.micro_ccd == 0,
        State::created_by(origin).owner == origin,
        c.caller.is_account(origin) ==> payout_plan(State::created_by(origin), c.caller, c.parameter)
            != Err::<PayoutRequest, ContractError>(ContractError::Unauthorized),
        !c.caller.is_account(origin) ==> payout_step(State::created_by(origin), c) == (
            State::created_by(origin),
            Err::<(), ContractError>(ContractError::Unauthorized),
        ),
{
}

} // verus!
