//! The payout request and its decoding from the bytes that a caller sends.
//!
//! The request is laid out field after field in the chain's binary encoding:
//! the recipient's 32 address bytes, the amount as a little-endian `u64`, and
//! the tag as a little-endian `u32` byte count followed by that many bytes of
//! UTF-8. Bytes after the tag are not read.
use vstd::bytes::spec_u32_from_le_bytes;
use vstd::bytes::spec_u64_from_le_bytes;
use vstd::prelude::*;
use vstd::slice::slice_subrange;
use vstd::utf8::decode_utf8;
use vstd::utf8::valid_utf8;

use crate::types::AccountAddress;
use crate::types::Amount;
use crate::types::ContractError;

verus! {

/// A payout request: pay `amount` to `winner`. `game_id` is a label that
/// ties the payout to the game it settles, and decides nothing.
#[derive(Clone, Debug)]
pub struct PayoutParams {
    pub winner: AccountAddress,
    pub amount: Amount,
    pub game_id: String,
}

/// What a payout request holds, as plain values.
pub struct PayoutRequest {
    pub winner: Seq<u8>,
    pub amount: u64,
    pub game_id: Seq<char>,
}

impl View for PayoutParams {
    type V = PayoutRequest;

    open spec fn view(&self) -> PayoutRequest {
        PayoutRequest { winner: self.winner@, amount: self.amount.micro_ccd, game_id: self.game_id@ }
    }
}

/// Where the input starts with a whole encoded tag: the tag's UTF-8 bytes.
pub open spec fn tag_bytes(b: Seq<u8>) -> Option<Seq<u8>> {
    if b.len() < 4 {
        None
    } else {
        let n = spec_u32_from_le_bytes(b.subrange(0, 4)) as int;
        if b.len() < 4 + n {
            None
        } else {
            Some(b.subrange(4, 4 + n))
        }
    }
}

/// The request that the bytes `b` encode, or `None` where they encode none.
pub open spec fn decode_request(b: Seq<u8>) -> Option<PayoutRequest> {
    if b.len() < 40 {
        None
    } else {
        match tag_bytes(b.subrange(40, b.len() as int)) {
            Some(t) => if valid_utf8(t) {
                Some(
                    PayoutRequest {
                        winner: b.subrange(0, 32),
                        amount: spec_u64_from_le_bytes(b.subrange(32, 40)),
                        game_id: decode_utf8(t),
                    },
                )
            } else {
                None
            },
            None => None,
        }
    }
}

/// Relies on concordium_std::from_bytes for an AccountAddress: the first 32
/// bytes, read only where there are that many.
#[verifier::external_body]
fn read_account(b: &[u8]) -> (r: Option<AccountAddress>)
    ensures
        r is Some <==> b@.len() >= 32,
        r matches Some(a) ==> a@ == b@.subrange(0, 32),
{
    concordium_std::from_bytes::<concordium_std::AccountAddress>(b).ok().map(|a| AccountAddress(a.0))
}

/// Relies on concordium_std::from_bytes for an Amount: the first 8 bytes
/// as a little-endian count of micro CCD, read only where there are that many.
#[verifier::external_body]
fn read_amount(b: &[u8]) -> (r: Option<Amount>)
    ensures
        r is Some <==> b@.len() >= 8,
        r matches Some(a) ==> a.micro_ccd == spec_u64_from_le_bytes(b@.subrange(0, 8)),
{
    concordium_std::from_bytes::<concordium_std::Amount>(b).ok().map(|a| Amount { micro_ccd: a.micro_ccd })
}

/// Relies on concordium_std::from_bytes for a String: a little-endian `u32`
/// byte count, then that many bytes, which must be valid UTF-8.
#[verifier::external_body]
fn read_tag(b: &[u8]) -> (r: Option<String>)
    ensures
        r is Some <==> (tag_bytes(b@) matches Some(t) && valid_utf8(t)),
        r matches Some(s) ==> s@ == decode_utf8(tag_bytes(b@).unwrap()),
{
    concordium_std::from_bytes::<String>(b).ok()
}

impl PayoutParams {
    /// Decodes a payout request from the bytes a caller sent.
    pub fn decode(b: &[u8]) -> (r: Result<PayoutParams, ContractError>)
        ensures
            match r {
                Ok(p) => decode_request(b@) == Some(p@),
                Err(e) => decode_request(b@) is None && e == ContractError::ParseError,
            },
    {
        let winner = match read_account(b) {
            Some(a) => a,
            None => return Err(ContractError::ParseError),
        };
        let rest = slice_subrange(b, 32, b.len());
        let amount = match read_amount(rest) {
            Some(a) => a,
            None => return Err(ContractError::ParseError),
        };
        let tail = slice_subrange(b, 40, b.len());
        assert(rest@.subrange(0, 8) =~= b@.subrange(32, 40));
        match read_tag(tail) {
            Some(game_id) => Ok(PayoutParams { winner, amount, game_id }),
            None => Err(ContractError::ParseError),
        }
    }
}

} // verus!
