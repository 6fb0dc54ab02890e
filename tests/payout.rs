use payout_contract::AccountAddress;
use payout_contract::Amount;
use payout_contract::Caller;
use payout_contract::ContractError;
use payout_contract::PayoutParams;
use payout_contract::State;
use payout_contract::TransferError;

const OWNER: AccountAddress = AccountAddress([1u8; 32]);
const OTHER: AccountAddress = AccountAddress([2u8; 32]);
const WINNER: AccountAddress = AccountAddress([9u8; 32]);

fn encode(winner: &AccountAddress, amount: u64, tag: &[u8]) -> Vec<u8> {
    let mut out = winner.0.to_vec();
    out.extend_from_slice(&amount.to_le_bytes());
    out.extend_from_slice(&(tag.len() as u32).to_le_bytes());
    out.extend_from_slice(tag);
    out
}

fn state_with_total(total: u64) -> State {
    State { owner: OWNER, total_payouts: Amount::from_micro_ccd(total) }
}

#[test]
fn creation_starts_empty_and_owned_by_creator() {
    let s = State::init(OWNER);
    assert_eq!(s.view().micro_ccd, 0);
    assert!(s.owner == OWNER);
    let req = encode(&WINNER, 5, b"g");
    assert!(s.payout(&Caller::Account(OWNER), &req).is_ok());
    assert_eq!(s.payout(&Caller::Account(OTHER), &req).unwrap_err(), ContractError::Unauthorized);
}

#[test]
fn non_owner_is_refused_even_with_valid_request() {
    let s = state_with_total(42);
    let req = encode(&WINNER, 1_000_000, b"game_123");
    let before = s;
    assert_eq!(s.payout(&Caller::Account(OTHER), &req).unwrap_err(), ContractError::Unauthorized);
    let contract = Caller::Contract { index: 3, subindex: 0 };
    assert_eq!(s.payout(&contract, &req).unwrap_err(), ContractError::Unauthorized);
    assert!(s == before);
}

#[test]
fn authorization_is_checked_before_decoding() {
    let s = state_with_total(0);
    assert_eq!(s.payout(&Caller::Account(OTHER), &[0u8; 3]).unwrap_err(), ContractError::Unauthorized);
    assert_eq!(s.payout(&Caller::Account(OWNER), &[0u8; 3]).unwrap_err(), ContractError::ParseError);
}

#[test]
fn owner_payout_transfers_once_and_adds_amount() {
    let mut s = state_with_total(250);
    let req = encode(&WINNER, 1_000_000, b"game_123");
    let params = s.payout(&Caller::Account(OWNER), &req).unwrap();
    assert!(params.winner == WINNER);
    assert_eq!(params.amount.micro_ccd, 1_000_000);
    assert_eq!(params.game_id, "game_123");
    assert_eq!(s.record_payout(&params, Ok(())), Ok(()));
    assert_eq!(s.view().micro_ccd, 250 + 1_000_000);
    assert!(s.owner == OWNER);
}

#[test]
fn transfer_failure_leaves_state_untouched() {
    let mut s = state_with_total(77);
    let before = s;
    let req = encode(&WINNER, 1_000_000, b"game_123");
    let params = s.payout(&Caller::Account(OWNER), &req).unwrap();
    assert_eq!(s.record_payout(&params, Err(TransferError::AmountTooLarge)), Err(ContractError::TransferFailed));
    assert!(s == before);
    assert_eq!(s.record_payout(&params, Err(TransferError::MissingAccount)), Err(ContractError::TransferFailed));
    assert!(s == before);
}

#[test]
fn total_is_sum_of_successful_payouts() {
    let mut s = State::init(OWNER);
    let calls: [(AccountAddress, u64, Result<(), TransferError>); 5] = [
        (OWNER, 10, Ok(())),
        (OTHER, 1000, Ok(())),
        (OWNER, 20, Err(TransferError::AmountTooLarge)),
        (OWNER, 30, Ok(())),
        (OWNER, 0, Ok(())),
    ];
    let mut last = s.view().micro_ccd;
    for (caller, amount, transfer) in calls {
        let req = encode(&WINNER, amount, b"t");
        if let Ok(params) = s.payout(&Caller::Account(caller), &req) {
            let _ = s.record_payout(&params, transfer);
        }
        assert!(s.view().micro_ccd >= last);
        last = s.view().micro_ccd;
    }
    assert_eq!(s.view().micro_ccd, 40);
}

#[test]
fn view_is_repeatable() {
    let s = state_with_total(123_456);
    let before = s;
    assert_eq!(s.view(), Amount::from_micro_ccd(123_456));
    assert_eq!(s.view(), s.view());
    assert!(s == before);
}

#[test]
fn overflowing_total_is_refused_before_transfer() {
    let mut s = state_with_total(u64::MAX - 5);
    let req = encode(&WINNER, 6, b"x");
    assert_eq!(s.payout(&Caller::Account(OWNER), &req).unwrap_err(), ContractError::InvariantViolation);
    let ok = encode(&WINNER, 5, b"x");
    let params = s.payout(&Caller::Account(OWNER), &ok).unwrap();
    assert_eq!(s.record_payout(&params, Ok(())), Ok(()));
    assert_eq!(s.view().micro_ccd, u64::MAX);
    let one = PayoutParams { winner: WINNER, amount: Amount::from_micro_ccd(1), game_id: String::new() };
    assert_eq!(s.record_payout(&one, Ok(())), Err(ContractError::InvariantViolation));
    assert_eq!(s.view().micro_ccd, u64::MAX);
}

#[test]
fn decode_reads_fields_in_order() {
    let mut req = encode(&WINNER, 0x0102_0304_0506_0708, "spiel-ü".as_bytes());
    req.extend_from_slice(&[0xff, 0xff]);
    let p = PayoutParams::decode(&req).unwrap();
    assert!(p.winner == WINNER);
    assert_eq!(p.amount.micro_ccd, 0x0102_0304_0506_0708);
    assert_eq!(p.game_id, "spiel-ü");
}

#[test]
fn decode_accepts_empty_tag() {
    let req = encode(&OTHER, 513, b"");
    let p = PayoutParams::decode(&req).unwrap();
    assert!(p.winner == OTHER);
    assert_eq!(p.amount.micro_ccd, 513);
    assert_eq!(p.game_id, "");
}

#[test]
fn decode_rejects_malformed_requests() {
    let full = encode(&WINNER, 7, b"abc");
    for cut in [0usize, 31, 32, 39, 40, 43, 44, 46] {
        assert_eq!(PayoutParams::decode(&full[..cut]).unwrap_err(), ContractError::ParseError);
    }
    assert!(PayoutParams::decode(&full).is_ok());
    let bad_utf8 = encode(&WINNER, 7, &[0xc3, 0x28]);
    assert_eq!(PayoutParams::decode(&bad_utf8).unwrap_err(), ContractError::ParseError);
}

#[test]
fn amounts_add_with_overflow_check() {
    assert_eq!(Amount::zero().micro_ccd, 0);
    assert_eq!(Amount::from_micro_ccd(7).checked_add(Amount::from_micro_ccd(8)), Some(Amount::from_micro_ccd(15)));
    assert_eq!(Amount::from_micro_ccd(u64::MAX).checked_add(Amount::from_micro_ccd(1)), None);
}

#[test]
fn caller_matches_only_its_own_account() {
    assert!(Caller::Account(OWNER).matches_account(&OWNER));
    assert!(!Caller::Account(OTHER).matches_account(&OWNER));
    assert!(!Caller::Contract { index: 0, subindex: 0 }.matches_account(&OWNER));
    let mut near = OWNER;
    near.0[31] = 0;
    assert!(!(near == OWNER));
}
