//! The values the ledger works on: accounts, amounts, callers, errors and the state.
use vstd::prelude::*;

verus! {

/// An account address, as its 32 raw bytes.
#[derive(Clone, Copy, Debug)]
pub struct AccountAddress(pub [u8; 32]);

impl View for AccountAddress {
    type V = Seq<u8>;

    open spec fn view(&self) -> Seq<u8> {
        self.0@
    }
}

impl PartialEq for AccountAddress {
    /// Two addresses are equal when all their bytes are.
    fn eq(&self, other: &AccountAddress) -> (r: bool)
        ensures
            r == (self@ == other@),
    {
        let mut i: usize = 0;
        while i < 32
            invariant
                0 <= i <= 32,
                self@.len() == 32,
                other@.len() == 32,
                forall|j: int| 0 <= j < i ==> self@[j] == other@[j],
            decreases 32 - i,
        {
            if self.0[i] != other.0[i] {
                return false;
            }
            i = i + 1;
        }
        assert(self@ =~= other@);
        true
    }
}

impl vstd::std_specs::cmp::PartialEqSpecImpl for AccountAddress {
    open spec fn obeys_eq_spec() -> bool {
        true
    }

    open spec fn eq_spec(&self, other: &AccountAddress) -> bool {
        self@ == other@
    }
}

/// An amount of CCD, counted in its smallest unit (micro CCD).
#[derive(Clone, Copy, Debug, PartialEq, Eq, Structural)]
pub struct Amount {
    pub micro_ccd: u64,
}

impl Amount {
    /// The amount of `micro_ccd` micro CCD.
    pub fn from_micro_ccd(micro_ccd: u64) -> (r: Amount)
        ensures
            r.micro_ccd == micro_ccd,
    {
        Amount { micro_ccd }
    }

    /// The empty amount.
    pub fn zero() -> (r: Amount)
        ensures
            r.micro_ccd == 0,
    {
        Amount { micro_ccd: 0 }
    }

    /// The sum of two amounts, or `None` where it does not fit in 64 bits.
    pub fn checked_add(self, other: Amount) -> (r: Option<Amount>)
        ensures
            self.micro_ccd + other.micro_ccd <= u64::MAX ==> r == Some(
                Amount { micro_ccd: (self.micro_ccd + other.micro_ccd) as u64 },
            ),
            self.micro_ccd + other.micro_ccd > u64::MAX ==> r is None,
    {
        if self.micro_ccd <= u64::MAX - other.micro_ccd {
            Some(Amount { micro_ccd: self.micro_ccd + other.micro_ccd })
        } else {
            None
        }
    }
}

/// Whoever invokes an operation: an account, or a smart contract instance.
#[derive(Clone, Copy, Debug)]
pub enum Caller {
    Account(AccountAddress),
    Contract { index: u64, subindex: u64 },
}

impl Caller {
    /// Whether this caller is the account `acc`.
    pub fn matches_account(&self, acc: &AccountAddress) -> (r: bool)
        ensures
            r == self.is_account(*acc),
    {
        match self {
            Caller::Account(a) => a == acc,
            Caller::Contract { .. } => false,
        }
    }

    /// This caller is the account `acc`.
    pub open spec fn is_account(self, acc: AccountAddress) -> bool {
        self matches Caller::Account(a) && a@ == acc@
    }
}

/// Why an operation was refused.
#[derive(Clone, Copy, Debug, PartialEq, Eq, Structural)]
pub enum ContractError {
    /// The request parameter could not be decoded.
    ParseError,
    /// The caller is not the owner.
    Unauthorized,
    /// The transfer of funds to the recipient was refused.
    TransferFailed,
    /// The running total would no longer fit in its 64 bits.
    InvariantViolation,
}

/// Why the host refused to transfer funds.
#[derive(Clone, Copy, Debug, PartialEq, Eq, Structural)]
pub enum TransferError {
    /// The contract holds less than the amount.
    AmountTooLarge,
    /// The recipient account does not exist.
    MissingAccount,
}

/// The ledger's state: who may pay out, and how much has been paid out so far.
#[derive(Clone, Copy, Debug)]
pub struct State {
    /// The one account that may trigger payouts.
    pub owner: AccountAddress,
    /// The sum of every payout that went through.
    pub total_payouts: Amount,
}

impl PartialEq for State {
    /// Two states are equal when their owners and their totals are.
    fn eq(&self, other: &State) -> (r: bool)
        ensures
            r == (self.owner@ == other.owner@ && self.total_payouts == other.total_payouts),
    {
        self.owner == other.owner && self.total_payouts.micro_ccd == other.total_payouts.micro_ccd
    }
}

impl vstd::std_specs::cmp::PartialEqSpecImpl for State {
    open spec fn obeys_eq_spec() -> bool {
        true
    }

    open spec fn eq_spec(&self, other: &State) -> bool {
        self.owner@ == other.owner@ && self.total_payouts == other.total_payouts
    }
}

impl State {
    /// The state that the account `origin` creates.
    pub open spec fn created_by(origin: AccountAddress) -> State {
        State { owner: origin, total_payouts: Amount { micro_ccd: 0 } }
    }

    /// A fresh state, owned by the account `origin` that creates it, with nothing paid out.
    pub fn init(origin: AccountAddress) -> (r: State)
        ensures
            r == State::created_by(origin),
    {
        State { owner: origin, total_payouts: Amount::zero() }
    }

    /// The total paid out so far.
    pub fn view(&self) -> (r: Amount)
        ensures
            r == self.total_payouts,
    {
        self.total_payouts
    }
}

} // verus!
