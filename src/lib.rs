//! An owner-gated payout ledger: one account may pay out funds, and the
//! running total of everything paid out is kept.
pub mod laws;
pub mod params;
pub mod payout;
pub mod types;

pub use crate::params::PayoutParams;
pub use crate::types::AccountAddress;
pub use crate::types::Amount;
pub use crate::types::Caller;
pub use crate::types::ContractError;
pub use crate::types::State;
pub use crate::types::TransferError;
