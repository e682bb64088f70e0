use vstd::prelude::*;

use crate::state::{Pubkey, TokenData, TokenTracker};

verus! {

/// A storage slot on the ledger: its balance, and the record it holds, if any.
pub struct Account<T> {
    pub lamports: u64,
    pub data: Option<T>,
}

/// The account that signs an instruction and pays for what it creates.
#[derive(Clone, Copy, Debug)]
pub struct Signer {
    pub key: Pubkey,
    /// Whether the ledger verified this account's signature.
    pub is_signer: bool,
    pub lamports: u64,
}

/// The ledger's clock as an instruction sees it.
#[derive(Clone, Copy, Debug, PartialEq, Eq, Structural)]
pub struct Clock {
    pub unix_timestamp: i64,
}

/// Why an instruction was rejected. A rejected instruction changes nothing.
#[derive(Clone, Copy, Debug, PartialEq, Eq, Structural)]
pub enum TrackerError {
    /// The caller did not sign, or is not the tracker's authority.
    AuthorizationFailure,
    /// The slot for a new record already holds one.
    AlreadyExists,
    /// The slot for an existing record is empty.
    NotFound,
    /// The payer cannot fund the new record's storage.
    AllocationFailure,
    /// The record's strings do not fit the space allocated for it.
    DataTooLarge,
    /// The tracker's counter is at its maximum.
    CounterOverflow,
}

/// Accounts of `initialize`: the empty slot for the new tracker and its
/// owner-to-be, who pays `rent` for the slot.
pub struct Initialize {
    pub tracker: Account<TokenTracker>,
    pub authority: Signer,
    /// Balance a slot needs to hold a tracker, as the ledger charges it.
    pub rent: u64,
}

/// Accounts of `add_token`: the tracker, the empty slot for the new record,
/// and the tracker's authority, who pays `rent` for the slot.
pub struct AddToken {
    pub tracker: Account<TokenTracker>,
    pub token_data: Account<TokenData>,
    pub authority: Signer,
    /// Balance a slot needs to hold a token record, as the ledger charges it.
    pub rent: u64,
    pub clock: Clock,
}

/// Accounts of `update_token_price`.
pub struct UpdateTokenPrice {
    pub token_data: Account<TokenData>,
    pub authority: Signer,
    pub clock: Clock,
}

/// Accounts of `toggle_token_status`.
pub struct ToggleTokenStatus {
    pub token_data: Account<TokenData>,
    pub authority: Signer,
}

/// Lamports the payer must add so that a slot holding `balance` reaches `rent`.
pub open spec fn funding_needed(balance: u64, rent: u64) -> u64 {
    if balance >= rent {
        0
    } else {
        (rent - balance) as u64
    }
}

/// Computes [`funding_needed`].
pub fn top_up(balance: u64, rent: u64) -> (r: u64)
    ensures
        r == funding_needed(balance, rent),
{
    rent.saturating_sub(balance)
}

} // verus!
