//! The interface to token custody.
//!
//! The ledger never moves tokens itself. It reads what custody reports of a
//! mint or a token account, and it hands back the transfer that has to
//! happen for an operation to stand. If custody rejects that transfer, the
//! operation as a whole is void and the records must be left as they were.

use crate::pubkey::Pubkey;
use vstd::prelude::*;

verus! {

/// What the ledger reads of a token mint.
#[derive(Clone, Copy, Debug, PartialEq, Eq)]
pub struct Mint {
    pub address: Pubkey,
    pub decimals: u8,
}

/// What the ledger reads of a token account.
#[derive(Clone, Copy, Debug, PartialEq, Eq)]
pub struct TokenAccount {
    pub address: Pubkey,
    /// Who may spend from the account.
    pub owner: Pubkey,
    /// The asset that the account holds.
    pub mint: Pubkey,
    /// The balance.
    pub amount: u64,
}

/// Who vouches for a transfer.
#[derive(Clone, Copy, Debug, PartialEq, Eq, Structural)]
pub enum Authorization {
    /// The owner of the source account, by signing the request.
    Owner,
    /// The pool itself, by proving that its address derives from its seeds.
    Pool,
}

/// A transfer for custody to carry out.
#[derive(Clone, Copy, Debug, PartialEq, Eq)]
pub struct TransferOrder {
    /// The account that is debited.
    pub from: Pubkey,
    /// The account that is credited.
    pub to: Pubkey,
    /// The identity with authority over `from`.
    pub authority: Pubkey,
    /// How `authority` vouches for the transfer.
    pub authorization: Authorization,
    /// The mint to check the transfer against, with its decimals; `None` for
    /// a plain transfer.
    pub mint: Option<Mint>,
    /// The number of tokens to move.
    pub amount: u64,
}

} // verus!
