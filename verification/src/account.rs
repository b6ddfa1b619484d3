//! A plain-value snapshot of one storage cell (account).
//!
//! The host substrate hands each handler, per account, a 32-byte public
//! identity, a signer flag, a balance, the owning program's identity, and the
//! raw data region.  The handlers work on this snapshot; the caller copies
//! the mutated snapshot back into the substrate's buffers.

use vstd::prelude::*;

verus! {

/// Snapshot of one account as the handlers see it.
pub struct Account {
    /// The account's public identity (32 bytes).
    pub key: Vec<u8>,
    /// True when this identity cryptographically endorsed the call.
    pub is_signer: bool,
    /// The account's balance; zero means the cell was never materialized.
    pub lamports: u64,
    /// Identity of the program that owns the cell (32 bytes).
    pub owner: Vec<u8>,
    /// The cell's raw data region.
    pub data: Vec<u8>,
}

/// Mathematical model of an [`Account`].
pub struct AccountModel {
    pub key: Seq<u8>,
    pub is_signer: bool,
    pub lamports: u64,
    pub owner: Seq<u8>,
    pub data: Seq<u8>,
}

impl View for Account {
    type V = AccountModel;

    open spec fn view(&self) -> AccountModel {
        AccountModel {
            key: self.key@,
            is_signer: self.is_signer,
            lamports: self.lamports,
            owner: self.owner@,
            data: self.data@,
        }
    }
}

impl AccountModel {
    /// Identities are 32-byte keys.
    pub open spec fn wf(self) -> bool {
        self.key.len() == 32 && self.owner.len() == 32
    }
}

} // verus!
