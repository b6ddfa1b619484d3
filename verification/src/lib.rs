//! State-transition logic for a minimal content-addressed journal ledger.
//!
//! Entries are records submitted by an author into deterministically-addressed
//! storage cells and subsequently voted on by other participants.  The
//! dispatcher decodes a command buffer and routes it to the submit-entry or
//! vote handler; each handler is a verified function from account snapshots to
//! a new account snapshot.  The host substrate (signature checking, address
//! derivation, rent, cell creation) is consumed through narrow trusted
//! wrappers and never reimplemented.

pub mod account;
pub mod address;
pub mod codec;
pub mod funding;
pub mod process;
pub mod record;

pub use account::Account;
pub use process::CreateRequest;
pub use record::JournalEntry;
pub use record::JournalError;
pub use record::JournalInstruction;
