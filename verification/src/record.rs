//! The journal record, the command union, and the error kinds.

use vstd::prelude::*;

verus! {

/// The persisted record of one journal entry.
///
/// `content_hash` and `owner` are byte strings (the wire layout stores them
/// length-prefixed); `is_public` is a boolean encoded as one byte.  The two
/// vote counters start at zero and are mutated only by the vote handler.
pub struct JournalEntry {
    pub content_hash: Vec<u8>,
    pub is_public: u8,
    pub timestamp: u64,
    pub owner: Vec<u8>,
    pub upvotes: u64,
    pub downvotes: u64,
}

/// Mathematical model of a [`JournalEntry`].
pub struct EntryModel {
    pub content_hash: Seq<u8>,
    pub is_public: u8,
    pub timestamp: u64,
    pub owner: Seq<u8>,
    pub upvotes: u64,
    pub downvotes: u64,
}

impl View for JournalEntry {
    type V = EntryModel;

    open spec fn view(&self) -> EntryModel {
        EntryModel {
            content_hash: self.content_hash@,
            is_public: self.is_public,
            timestamp: self.timestamp,
            owner: self.owner@,
            upvotes: self.upvotes,
            downvotes: self.downvotes,
        }
    }
}

impl Clone for JournalEntry {
    fn clone(&self) -> (r: Self)
        ensures
            r@ == self@,
    {
        JournalEntry {
            content_hash: self.content_hash.clone(),
            is_public: self.is_public,
            timestamp: self.timestamp,
            owner: self.owner.clone(),
            upvotes: self.upvotes,
            downvotes: self.downvotes,
        }
    }
}

/// One decoded command: submit a fully formed candidate record, or cast a
/// single vote (`is_upvote == 1` means upvote, anything else a downvote).
pub enum JournalInstruction {
    SubmitEntry(JournalEntry),
    Vote { is_upvote: u8 },
}

/// Mathematical model of a [`JournalInstruction`].
pub enum InstructionModel {
    SubmitEntry(EntryModel),
    Vote { is_upvote: u8 },
}

impl View for JournalInstruction {
    type V = InstructionModel;

    open spec fn view(&self) -> InstructionModel {
        match self {
            JournalInstruction::SubmitEntry(e) => InstructionModel::SubmitEntry(e@),
            JournalInstruction::Vote { is_upvote } => InstructionModel::Vote {
                is_upvote: *is_upvote,
            },
        }
    }
}

/// Every way an invocation can abort.  All failures leave the storage cell
/// exactly as it was.
#[derive(Clone, Copy, Debug, PartialEq, Eq, Structural)]
pub enum JournalError {
    /// The command buffer does not decode to a known command.
    MalformedCommand,
    /// The required signer flag of the author or voter account is false.
    MissingSignature,
    /// The supplied storage cell is not the canonical derived address for
    /// this (author, content hash) pair.
    AddressMismatch,
    /// The storage cell is not owned by the program identity.
    NotOwnedByProgram,
    /// The cell's bytes do not decode to a record.
    CorruptRecord,
    /// An increment would exceed the largest representable counter value.
    CounterOverflow,
    /// A string field is too long for the fixed-size cell, or the content
    /// hash exceeds the derivation seed limit.
    RecordTooLarge,
}

} // verus!
