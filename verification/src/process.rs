//! The dispatcher and the two handlers, as verified state transitions.
//!
//! Each handler is specified by a total spec function from the inputs (the
//! program identity, account snapshots, the decoded payload) to the exact
//! result and the exact new snapshot of the storage cell.  The executable
//! handlers are proved to return precisely that.  Every failure leaves the
//! cell untouched; an invocation either fully applies or fully aborts.

use vstd::prelude::*;
use crate::account::{Account, AccountModel};
use crate::address::{derived_address, find_cell_address};
use crate::codec::{
    decode_entry, decode_instruction, encode_entry, entry_len, lemma_entry_round_trip,
    lemma_parse_entry_len, parse_entry, parse_instruction, serialize_entry,
};
use crate::record::{EntryModel, InstructionModel, JournalEntry, JournalError, JournalInstruction};

verus! {

/// The fixed byte size of a record cell.  Every cell is created with exactly
/// this much space; a record must serialize into it.
pub const RECORD_SPACE: usize = 80;

/// The constant first derivation seed: the ASCII bytes of `journal`.
pub open spec fn seed_prefix() -> Seq<u8> {
    seq![106u8, 111u8, 117u8, 114u8, 110u8, 97u8, 108u8]
}

/// The derived storage-cell address (and bump seed) for an (author, content
/// hash) pair under the given program identity.
pub open spec fn cell_address(program: Seq<u8>, author: Seq<u8>, hash: Seq<u8>) -> Option<
    (Seq<u8>, u8),
> {
    derived_address(program, seed_prefix(), author, hash)
}

/// A record is accepted for submission when its content hash respects the
/// substrate's 32-byte seed limit and its serialized form fits the cell.
pub open spec fn submittable(e: EntryModel) -> bool {
    e.content_hash.len() <= 32 && entry_len(e) <= RECORD_SPACE as int
}

/// `n` zero bytes.
pub open spec fn zero_bytes(n: int) -> Seq<u8> {
    Seq::new(n as nat, |i: int| 0u8)
}

/// A request to the substrate's creation capability: fund and initialize the
/// cell at `address` with `lamports`, `space` bytes of zeroed data, and
/// ownership assigned to `owner`.  The derivation proof of `address` is the
/// seed list (the constant prefix, the funder's key, `seed`) together with
/// `bump`.
pub struct CreateRequest {
    pub funder: Vec<u8>,
    pub address: Vec<u8>,
    pub lamports: u64,
    pub space: u64,
    pub owner: Vec<u8>,
    pub seed: Vec<u8>,
    pub bump: u8,
}

/// Mathematical model of a [`CreateRequest`].
pub struct CreateRequestModel {
    pub funder: Seq<u8>,
    pub address: Seq<u8>,
    pub lamports: u64,
    pub space: u64,
    pub owner: Seq<u8>,
    pub seed: Seq<u8>,
    pub bump: u8,
}

impl View for CreateRequest {
    type V = CreateRequestModel;

    open spec fn view(&self) -> CreateRequestModel {
        CreateRequestModel {
            funder: self.funder@,
            address: self.address@,
            lamports: self.lamports,
            space: self.space,
            owner: self.owner@,
            seed: self.seed@,
            bump: self.bump,
        }
    }
}

/// The model of a handler result that may carry a creation request.
pub open spec fn result_model(r: Result<Option<CreateRequest>, JournalError>) -> Result<
    Option<CreateRequestModel>,
    JournalError,
> {
    match r {
        Ok(Some(c)) => Ok(Some(c@)),
        Ok(None) => Ok(None),
        Err(e) => Err(e),
    }
}

/// What submitting `e` does: the exact result and the exact new cell
/// snapshot.
///
/// The author must have signed; the record must fit; the supplied cell must
/// sit at the canonical derived address.  A cell with zero balance has never
/// been materialized: it is created (funded with `rent_minimum`, owned by
/// the program) and the record written into it, padded with zeros to the
/// fixed cell size.  A funded cell is overwritten in place — resubmission
/// replaces the stored record wholesale, counters included.
pub open spec fn spec_submit(
    program: Seq<u8>,
    author: AccountModel,
    cell: AccountModel,
    e: EntryModel,
    rent_minimum: u64,
) -> (Result<Option<CreateRequestModel>, JournalError>, AccountModel) {
    if !author.is_signer {
        (Err(JournalError::MissingSignature), cell)
    } else if !submittable(e) {
        (Err(JournalError::RecordTooLarge), cell)
    } else {
        match cell_address(program, author.key, e.content_hash) {
            None => (Err(JournalError::AddressMismatch), cell),
            Some(ab) => if ab.0 != cell.key {
                (Err(JournalError::AddressMismatch), cell)
            } else if cell.lamports == 0 {
                let req = CreateRequestModel {
                    funder: author.key,
                    address: cell.key,
                    lamports: rent_minimum,
                    space: RECORD_SPACE as u64,
                    owner: program,
                    seed: e.content_hash,
                    bump: ab.1,
                };
                let new_cell = AccountModel {
                    key: cell.key,
                    is_signer: cell.is_signer,
                    lamports: rent_minimum,
                    owner: program,
                    data: serialize_entry(e) + zero_bytes(RECORD_SPACE as int - entry_len(e)),
                };
                (Ok(Some(req)), new_cell)
            } else if cell.data.len() < entry_len(e) {
                (Err(JournalError::RecordTooLarge), cell)
            } else {
                let new_cell = AccountModel {
                    key: cell.key,
                    is_signer: cell.is_signer,
                    lamports: cell.lamports,
                    owner: cell.owner,
                    data: serialize_entry(e) + cell.data.skip(entry_len(e)),
                };
                (Ok(None), new_cell)
            },
        }
    }
}

/// One vote applied to a record: `is_upvote == 1` bumps `upvotes`, anything
/// else bumps `downvotes`; `None` exactly when the addressed counter already
/// holds the largest representable value.
pub open spec fn vote_step(e: EntryModel, is_upvote: u8) -> Option<EntryModel> {
    if is_upvote == 1 {
        if e.upvotes == u64::MAX {
            None
        } else {
            Some(
                EntryModel {
                    content_hash: e.content_hash,
                    is_public: e.is_public,
                    timestamp: e.timestamp,
                    owner: e.owner,
                    upvotes: (e.upvotes + 1) as u64,
                    downvotes: e.downvotes,
                },
            )
        }
    } else {
        if e.downvotes == u64::MAX {
            None
        } else {
            Some(
                EntryModel {
                    content_hash: e.content_hash,
                    is_public: e.is_public,
                    timestamp: e.timestamp,
                    owner: e.owner,
                    upvotes: e.upvotes,
                    downvotes: (e.downvotes + 1) as u64,
                },
            )
        }
    }
}

/// What voting does: the exact result and the exact new cell snapshot.
///
/// The voter must have signed; the cell must be owned by the program; its
/// bytes must decode to a record.  A vote on a cell that was never submitted
/// fails with `CorruptRecord` rather than fabricating a record; a counter at
/// its maximum fails with `CounterOverflow` and the stored record is
/// unchanged.
pub open spec fn spec_vote(
    program: Seq<u8>,
    voter: AccountModel,
    cell: AccountModel,
    is_upvote: u8,
) -> (Result<(), JournalError>, AccountModel) {
    if !voter.is_signer {
        (Err(JournalError::MissingSignature), cell)
    } else if cell.owner != program {
        (Err(JournalError::NotOwnedByProgram), cell)
    } else {
        match parse_entry(cell.data) {
            None => (Err(JournalError::CorruptRecord), cell),
            Some(p) => match vote_step(p.0, is_upvote) {
                None => (Err(JournalError::CounterOverflow), cell),
                Some(e2) => {
                    let new_cell = AccountModel {
                        key: cell.key,
                        is_signer: cell.is_signer,
                        lamports: cell.lamports,
                        owner: cell.owner,
                        data: serialize_entry(e2) + cell.data.skip(p.1),
                    };
                    (Ok(()), new_cell)
                },
            },
        }
    }
}

/// What one dispatched invocation does: decode the command buffer, then
/// behave as [`spec_submit`] or [`spec_vote`]; an undecodable buffer fails
/// with `MalformedCommand` and changes nothing.
pub open spec fn spec_process(
    program: Seq<u8>,
    signer: AccountModel,
    cell: AccountModel,
    data: Seq<u8>,
    rent_minimum: u64,
) -> (Result<Option<CreateRequestModel>, JournalError>, AccountModel) {
    match parse_instruction(data) {
        None => (Err(JournalError::MalformedCommand), cell),
        Some(InstructionModel::SubmitEntry(e)) => spec_submit(
            program,
            signer,
            cell,
            e,
            rent_minimum,
        ),
        Some(InstructionModel::Vote { is_upvote }) => {
            let rc = spec_vote(program, signer, cell, is_upvote);
            match rc.0 {
                Ok(u) => (Ok(None), rc.1),
                Err(er) => (Err(er), rc.1),
            }
        },
    }
}

/// Law: a submit call whose author account did not sign is rejected with
/// `MissingSignature`, no creation request is issued, and the storage cell
/// is untouched.
pub proof fn lemma_submit_requires_signer(
    program: Seq<u8>,
    author: AccountModel,
    cell: AccountModel,
    e: EntryModel,
    rent_minimum: u64,
)
    requires
        !author.is_signer,
    ensures
        spec_submit(program, author, cell, e, rent_minimum).0 matches Err(er) && er
            == JournalError::MissingSignature,
        spec_submit(program, author, cell, e, rent_minimum).1 == cell,
{
}

/// Law: the derived cell address is deterministic over the (program, author,
/// content hash) triple — any two cells that submission accepts for the same
/// triple are the same cell, so one entry exists per (author, content) pair.
pub proof fn lemma_submit_address_unique(
    program: Seq<u8>,
    author: AccountModel,
    cell1: AccountModel,
    cell2: AccountModel,
    e: EntryModel,
    rent_minimum1: u64,
    rent_minimum2: u64,
)
    requires
        spec_submit(program, author, cell1, e, rent_minimum1).0 is Ok,
        spec_submit(program, author, cell2, e, rent_minimum2).0 is Ok,
    ensures
        cell1.key == cell2.key,
{
}

/// Law: voting on a cell that was never written — its data region too short
/// to hold any record, in particular empty — fails with `CorruptRecord` and
/// fabricates nothing: the cell is returned unchanged.
pub proof fn lemma_vote_never_fabricates(
    program: Seq<u8>,
    voter: AccountModel,
    cell: AccountModel,
    is_upvote: u8,
)
    requires
        cell.data.len() < 33,
    ensures
        parse_entry(cell.data) is None,
        voter.is_signer && cell.owner == program ==> spec_vote(program, voter, cell, is_upvote)
            == (Err::<(), JournalError>(JournalError::CorruptRecord), cell),
{
}

/// Law: one successful vote bumps exactly the addressed counter by one and
/// leaves every other field of the record as it was, so the counters are
/// monotonically non-decreasing across any sequence of successful votes; the
/// step is refused (`None`, surfaced as `CounterOverflow`) exactly when the
/// addressed counter already holds the largest representable value.
pub proof fn lemma_vote_monotonic(e: EntryModel, is_upvote: u8)
    ensures
        vote_step(e, is_upvote) matches Some(e2) ==> e2.upvotes >= e.upvotes && e2.downvotes
            >= e.downvotes && e2.content_hash == e.content_hash && e2.is_public == e.is_public
            && e2.timestamp == e.timestamp && e2.owner == e.owner,
        vote_step(e, is_upvote) is None <==> (is_upvote == 1 && e.upvotes == u64::MAX) || (
        is_upvote != 1 && e.downvotes == u64::MAX),
{
}

/// The record after a whole sequence of votes, or `None` as soon as one of
/// them overflows its counter.
pub open spec fn apply_votes(e: EntryModel, votes: Seq<u8>) -> Option<EntryModel>
    decreases votes.len(),
{
    if votes.len() == 0 {
        Some(e)
    } else {
        match vote_step(e, votes[0]) {
            None => None,
            Some(e2) => apply_votes(e2, votes.skip(1)),
        }
    }
}

/// Law: across any sequence of successful votes the counters never decrease,
/// and the identifying fields of the record never change.
pub proof fn lemma_votes_monotonic(e: EntryModel, votes: Seq<u8>)
    ensures
        apply_votes(e, votes) matches Some(e2) ==> e2.upvotes >= e.upvotes && e2.downvotes
            >= e.downvotes && e2.content_hash == e.content_hash && e2.is_public == e.is_public
            && e2.timestamp == e.timestamp && e2.owner == e.owner,
    decreases votes.len(),
{
    if votes.len() > 0 {
        match vote_step(e, votes[0]) {
            None => {},
            Some(e2) => {
                lemma_votes_monotonic(e2, votes.skip(1));
            },
        }
    }
}

/// Law (current behavior, locked in): a second submission of the same
/// (author, content hash) pair finds the cell already funded, skips
/// creation, and overwrites the stored record wholesale — the cell then
/// holds exactly the resubmitted record, its counters included, in place of
/// the stored ones.
pub proof fn lemma_resubmit_overwrites(
    program: Seq<u8>,
    author: AccountModel,
    cell: AccountModel,
    e: EntryModel,
    rent_minimum: u64,
)
    requires
        cell.lamports != 0,
        spec_submit(program, author, cell, e, rent_minimum).0 is Ok,
    ensures
        spec_submit(program, author, cell, e, rent_minimum).0 matches Ok(req) && req is None,
        parse_entry(spec_submit(program, author, cell, e, rent_minimum).1.data) matches Some(p)
            && p.0 == e,
{
    lemma_serialize_entry_len(e);
    lemma_entry_round_trip(e, cell.data.skip(entry_len(e)));
}

/// True when the two byte vectors hold the same bytes.
fn bytes_eq(a: &Vec<u8>, b: &Vec<u8>) -> (r: bool)
    ensures
        r == (a@ == b@),
{
    if a.len() != b.len() {
        return false;
    }
    let mut i: usize = 0;
    while i < a.len()
        invariant
            a@.len() == b@.len(),
            i <= a@.len(),
            forall|j: int| 0 <= j < i ==> a@[j] == b@[j],
        decreases a@.len() - i,
    {
        if a[i] != b[i] {
            return false;
        }
        i = i + 1;
    }
    assert(a@ =~= b@);
    true
}

/// Copies `src` over the front of `dst`, leaving the tail as it was.
fn overwrite_prefix(dst: &mut Vec<u8>, src: &Vec<u8>)
    requires
        src@.len() <= old(dst)@.len(),
    ensures
        final(dst)@ == src@ + old(dst)@.skip(src@.len() as int),
{
    let mut i: usize = 0;
    while i < src.len()
        invariant
            i <= src@.len() <= dst@.len(),
            dst@.len() == old(dst)@.len(),
            forall|j: int| 0 <= j < i ==> dst@[j] == src@[j],
            forall|j: int| i <= j < dst@.len() ==> dst@[j] == old(dst)@[j],
        decreases src@.len() - i,
    {
        let b: u8 = src[i];
        dst.set(i, b);
        i = i + 1;
    }
    assert(dst@ =~= src@ + old(dst)@.skip(src@.len() as int));
}

/// The serialized bytes of a record have exactly its serialized length.
proof fn lemma_serialize_entry_len(e: EntryModel)
    ensures
        serialize_entry(e).len() == entry_len(e),
{
    vstd::bytes::lemma_auto_spec_u32_to_from_le_bytes();
    vstd::bytes::lemma_auto_spec_u64_to_from_le_bytes();
}

/// Serializes a record and pads it with zeros to the fixed cell size.
fn encode_entry_padded(e: &JournalEntry) -> (r: Vec<u8>)
    requires
        submittable(e@),
    ensures
        r@ == serialize_entry(e@) + zero_bytes(RECORD_SPACE as int - entry_len(e@)),
{
    proof {
        lemma_serialize_entry_len(e@);
    }
    let mut out = encode_entry(e);
    while out.len() < RECORD_SPACE
        invariant
            entry_len(e@) <= out@.len() <= RECORD_SPACE as int,
            out@ == serialize_entry(e@) + zero_bytes(out@.len() - entry_len(e@)),
        decreases RECORD_SPACE - out@.len(),
    {
        out.push(0u8);
        assert(out@ =~= serialize_entry(e@) + zero_bytes(out@.len() - entry_len(e@)));
    }
    out
}

/// The constant first derivation seed, as bytes.
fn seed_prefix_vec() -> (r: Vec<u8>)
    ensures
        r@ == seed_prefix(),
{
    let r: Vec<u8> = vec![106u8, 111u8, 117u8, 114u8, 110u8, 97u8, 108u8];
    assert(r@ =~= seed_prefix());
    r
}

/// Copies a byte vector.
fn copy_bytes(src: &Vec<u8>) -> (r: Vec<u8>)
    ensures
        r@ == src@,
{
    vstd::slice::slice_to_vec(src.as_slice())
}

/// Handles a submit-entry command: checks the author's signature and the
/// canonical derived address, materializes the cell when it has never been
/// funded (returning the creation request the caller must perform), and
/// writes the serialized record into the cell.
///
/// Returns and mutates exactly as [`spec_submit`] says; every error leaves
/// the cell unchanged.
pub fn process_submit_entry(
    program_id: &Vec<u8>,
    author: &Account,
    cell: &mut Account,
    entry: &JournalEntry,
    rent_minimum: u64,
) -> (r: Result<Option<CreateRequest>, JournalError>)
    requires
        program_id@.len() == 32,
        author@.wf(),
        old(cell)@.wf(),
    ensures
        result_model(r) == spec_submit(program_id@, author@, old(cell)@, entry@, rent_minimum).0,
        final(cell)@ == spec_submit(program_id@, author@, old(cell)@, entry@, rent_minimum).1,
{
    if !author.is_signer {
        return Err(JournalError::MissingSignature);
    }
    let hash_len: u64 = entry.content_hash.len() as u64;
    if hash_len > 32 {
        return Err(JournalError::RecordTooLarge);
    }
    let owner_len: u64 = entry.owner.len() as u64;
    if owner_len > 47 {
        return Err(JournalError::RecordTooLarge);
    }
    let ser_len: u64 = 33 + hash_len + owner_len;
    if ser_len > 80 {
        return Err(JournalError::RecordTooLarge);
    }
    assert(submittable(entry@));
    let prefix = seed_prefix_vec();
    match find_cell_address(program_id, &prefix, &author.key, &entry.content_hash) {
        None => Err(JournalError::AddressMismatch),
        Some(ab) => {
            let (addr, bump) = ab;
            if !bytes_eq(&addr, &cell.key) {
                return Err(JournalError::AddressMismatch);
            }
            if cell.lamports == 0 {
                let data = encode_entry_padded(entry);
                cell.data = data;
                cell.owner = copy_bytes(program_id);
                cell.lamports = rent_minimum;
                let req = CreateRequest {
                    funder: copy_bytes(&author.key),
                    address: copy_bytes(&cell.key),
                    lamports: rent_minimum,
                    space: RECORD_SPACE as u64,
                    owner: copy_bytes(program_id),
                    seed: copy_bytes(&entry.content_hash),
                    bump,
                };
                Ok(Some(req))
            } else {
                proof {
                    lemma_serialize_entry_len(entry@);
                }
                if (cell.data.len() as u64) < ser_len {
                    return Err(JournalError::RecordTooLarge);
                }
                let bytes = encode_entry(entry);
                overwrite_prefix(&mut cell.data, &bytes);
                Ok(None)
            }
        },
    }
}

/// Handles a vote command: checks the voter's signature and the cell's
/// program ownership, decodes the stored record, bumps the addressed counter
/// with overflow protection, and writes the record back in place.
///
/// Returns and mutates exactly as [`spec_vote`] says; every error leaves the
/// cell unchanged — in particular a counter at its maximum raises
/// `CounterOverflow` and the stored bytes stay as they were.
pub fn process_vote(
    program_id: &Vec<u8>,
    voter: &Account,
    cell: &mut Account,
    is_upvote: u8,
) -> (r: Result<(), JournalError>)
    requires
        program_id@.len() == 32,
        voter@.wf(),
        old(cell)@.wf(),
    ensures
        r == spec_vote(program_id@, voter@, old(cell)@, is_upvote).0,
        final(cell)@ == spec_vote(program_id@, voter@, old(cell)@, is_upvote).1,
{
    if !voter.is_signer {
        return Err(JournalError::MissingSignature);
    }
    if !bytes_eq(&cell.owner, program_id) {
        return Err(JournalError::NotOwnedByProgram);
    }
    proof {
        lemma_parse_entry_len(cell@.data);
    }
    match decode_entry(&cell.data) {
        None => Err(JournalError::CorruptRecord),
        Some(stored) => {
            let mut updated = stored;
            if is_upvote == 1 {
                if updated.upvotes == u64::MAX {
                    return Err(JournalError::CounterOverflow);
                }
                updated.upvotes = updated.upvotes + 1;
            } else {
                if updated.downvotes == u64::MAX {
                    return Err(JournalError::CounterOverflow);
                }
                updated.downvotes = updated.downvotes + 1;
            }
            proof {
                lemma_serialize_entry_len(updated@);
            }
            let bytes = encode_entry(&updated);
            overwrite_prefix(&mut cell.data, &bytes);
            Ok(())
        },
    }
}

/// The dispatcher: decodes the command buffer and routes to the matching
/// handler, behaving exactly as [`spec_process`] says.  `rent_minimum` is
/// the external rent model's answer for one record cell (see
/// [`crate::funding::required_funding`]); it is consumed only when a cell
/// must be created.
pub fn process_instruction(
    program_id: &Vec<u8>,
    signer: &Account,
    cell: &mut Account,
    instruction_data: &Vec<u8>,
    rent_minimum: u64,
) -> (r: Result<Option<CreateRequest>, JournalError>)
    requires
        program_id@.len() == 32,
        signer@.wf(),
        old(cell)@.wf(),
    ensures
        result_model(r) == spec_process(
            program_id@,
            signer@,
            old(cell)@,
            instruction_data@,
            rent_minimum,
        ).0,
        final(cell)@ == spec_process(
            program_id@,
            signer@,
            old(cell)@,
            instruction_data@,
            rent_minimum,
        ).1,
{
    match decode_instruction(instruction_data) {
        Err(e) => Err(e),
        Ok(JournalInstruction::SubmitEntry(entry)) => process_submit_entry(
            program_id,
            signer,
            cell,
            &entry,
            rent_minimum,
        ),
        Ok(JournalInstruction::Vote { is_upvote }) => match process_vote(
            program_id,
            signer,
            cell,
            is_upvote,
        ) {
            Ok(u) => Ok(None),
            Err(e) => Err(e),
        },
    }
}

} // verus!
