//! The fixed binary layout of records and commands.
//!
//! A record is serialized field by field in declaration order: `content_hash`
//! as a 4-byte little-endian length prefix followed by its bytes, `is_public`
//! as one byte, `timestamp` as 8 bytes little-endian, `owner` length-prefixed
//! like `content_hash`, then `upvotes` and `downvotes` as 8 bytes each.  A
//! command is one tag byte (0 = submit, 1 = vote) followed by its payload.
//!
//! Decoding a record reads it from the front of a cell's data region and
//! ignores trailing bytes, since cells are fixed-size and padded; decoding a
//! command is strict and rejects trailing bytes.

use vstd::prelude::*;
use vstd::bytes::{
    lemma_auto_spec_u32_to_from_le_bytes, lemma_auto_spec_u64_to_from_le_bytes,
    spec_u32_from_le_bytes, spec_u32_to_le_bytes, spec_u64_from_le_bytes, spec_u64_to_le_bytes,
    u32_from_le_bytes, u32_to_le_bytes, u64_from_le_bytes, u64_to_le_bytes,
};
use vstd::slice::{slice_subrange, slice_to_vec};
use crate::record::{EntryModel, InstructionModel, JournalEntry, JournalError, JournalInstruction};

verus! {

/// The number of bytes the serialized form of a record occupies: two 4-byte
/// length prefixes, one flag byte, and three 8-byte integers around the two
/// byte strings.
pub open spec fn entry_len(e: EntryModel) -> int {
    33 + e.content_hash.len() as int + e.owner.len() as int
}

/// Both length prefixes fit their 4-byte encoding.
pub open spec fn encodable(e: EntryModel) -> bool {
    e.content_hash.len() < 0x1_0000_0000 && e.owner.len() < 0x1_0000_0000
}

/// The serialized bytes of a record.
pub open spec fn serialize_entry(e: EntryModel) -> Seq<u8> {
    spec_u32_to_le_bytes(e.content_hash.len() as u32) + e.content_hash
        + seq![e.is_public] + spec_u64_to_le_bytes(e.timestamp)
        + spec_u32_to_le_bytes(e.owner.len() as u32) + e.owner
        + spec_u64_to_le_bytes(e.upvotes) + spec_u64_to_le_bytes(e.downvotes)
}

/// Reads one record from the front of `b`.  Returns the record and the number
/// of bytes consumed, or `None` when `b` is too short to hold the record its
/// length prefixes announce.  Trailing bytes beyond the record are ignored.
pub open spec fn parse_entry(b: Seq<u8>) -> Option<(EntryModel, int)> {
    if b.len() < 4 {
        None
    } else {
        let hlen = spec_u32_from_le_bytes(b.subrange(0, 4)) as int;
        if b.len() < 4 + hlen + 13 {
            None
        } else {
            let p = 4 + hlen;
            let olen = spec_u32_from_le_bytes(b.subrange(p + 9, p + 13)) as int;
            if b.len() < p + 13 + olen + 16 {
                None
            } else {
                let q = p + 13 + olen;
                let e = EntryModel {
                    content_hash: b.subrange(4, 4 + hlen),
                    is_public: b[p],
                    timestamp: spec_u64_from_le_bytes(b.subrange(p + 1, p + 9)),
                    owner: b.subrange(p + 13, p + 13 + olen),
                    upvotes: spec_u64_from_le_bytes(b.subrange(q, q + 8)),
                    downvotes: spec_u64_from_le_bytes(b.subrange(q + 8, q + 16)),
                };
                Some((e, q + 16))
            }
        }
    }
}

/// The serialized bytes of a command: its tag byte, then its payload.
pub open spec fn serialize_instruction(m: InstructionModel) -> Seq<u8> {
    match m {
        InstructionModel::SubmitEntry(e) => seq![0u8] + serialize_entry(e),
        InstructionModel::Vote { is_upvote } => seq![1u8, is_upvote],
    }
}

/// Decodes a command buffer.  Strict: the payload must fill the buffer
/// exactly, and only tags 0 and 1 are known.
pub open spec fn parse_instruction(b: Seq<u8>) -> Option<InstructionModel> {
    if b.len() < 1 {
        None
    } else if b[0] == 0u8 {
        match parse_entry(b.skip(1)) {
            Some(p) => if p.1 == b.len() - 1 {
                Some(InstructionModel::SubmitEntry(p.0))
            } else {
                None
            },
            None => None,
        }
    } else if b[0] == 1u8 {
        if b.len() == 2 {
            Some(InstructionModel::Vote { is_upvote: b[1] })
        } else {
            None
        }
    } else {
        None
    }
}

/// A successful parse consumes exactly the record's serialized length, and
/// never more than the buffer holds.
pub proof fn lemma_parse_entry_len(b: Seq<u8>)
    ensures
        parse_entry(b) matches Some(p) ==> p.1 == entry_len(p.0) && p.1 <= b.len()
            && encodable(p.0),
{
    lemma_auto_spec_u32_to_from_le_bytes();
}

/// Round trip: a serialized record parses back to itself, whatever bytes
/// follow it, and consumes exactly its own length.
pub proof fn lemma_entry_round_trip(e: EntryModel, pad: Seq<u8>)
    requires
        encodable(e),
    ensures
        parse_entry(serialize_entry(e) + pad) == Some((e, entry_len(e))),
{
    lemma_auto_spec_u32_to_from_le_bytes();
    lemma_auto_spec_u64_to_from_le_bytes();
    let hlen = e.content_hash.len() as int;
    let olen = e.owner.len() as int;
    let h4 = spec_u32_to_le_bytes(e.content_hash.len() as u32);
    let t8 = spec_u64_to_le_bytes(e.timestamp);
    let o4 = spec_u32_to_le_bytes(e.owner.len() as u32);
    let u8s = spec_u64_to_le_bytes(e.upvotes);
    let d8 = spec_u64_to_le_bytes(e.downvotes);
    let s = serialize_entry(e) + pad;
    let p = 4 + hlen;
    let q = p + 13 + olen;
    assert(s.subrange(0, 4) =~= h4);
    assert(s.subrange(4, 4 + hlen) =~= e.content_hash);
    assert(s[p] == e.is_public);
    assert(s.subrange(p + 1, p + 9) =~= t8);
    assert(s.subrange(p + 9, p + 13) =~= o4);
    assert(s.subrange(p + 13, p + 13 + olen) =~= e.owner);
    assert(s.subrange(q, q + 8) =~= u8s);
    assert(s.subrange(q + 8, q + 16) =~= d8);
    assert(parse_entry(s) matches Some(r) && r.0 == e && r.1 == entry_len(e));
}

/// Round trip for commands: a serialized command decodes back to itself.
pub proof fn lemma_instruction_round_trip(m: InstructionModel)
    requires
        m matches InstructionModel::SubmitEntry(e) ==> encodable(e),
    ensures
        parse_instruction(serialize_instruction(m)) == Some(m),
{
    match m {
        InstructionModel::SubmitEntry(e) => {
            let s = serialize_instruction(m);
            assert(s[0] == 0u8);
            assert(s.skip(1) =~= serialize_entry(e) + Seq::<u8>::empty());
            lemma_entry_round_trip(e, Seq::<u8>::empty());
            lemma_auto_spec_u32_to_from_le_bytes();
            lemma_auto_spec_u64_to_from_le_bytes();
            assert(s.len() - 1 == entry_len(e));
        },
        InstructionModel::Vote { is_upvote } => {
            let s = serialize_instruction(m);
            assert(s.len() == 2 && s[0] == 1u8 && s[1] == is_upvote);
        },
    }
}

/// Appends every byte of `src` to `out`.
fn push_bytes(out: &mut Vec<u8>, src: &[u8])
    ensures
        final(out)@ == old(out)@ + src@,
{
    let mut i: usize = 0;
    while i < src.len()
        invariant
            i <= src@.len(),
            out@ == old(out)@ + src@.subrange(0, i as int),
        decreases src@.len() - i,
    {
        let b: u8 = *vstd::slice::slice_index_get(src, i);
        out.push(b);
        assert(out@ =~= old(out)@ + src@.subrange(0, i + 1));
        i = i + 1;
    }
    assert(src@.subrange(0, src@.len() as int) =~= src@);
}

/// Serializes a record into a fresh byte vector.
pub fn encode_entry(e: &JournalEntry) -> (r: Vec<u8>)
    requires
        encodable(e@),
    ensures
        r@ == serialize_entry(e@),
        r@.len() == entry_len(e@),
{
    let mut out: Vec<u8> = Vec::new();
    let h4 = u32_to_le_bytes(e.content_hash.len() as u32);
    push_bytes(&mut out, h4.as_slice());
    push_bytes(&mut out, e.content_hash.as_slice());
    out.push(e.is_public);
    assert(out@ =~= spec_u32_to_le_bytes(e@.content_hash.len() as u32) + e@.content_hash
        + seq![e@.is_public]);
    let t8 = u64_to_le_bytes(e.timestamp);
    push_bytes(&mut out, t8.as_slice());
    let o4 = u32_to_le_bytes(e.owner.len() as u32);
    push_bytes(&mut out, o4.as_slice());
    push_bytes(&mut out, e.owner.as_slice());
    let u8s = u64_to_le_bytes(e.upvotes);
    push_bytes(&mut out, u8s.as_slice());
    let d8 = u64_to_le_bytes(e.downvotes);
    push_bytes(&mut out, d8.as_slice());
    proof {
        lemma_auto_spec_u32_to_from_le_bytes();
        lemma_auto_spec_u64_to_from_le_bytes();
    }
    out
}

/// Decodes one record from the front of `b`, ignoring trailing bytes.
pub fn decode_entry(b: &Vec<u8>) -> (r: Option<JournalEntry>)
    ensures
        match parse_entry(b@) {
            Some(p) => r matches Some(e) && e@ == p.0,
            None => r is None,
        },
{
    let n: usize = b.len();
    if n < 4 {
        return None;
    }
    let s: &[u8] = b.as_slice();
    let hlen32: u32 = u32_from_le_bytes(slice_subrange(s, 0, 4));
    if (hlen32 as u64) + 13 > (n as u64) - 4 {
        return None;
    }
    let hlen: usize = hlen32 as usize;
    let hash: Vec<u8> = slice_to_vec(slice_subrange(s, 4, 4 + hlen));
    let p: usize = 4 + hlen;
    let is_public: u8 = b[p];
    let timestamp: u64 = u64_from_le_bytes(slice_subrange(s, p + 1, p + 9));
    let olen32: u32 = u32_from_le_bytes(slice_subrange(s, p + 9, p + 13));
    if (olen32 as u64) + 29 > (n as u64) - (p as u64) {
        return None;
    }
    let olen: usize = olen32 as usize;
    let q0: usize = p + 13;
    let owner: Vec<u8> = slice_to_vec(slice_subrange(s, q0, q0 + olen));
    let q: usize = q0 + olen;
    let upvotes: u64 = u64_from_le_bytes(slice_subrange(s, q, q + 8));
    let downvotes: u64 = u64_from_le_bytes(slice_subrange(s, q + 8, q + 16));
    Some(JournalEntry { content_hash: hash, is_public, timestamp, owner, upvotes, downvotes })
}

/// Serializes a command into a fresh byte vector.
pub fn encode_instruction(i: &JournalInstruction) -> (r: Vec<u8>)
    requires
        i@ matches InstructionModel::SubmitEntry(e) ==> encodable(e),
    ensures
        r@ == serialize_instruction(i@),
{
    match i {
        JournalInstruction::SubmitEntry(e) => {
            let mut out: Vec<u8> = Vec::new();
            out.push(0u8);
            let body = encode_entry(e);
            push_bytes(&mut out, body.as_slice());
            assert(out@ =~= seq![0u8] + serialize_entry(e@));
            out
        },
        JournalInstruction::Vote { is_upvote } => {
            let mut out: Vec<u8> = Vec::new();
            out.push(1u8);
            out.push(*is_upvote);
            assert(out@ =~= seq![1u8, *is_upvote]);
            out
        },
    }
}

/// Decodes a command buffer, strictly: unknown tags, short buffers and
/// trailing bytes are all malformed.
pub fn decode_instruction(b: &Vec<u8>) -> (r: Result<JournalInstruction, JournalError>)
    ensures
        match parse_instruction(b@) {
            Some(m) => r matches Ok(i) && i@ == m,
            None => r == Err::<JournalInstruction, JournalError>(JournalError::MalformedCommand),
        },
{
    let n: usize = b.len();
    if n < 1 {
        return Err(JournalError::MalformedCommand);
    }
    let tag: u8 = b[0];
    if tag == 0 {
        let body: Vec<u8> = slice_to_vec(slice_subrange(b.as_slice(), 1, n));
        assert(body@ =~= b@.skip(1));
        match decode_entry(&body) {
            Some(e) => {
                proof {
                    lemma_parse_entry_len(body@);
                }
                let consumed: u64 =
                    33 + (e.content_hash.len() as u64) + (e.owner.len() as u64);
                if consumed == (n as u64) - 1 {
                    Ok(JournalInstruction::SubmitEntry(e))
                } else {
                    Err(JournalError::MalformedCommand)
                }
            },
            None => Err(JournalError::MalformedCommand),
        }
    } else if tag == 1 {
        if n == 2 {
            Ok(JournalInstruction::Vote { is_upvote: b[1] })
        } else {
            Err(JournalError::MalformedCommand)
        }
    } else {
        Err(JournalError::MalformedCommand)
    }
}

} // verus!
