use journal::codec::{decode_entry, decode_instruction, encode_entry, encode_instruction};
use journal::process::{process_instruction, process_submit_entry, process_vote};
use journal::{Account, JournalEntry, JournalError, JournalInstruction};
use solana_program::pubkey::Pubkey;

fn program_key() -> Vec<u8> {
    vec![7u8; 32]
}

fn author_key() -> Vec<u8> {
    vec![11u8; 32]
}

fn voter_key() -> Vec<u8> {
    vec![13u8; 32]
}

fn sample_entry() -> JournalEntry {
    JournalEntry {
        content_hash: b"abc".to_vec(),
        is_public: 1,
        timestamp: 1000,
        owner: b"A".to_vec(),
        upvotes: 0,
        downvotes: 0,
    }
}

fn derived_cell_key(program: &[u8], author: &[u8], hash: &[u8]) -> Vec<u8> {
    let mut pid = [0u8; 32];
    pid.copy_from_slice(program);
    let program_id = Pubkey::new_from_array(pid);
    let (pda, _bump) = Pubkey::find_program_address(&[b"journal", author, hash], &program_id);
    pda.to_bytes().to_vec()
}

fn fresh_cell(program: &[u8], author: &[u8], hash: &[u8]) -> Account {
    Account {
        key: derived_cell_key(program, author, hash),
        is_signer: false,
        lamports: 0,
        owner: vec![0u8; 32],
        data: Vec::new(),
    }
}

fn author_account(signer: bool) -> Account {
    Account {
        key: author_key(),
        is_signer: signer,
        lamports: 500_000,
        owner: vec![0u8; 32],
        data: Vec::new(),
    }
}

fn voter_account() -> Account {
    Account {
        key: voter_key(),
        is_signer: true,
        lamports: 500_000,
        owner: vec![0u8; 32],
        data: Vec::new(),
    }
}

fn expected_sample_bytes() -> Vec<u8> {
    let mut bytes = Vec::new();
    bytes.extend_from_slice(&[3, 0, 0, 0]);
    bytes.extend_from_slice(b"abc");
    bytes.push(1);
    bytes.extend_from_slice(&1000u64.to_le_bytes());
    bytes.extend_from_slice(&[1, 0, 0, 0]);
    bytes.push(b'A');
    bytes.extend_from_slice(&0u64.to_le_bytes());
    bytes.extend_from_slice(&0u64.to_le_bytes());
    bytes
}

#[test]
fn entry_codec_round_trip() {
    let entry = sample_entry();
    let bytes = encode_entry(&entry);
    assert_eq!(bytes, expected_sample_bytes());
    let back = decode_entry(&bytes).expect("must decode");
    assert_eq!(back.content_hash, entry.content_hash);
    assert_eq!(back.is_public, entry.is_public);
    assert_eq!(back.timestamp, entry.timestamp);
    assert_eq!(back.owner, entry.owner);
    assert_eq!(back.upvotes, entry.upvotes);
    assert_eq!(back.downvotes, entry.downvotes);
}

#[test]
fn entry_decode_ignores_trailing_padding() {
    let entry = sample_entry();
    let mut bytes = encode_entry(&entry);
    bytes.resize(80, 0);
    let back = decode_entry(&bytes).expect("padded cell must decode");
    assert_eq!(back.content_hash, entry.content_hash);
    assert_eq!(back.upvotes, 0);
}

#[test]
fn entry_layout_matches_borsh() {
    let fields = (
        b"abc".to_vec(),
        1u8,
        1000u64,
        b"A".to_vec(),
        0u64,
        0u64,
    );
    let reference = borsh::to_vec(&fields).expect("borsh encoding");
    assert_eq!(encode_entry(&sample_entry()), reference);
}

#[test]
fn string_record_layout_matches_borsh() {
    let fields = ("abc".to_string(), 1u8, 1000u64, "A".to_string(), 7u64, 9u64);
    let reference = borsh::to_vec(&fields).expect("borsh encoding");
    let entry = JournalEntry {
        content_hash: b"abc".to_vec(),
        is_public: 1,
        timestamp: 1000,
        owner: b"A".to_vec(),
        upvotes: 7,
        downvotes: 9,
    };
    assert_eq!(encode_entry(&entry), reference);
}

#[test]
fn instruction_codec_round_trip() {
    let submit = JournalInstruction::SubmitEntry(sample_entry());
    let bytes = encode_instruction(&submit);
    assert_eq!(bytes[0], 0);
    match decode_instruction(&bytes).expect("submit decodes") {
        JournalInstruction::SubmitEntry(e) => assert_eq!(e.timestamp, 1000),
        _ => panic!("wrong variant"),
    }
    let vote = JournalInstruction::Vote { is_upvote: 1 };
    let bytes = encode_instruction(&vote);
    assert_eq!(bytes, vec![1, 1]);
    match decode_instruction(&bytes).expect("vote decodes") {
        JournalInstruction::Vote { is_upvote } => assert_eq!(is_upvote, 1),
        _ => panic!("wrong variant"),
    }
}

#[test]
fn malformed_commands_are_rejected() {
    assert_eq!(
        decode_instruction(&Vec::new()).err(),
        Some(JournalError::MalformedCommand)
    );
    assert_eq!(
        decode_instruction(&vec![2, 0, 0]).err(),
        Some(JournalError::MalformedCommand)
    );
    assert_eq!(
        decode_instruction(&vec![1, 1, 0]).err(),
        Some(JournalError::MalformedCommand)
    );
    let mut trailing = encode_instruction(&JournalInstruction::SubmitEntry(sample_entry()));
    trailing.push(0);
    assert_eq!(
        decode_instruction(&trailing).err(),
        Some(JournalError::MalformedCommand)
    );
}

#[test]
fn submit_without_signature_creates_nothing() {
    let program = program_key();
    let author = author_account(false);
    let mut cell = fresh_cell(&program, &author.key, b"abc");
    let before_data = cell.data.clone();
    let r = process_submit_entry(&program, &author, &mut cell, &sample_entry(), 1_000_000);
    assert_eq!(r.err(), Some(JournalError::MissingSignature));
    assert_eq!(cell.lamports, 0);
    assert_eq!(cell.data, before_data);
}

#[test]
fn submit_rejects_wrong_cell_address() {
    let program = program_key();
    let author = author_account(true);
    let mut cell = fresh_cell(&program, &author.key, b"abc");
    cell.key = vec![42u8; 32];
    let r = process_submit_entry(&program, &author, &mut cell, &sample_entry(), 1_000_000);
    assert_eq!(r.err(), Some(JournalError::AddressMismatch));
    assert_eq!(cell.lamports, 0);
}

#[test]
fn submit_rejects_oversized_fields() {
    let program = program_key();
    let author = author_account(true);
    let mut cell = fresh_cell(&program, &author.key, b"abc");
    let mut long_hash = sample_entry();
    long_hash.content_hash = vec![0u8; 33];
    let r = process_submit_entry(&program, &author, &mut cell, &long_hash, 1_000_000);
    assert_eq!(r.err(), Some(JournalError::RecordTooLarge));
    let mut long_owner = sample_entry();
    long_owner.owner = vec![0u8; 48];
    let r = process_submit_entry(&program, &author, &mut cell, &long_owner, 1_000_000);
    assert_eq!(r.err(), Some(JournalError::RecordTooLarge));
    let mut over_budget = sample_entry();
    over_budget.content_hash = vec![0u8; 32];
    over_budget.owner = vec![0u8; 16];
    let r = process_submit_entry(&program, &author, &mut cell, &over_budget, 1_000_000);
    assert_eq!(r.err(), Some(JournalError::RecordTooLarge));
}

#[test]
fn submit_rejects_undersized_existing_cell() {
    let program = program_key();
    let author = author_account(true);
    let mut cell = fresh_cell(&program, &author.key, b"abc");
    cell.lamports = 1;
    cell.data = vec![0u8; 8];
    let r = process_submit_entry(&program, &author, &mut cell, &sample_entry(), 1_000_000);
    assert_eq!(r.err(), Some(JournalError::RecordTooLarge));
    assert_eq!(cell.data, vec![0u8; 8]);
}

#[test]
fn submit_creates_missing_cell() {
    let program = program_key();
    let author = author_account(true);
    let mut cell = fresh_cell(&program, &author.key, b"abc");
    let r = process_submit_entry(&program, &author, &mut cell, &sample_entry(), 1_000_000);
    let req = r.expect("submit succeeds").expect("creation requested");
    assert_eq!(req.funder, author.key);
    assert_eq!(req.address, cell.key);
    assert_eq!(req.lamports, 1_000_000);
    assert_eq!(req.space, 80);
    assert_eq!(req.owner, program);
    assert_eq!(req.seed, b"abc".to_vec());
    assert_eq!(cell.owner, program);
    assert_eq!(cell.lamports, 1_000_000);
    let mut expected = expected_sample_bytes();
    expected.resize(80, 0);
    assert_eq!(cell.data, expected);
}

#[test]
fn second_submit_overwrites_counters() {
    let program = program_key();
    let author = author_account(true);
    let voter = voter_account();
    let mut cell = fresh_cell(&program, &author.key, b"abc");
    process_submit_entry(&program, &author, &mut cell, &sample_entry(), 1_000_000)
        .expect("first submit");
    process_vote(&program, &voter, &mut cell, 1).expect("vote");
    let stored = decode_entry(&cell.data).expect("decodes");
    assert_eq!(stored.upvotes, 1);
    let r = process_submit_entry(&program, &author, &mut cell, &sample_entry(), 1_000_000);
    assert!(r.expect("second submit succeeds").is_none());
    let stored = decode_entry(&cell.data).expect("decodes");
    assert_eq!(stored.upvotes, 0);
    assert_eq!(stored.downvotes, 0);
}

#[test]
fn vote_rejects_foreign_cell() {
    let program = program_key();
    let voter = voter_account();
    let mut cell = Account {
        key: vec![1u8; 32],
        is_signer: false,
        lamports: 1,
        owner: vec![9u8; 32],
        data: vec![0u8; 80],
    };
    let r = process_vote(&program, &voter, &mut cell, 1);
    assert_eq!(r, Err(JournalError::NotOwnedByProgram));
}

#[test]
fn vote_without_signature_is_rejected() {
    let program = program_key();
    let mut voter = voter_account();
    voter.is_signer = false;
    let mut cell = Account {
        key: vec![1u8; 32],
        is_signer: false,
        lamports: 1,
        owner: program.clone(),
        data: vec![0u8; 80],
    };
    let r = process_vote(&program, &voter, &mut cell, 1);
    assert_eq!(r, Err(JournalError::MissingSignature));
}

#[test]
fn vote_on_unsubmitted_cell_fails_corrupt() {
    let program = program_key();
    let voter = voter_account();
    let mut cell = Account {
        key: vec![1u8; 32],
        is_signer: false,
        lamports: 1,
        owner: program.clone(),
        data: Vec::new(),
    };
    let r = process_vote(&program, &voter, &mut cell, 1);
    assert_eq!(r, Err(JournalError::CorruptRecord));
    assert!(cell.data.is_empty());
}

#[test]
fn votes_bump_only_the_addressed_counter() {
    let program = program_key();
    let author = author_account(true);
    let voter = voter_account();
    let mut cell = fresh_cell(&program, &author.key, b"abc");
    process_submit_entry(&program, &author, &mut cell, &sample_entry(), 1_000_000)
        .expect("submit");
    process_vote(&program, &voter, &mut cell, 1).expect("upvote");
    process_vote(&program, &voter, &mut cell, 0).expect("downvote");
    process_vote(&program, &voter, &mut cell, 5).expect("non-1 counts down");
    let stored = decode_entry(&cell.data).expect("decodes");
    assert_eq!(stored.upvotes, 1);
    assert_eq!(stored.downvotes, 2);
    assert_eq!(stored.content_hash, b"abc".to_vec());
    assert_eq!(stored.is_public, 1);
    assert_eq!(stored.timestamp, 1000);
    assert_eq!(stored.owner, b"A".to_vec());
}

#[test]
fn vote_overflow_preserves_stored_record() {
    let program = program_key();
    let author = author_account(true);
    let voter = voter_account();
    let mut entry = sample_entry();
    entry.upvotes = u64::MAX;
    let mut cell = fresh_cell(&program, &author.key, b"abc");
    process_submit_entry(&program, &author, &mut cell, &entry, 1_000_000).expect("submit");
    let before = cell.data.clone();
    let r = process_vote(&program, &voter, &mut cell, 1);
    assert_eq!(r, Err(JournalError::CounterOverflow));
    assert_eq!(cell.data, before);
    let r = process_vote(&program, &voter, &mut cell, 0);
    assert_eq!(r, Ok(()));
    let stored = decode_entry(&cell.data).expect("decodes");
    assert_eq!(stored.upvotes, u64::MAX);
    assert_eq!(stored.downvotes, 1);
}

#[test]
fn end_to_end_submit_then_vote() {
    let program = program_key();
    let author = author_account(true);
    let voter = voter_account();
    let mut cell = fresh_cell(&program, &author.key, b"abc");

    let submit_bytes = encode_instruction(&JournalInstruction::SubmitEntry(sample_entry()));
    let r = process_instruction(&program, &author, &mut cell, &submit_bytes, 1_000_000);
    let req = r.expect("submit succeeds").expect("creation requested");
    assert_eq!(req.address, derived_cell_key(&program, &author.key, b"abc"));
    let mut expected = expected_sample_bytes();
    expected.resize(80, 0);
    assert_eq!(cell.data, expected);

    let vote_bytes = encode_instruction(&JournalInstruction::Vote { is_upvote: 1 });
    let r = process_instruction(&program, &voter, &mut cell, &vote_bytes, 1_000_000);
    assert!(r.expect("vote succeeds").is_none());
    let stored = decode_entry(&cell.data).expect("decodes");
    assert_eq!(stored.upvotes, 1);
    assert_eq!(stored.downvotes, 0);
    assert_eq!(stored.content_hash, b"abc".to_vec());
    assert_eq!(stored.is_public, 1);
    assert_eq!(stored.timestamp, 1000);
    assert_eq!(stored.owner, b"A".to_vec());
}

#[test]
fn dispatcher_rejects_malformed_buffer() {
    let program = program_key();
    let author = author_account(true);
    let mut cell = fresh_cell(&program, &author.key, b"abc");
    let r = process_instruction(&program, &author, &mut cell, &vec![9, 9, 9], 1_000_000);
    assert_eq!(r.err(), Some(JournalError::MalformedCommand));
    assert_eq!(cell.lamports, 0);
}
