use echo_core::address::Address;
use echo_core::error::EchoError;
use echo_core::instruction::{decode_request, EchoInstruction};
use echo_core::ledger::Ledger;
use echo_core::processor::{assert_with_msg, AccountRef, Processor};
use echo_core::slot::Slot;

fn key(b: u8) -> Address {
    Address::new(vec![b; 32])
}

fn init_bytes(seed: u64, capacity: u64) -> Vec<u8> {
    let mut v = vec![1u8];
    v.extend_from_slice(&seed.to_le_bytes());
    v.extend_from_slice(&capacity.to_le_bytes());
    v
}

fn echo_bytes(tag: u8, payload: &[u8]) -> Vec<u8> {
    let mut v = vec![tag];
    v.extend_from_slice(&(payload.len() as u32).to_le_bytes());
    v.extend_from_slice(payload);
    v
}

fn account(address: Address, is_signer: bool) -> AccountRef {
    AccountRef { address, is_signer }
}

#[test]
fn derivation_deterministic() {
    let program = key(7);
    let identity = key(1);
    let first = echo_core::derive::derive(&program, &identity, 42).unwrap();
    let second = echo_core::derive::derive(&program, &identity, 42).unwrap();
    assert_eq!(first.0.bytes, second.0.bytes);
    assert_eq!(first.1, second.1);
}

#[test]
fn derivation_injective_distinct_inputs() {
    let program = key(7);
    let a = echo_core::derive::derive(&program, &key(1), 42).unwrap();
    let b = echo_core::derive::derive(&program, &key(2), 42).unwrap();
    let c = echo_core::derive::derive(&program, &key(1), 43).unwrap();
    assert_ne!(a.0.bytes, b.0.bytes);
    assert_ne!(a.0.bytes, c.0.bytes);
    assert_ne!(b.0.bytes, c.0.bytes);
    assert_ne!(a.0.bytes, key(1).bytes);
}

#[test]
fn derivation_matches_ledger_scheme() {
    let program = key(7);
    let identity = key(1);
    let seed: u64 = 42;
    let ours = echo_core::derive::derive(&program, &identity, seed).unwrap();
    let program_pk = solana_program::pubkey::Pubkey::try_from(&program.bytes[..]).unwrap();
    let identity_pk = solana_program::pubkey::Pubkey::try_from(&identity.bytes[..]).unwrap();
    let (expected, expected_bump) = solana_program::pubkey::Pubkey::find_program_address(
        &[b"authority", identity_pk.as_ref(), &seed.to_le_bytes()],
        &program_pk,
    );
    assert_eq!(ours.0.bytes, expected.to_bytes().to_vec());
    assert_eq!(ours.1, expected_bump);
}

#[test]
fn initialize_writes_header_and_funds_slot() {
    let program = key(7);
    let authority = key(1);
    let mut ledger = Ledger::new();
    let r = Processor::initialize(&mut ledger, &program, &authority, true, 42, 41);
    assert_eq!(r, Ok(()));
    assert_eq!(ledger.slots.len(), 1);
    let (derived, bump) = echo_core::derive::derive(&program, &authority, 42).unwrap();
    let slot = &ledger.slots[0];
    assert_eq!(slot.address.bytes, derived.bytes);
    assert_eq!(slot.owner.bytes, program.bytes);
    assert_eq!(slot.lamports, (128 + 41) * 6960);
    assert_eq!(slot.data.len(), 41);
    assert_eq!(slot.data[0], bump);
    assert_eq!(&slot.data[1..9], &42u64.to_le_bytes());
    assert!(slot.data[9..].iter().all(|&b| b == 0));
}

#[test]
fn initialize_requires_signature() {
    let program = key(7);
    let authority = key(1);
    let mut ledger = Ledger::new();
    let r = Processor::initialize(&mut ledger, &program, &authority, false, 42, 41);
    assert_eq!(r, Err(EchoError::MissingSignature));
    assert_eq!(ledger.slots.len(), 0);
}

#[test]
fn initialize_rejects_header_sized_capacity() {
    let program = key(7);
    let authority = key(1);
    let mut ledger = Ledger::new();
    assert_eq!(
        Processor::initialize(&mut ledger, &program, &authority, true, 42, 9),
        Err(EchoError::InvalidCapacity)
    );
    assert_eq!(
        Processor::initialize(&mut ledger, &program, &authority, true, 42, 0),
        Err(EchoError::InvalidCapacity)
    );
    assert_eq!(ledger.slots.len(), 0);
}

#[test]
fn initialize_rejects_oversized_capacity() {
    let program = key(7);
    let authority = key(1);
    let mut ledger = Ledger::new();
    let r = Processor::initialize(&mut ledger, &program, &authority, true, 42, 10485761);
    assert_eq!(r, Err(EchoError::LedgerFailure));
    assert_eq!(ledger.slots.len(), 0);
}

#[test]
fn duplicate_provisioning_fails_and_preserves_slot() {
    let program = key(7);
    let authority = key(1);
    let mut ledger = Ledger::new();
    assert_eq!(
        Processor::initialize(&mut ledger, &program, &authority, true, 42, 41),
        Ok(())
    );
    let before = ledger.slots[0].data.clone();
    let r = Processor::initialize(&mut ledger, &program, &authority, true, 42, 41);
    assert_eq!(r, Err(EchoError::SlotAlreadyExists));
    assert_eq!(ledger.slots.len(), 1);
    assert_eq!(ledger.slots[0].data, before);
}

#[test]
fn write_truncates_long_payload() {
    let mut slot = Slot {
        address: key(3),
        owner: key(7),
        lamports: 0,
        data: vec![0; 12],
    };
    let payload = vec![1, 2, 3, 4, 5];
    let r = slot.write(&payload, true);
    assert_eq!(r, Ok(()));
    assert_eq!(&slot.data[9..], &[1, 2, 3]);
}

#[test]
fn clean_slate_leaves_no_residue() {
    let mut slot = Slot {
        address: key(3),
        owner: key(7),
        lamports: 0,
        data: vec![0; 30],
    };
    let long: Vec<u8> = (1..=20).collect();
    slot.write(&long, true).unwrap();
    assert_eq!(&slot.data[9..29], &long[..20]);
    let short = vec![9u8, 9u8];
    slot.write(&short, true).unwrap();
    assert_eq!(&slot.data[9..11], &[9, 9]);
    assert!(slot.data[11..].iter().all(|&b| b == 0));
    assert_eq!(slot.data[0], 0);
}

#[test]
fn authorize_guards_the_slot() {
    let program = key(7);
    let authority = key(1);
    let stranger = key(2);
    let mut ledger = Ledger::new();
    Processor::initialize(&mut ledger, &program, &authority, true, 42, 41).unwrap();
    let slot = &ledger.slots[0];
    assert_eq!(
        Processor::authorize(slot, &program, &stranger, true),
        Err(EchoError::AuthorityMismatch)
    );
    assert_eq!(
        Processor::authorize(slot, &program, &authority, false),
        Err(EchoError::NotSigner)
    );
    assert_eq!(Processor::authorize(slot, &program, &authority, true), Ok(()));
}

#[test]
fn end_to_end_authorized_echo() {
    let program = key(7);
    let authority = key(1);
    let stranger = key(2);
    let mut ledger = Ledger::new();

    let (derived, bump) = echo_core::derive::derive(&program, &authority, 42).unwrap();
    let accounts = vec![
        account(derived.clone(), false),
        account(authority.clone(), true),
        account(key(0), false),
    ];
    let r = Processor::process_instruction(&program, &mut ledger, &accounts, &init_bytes(42, 41));
    assert_eq!(r, Ok(()));
    assert_eq!(ledger.slots[0].data[0], bump);
    assert_eq!(&ledger.slots[0].data[1..9], &42u64.to_le_bytes());

    let write_accounts = vec![account(derived.clone(), false), account(authority.clone(), true)];
    let r = Processor::process_instruction(
        &program,
        &mut ledger,
        &write_accounts,
        &echo_bytes(2, &[1, 2, 3]),
    );
    assert_eq!(r, Ok(()));
    assert_eq!(&ledger.slots[0].data[9..12], &[1, 2, 3]);
    assert!(ledger.slots[0].data[12..41].iter().all(|&b| b == 0));

    let before = ledger.slots[0].data.clone();
    let forged_accounts = vec![account(derived.clone(), false), account(stranger.clone(), true)];
    let r = Processor::process_instruction(
        &program,
        &mut ledger,
        &forged_accounts,
        &echo_bytes(2, &[9, 9, 9]),
    );
    assert_eq!(r, Err(EchoError::AuthorityMismatch));
    assert_eq!(ledger.slots[0].data, before);
}

#[test]
fn initialize_rejects_foreign_buffer_account() {
    let program = key(7);
    let authority = key(1);
    let mut ledger = Ledger::new();
    let accounts = vec![
        account(key(9), false),
        account(authority.clone(), true),
        account(key(0), false),
    ];
    let r = Processor::process_instruction(&program, &mut ledger, &accounts, &init_bytes(42, 41));
    assert_eq!(r, Err(EchoError::LedgerFailure));
    assert_eq!(ledger.slots.len(), 0);
}

#[test]
fn unauthenticated_echo_overwrites_whole_buffer() {
    let program = key(7);
    let mut ledger = Ledger::new();
    ledger
        .create(Slot {
            address: key(5),
            owner: key(7),
            lamports: 0,
            data: vec![5; 6],
        })
        .unwrap();
    let accounts = vec![account(key(5), false)];
    let r = Processor::process_instruction(&program, &mut ledger, &accounts, &echo_bytes(0, &[7, 8]));
    assert_eq!(r, Ok(()));
    assert_eq!(ledger.slots[0].data, vec![7, 8, 0, 0, 0, 0]);
}

#[test]
fn echo_rejects_foreign_owner_and_missing_account() {
    let program = key(7);
    let mut ledger = Ledger::new();
    ledger
        .create(Slot {
            address: key(5),
            owner: key(8),
            lamports: 0,
            data: vec![0; 6],
        })
        .unwrap();
    let foreign = vec![account(key(5), false)];
    assert_eq!(
        Processor::process_instruction(&program, &mut ledger, &foreign, &echo_bytes(0, &[7])),
        Err(EchoError::LedgerFailure)
    );
    let missing = vec![account(key(6), false)];
    assert_eq!(
        Processor::process_instruction(&program, &mut ledger, &missing, &echo_bytes(0, &[7])),
        Err(EchoError::LedgerFailure)
    );
    let none: Vec<AccountRef> = vec![];
    assert_eq!(
        Processor::process_instruction(&program, &mut ledger, &none, &echo_bytes(0, &[7])),
        Err(EchoError::LedgerFailure)
    );
}

#[test]
fn vending_machine_kinds_not_implemented() {
    let program = key(7);
    let mut ledger = Ledger::new();
    let accounts = vec![account(key(5), true)];
    let mut init_priced = vec![3u8];
    init_priced.extend_from_slice(&5u64.to_le_bytes());
    init_priced.extend_from_slice(&41u64.to_le_bytes());
    assert_eq!(
        Processor::process_instruction(&program, &mut ledger, &accounts, &init_priced),
        Err(EchoError::NotImplemented)
    );
    assert_eq!(
        Processor::process_instruction(&program, &mut ledger, &accounts, &echo_bytes(4, &[1])),
        Err(EchoError::NotImplemented)
    );
    assert_eq!(ledger.slots.len(), 0);
}

#[test]
fn decode_accepts_each_kind() {
    let r = decode_request(&echo_bytes(0, &[1, 2])).unwrap();
    assert!(matches!(r, EchoInstruction::Echo { ref data } if data == &vec![1, 2]));
    let r = decode_request(&init_bytes(42, 41)).unwrap();
    assert!(matches!(
        r,
        EchoInstruction::InitializeAuthorizedEcho { buffer_seed: 42, buffer_size: 41 }
    ));
    let r = decode_request(&echo_bytes(2, &[])).unwrap();
    assert!(matches!(r, EchoInstruction::AuthorizedEcho { ref data } if data.is_empty()));
    let mut priced = vec![3u8];
    priced.extend_from_slice(&77u64.to_le_bytes());
    priced.extend_from_slice(&10u64.to_le_bytes());
    let r = decode_request(&priced).unwrap();
    assert!(matches!(
        r,
        EchoInstruction::InitializeVendingMachineEcho { price: 77, buffer_size: 10 }
    ));
    let r = decode_request(&echo_bytes(4, &[9])).unwrap();
    assert!(matches!(r, EchoInstruction::VendingMachineEcho { ref data } if data == &vec![9]));
}

#[test]
fn decode_rejects_malformed_requests() {
    assert_eq!(
        decode_request(&vec![]),
        Err(EchoError::InvalidRequestEncoding)
    );
    assert_eq!(
        decode_request(&vec![5]),
        Err(EchoError::InvalidRequestEncoding)
    );
    assert_eq!(
        decode_request(&vec![0, 1, 0]),
        Err(EchoError::InvalidRequestEncoding)
    );
    // Length prefix longer than the remaining bytes.
    assert_eq!(
        decode_request(&vec![0, 3, 0, 0, 0, 1]),
        Err(EchoError::InvalidRequestEncoding)
    );
    // Trailing bytes after the declared payload.
    assert_eq!(
        decode_request(&vec![0, 1, 0, 0, 0, 1, 2]),
        Err(EchoError::InvalidRequestEncoding)
    );
    // A fixed-field kind with the wrong length.
    assert_eq!(
        decode_request(&vec![1, 0, 0, 0, 0, 0, 0, 0, 0]),
        Err(EchoError::InvalidRequestEncoding)
    );
}

#[test]
fn empty_request_is_rejected_without_effect() {
    let program = key(7);
    let mut ledger = Ledger::new();
    let accounts: Vec<AccountRef> = vec![];
    let r = Processor::process_instruction(&program, &mut ledger, &accounts, &vec![]);
    assert_eq!(r, Err(EchoError::InvalidRequestEncoding));
    assert_eq!(ledger.slots.len(), 0);
}

#[test]
fn assert_with_msg_reports_given_error() {
    assert_eq!(assert_with_msg(true, EchoError::NotSigner, "unused"), Ok(()));
    assert_eq!(
        assert_with_msg(false, EchoError::NotSigner, "authority is not the signer"),
        Err(EchoError::NotSigner)
    );
}
