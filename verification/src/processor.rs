use vstd::prelude::*;

use crate::address::{zeroed, Address};
use crate::derive::derivation_of;
use crate::error::EchoError;
use crate::instruction::{decode_request, spec_decode, EchoInstruction, RequestView};
use crate::ledger::{rent_minimum_balance, Ledger};
use crate::slot::{region_written, write_header, Slot, HEADER_SIZE};

verus! {

/// An account referenced by a request: its address, and whether the identity
/// behind it has cryptographically signed the current request. The hosting
/// environment verifies the signature; this core trusts the boolean.
pub struct AccountRef {
    pub address: Address,
    pub is_signer: bool,
}

impl AccountRef {
    pub open spec fn wf(&self) -> bool {
        self.address.wf()
    }
}

/// Returns `Ok` when `statement` holds and `err` otherwise. The message is a
/// best-effort side channel for the hosting environment's log; it never
/// affects the result.
pub fn assert_with_msg(statement: bool, err: EchoError, _msg: &str) -> (r: Result<(), EchoError>)
    ensures
        statement ==> r is Ok,
        !statement ==> (r matches Err(e) && e == err),
{
    if !statement {
        Err(err)
    } else {
        Ok(())
    }
}

/// The derived pair behind a `Some` derivation.
pub open spec fn derived_pair(program: Seq<u8>, identity: Seq<u8>, seed: u64) -> (Seq<u8>, u8)
    recommends
        derivation_of(program, identity, seed) is Some,
{
    match derivation_of(program, identity, seed) {
        Some(p) => p,
        None => (Seq::empty(), 0u8),
    }
}

/// Every precondition of provisioning holds: the authority signed, the
/// capacity holds more than the header, the derivation succeeds, the derived
/// address is free, and the capacity is within the ledger's size limit.
pub open spec fn init_checks_pass(
    pre: Ledger,
    program: Seq<u8>,
    authority: Seq<u8>,
    is_signer: bool,
    seed: u64,
    capacity: u64,
) -> bool {
    &&& is_signer
    &&& capacity > 9
    &&& derivation_of(program, authority, seed) is Some
    &&& !pre.has_address(derived_pair(program, authority, seed).0)
    &&& capacity <= 10485760
}

/// The error provisioning reports, by the first failing check.
pub open spec fn init_error(
    pre: Ledger,
    program: Seq<u8>,
    authority: Seq<u8>,
    is_signer: bool,
    seed: u64,
    capacity: u64,
) -> EchoError
    recommends
        !init_checks_pass(pre, program, authority, is_signer, seed, capacity),
{
    if !is_signer {
        EchoError::MissingSignature
    } else if capacity <= 9 {
        EchoError::InvalidCapacity
    } else if derivation_of(program, authority, seed) is None {
        EchoError::DerivationExhausted
    } else if pre.has_address(derived_pair(program, authority, seed).0) {
        EchoError::SlotAlreadyExists
    } else {
        EchoError::LedgerFailure
    }
}

/// The ledger state after successful provisioning: one new slot at the
/// derived address, owned by the program, funded at the ledger's minimum
/// balance for its size, its header holding the disambiguation byte and the
/// little-endian seed, its payload region zeroed; every prior slot untouched.
pub open spec fn init_success(
    pre: Ledger,
    post: Ledger,
    program: Seq<u8>,
    authority: Seq<u8>,
    seed: u64,
    capacity: u64,
) -> bool {
    let p = derived_pair(program, authority, seed);
    let s = post.slots@.last();
    &&& post.slots@.len() == pre.slots@.len() + 1
    &&& post.slots@.subrange(0, pre.slots@.len() as int) == pre.slots@
    &&& s.address@ == p.0
    &&& s.owner@ == program
    &&& s.lamports == (128 + capacity) * 6960
    &&& s.data@.len() == capacity
    &&& s.data@[0] == p.1
    &&& s.data@.subrange(1, 9) == vstd::bytes::spec_u64_to_le_bytes(seed)
    &&& (forall|i: int| 9 <= i < s.data@.len() ==> s.data@[i] == 0u8)
}

/// The echo core's request processing.
pub struct Processor {}

impl Processor {
    /// Slot Provisioner: derives the slot address from the signing authority
    /// and the seed, installs a zeroed slot of `capacity` bytes at it on the
    /// ledger, funded at the ledger's minimum balance for that size, and
    /// writes the header. All-or-nothing: on any error the ledger is
    /// unchanged.
    pub fn initialize(
        ledger: &mut Ledger,
        program_id: &Address,
        authority: &Address,
        is_signer: bool,
        seed: u64,
        capacity: u64,
    ) -> (r: Result<(), EchoError>)
        requires
            old(ledger).wf(),
            program_id.wf(),
            authority.wf(),
        ensures
            final(ledger).wf(),
            init_checks_pass(*old(ledger), program_id@, authority@, is_signer, seed, capacity)
                ==> (r is Ok && init_success(
                *old(ledger),
                *final(ledger),
                program_id@,
                authority@,
                seed,
                capacity,
            )),
            !init_checks_pass(*old(ledger), program_id@, authority@, is_signer, seed, capacity)
                ==> (r matches Err(e) && e == init_error(
                *old(ledger),
                program_id@,
                authority@,
                is_signer,
                seed,
                capacity,
            ) && *final(ledger) == *old(ledger)),
    {
        if !is_signer {
            return Err(EchoError::MissingSignature);
        }
        if capacity <= HEADER_SIZE {
            return Err(EchoError::InvalidCapacity);
        }
        let (address, bump) = match crate::derive::derive(program_id, authority, seed) {
            Ok(p) => p,
            Err(e) => {
                return Err(e);
            },
        };
        if ledger.find(&address).is_some() {
            return Err(EchoError::SlotAlreadyExists);
        }
        if capacity > 10485760 {
            return Err(EchoError::LedgerFailure);
        }
        let lamports = match rent_minimum_balance(capacity as usize) {
            Some(l) => l,
            None => {
                return Err(EchoError::LedgerFailure);
            },
        };
        let mut data = zeroed(capacity as usize);
        write_header(&mut data, bump, seed);
        let slot = Slot { address, owner: program_id.clone(), lamports, data };
        let r = ledger.create(slot);
        proof {
            assert(ledger.slots@.subrange(0, old(ledger).slots@.len() as int) =~= old(
                ledger,
            ).slots@);
        }
        r
    }

    /// The claimed identity re-derives the slot's recorded address: deriving
    /// with the seed read from the slot header yields the slot's own address.
    pub open spec fn authorized_for(slot: Slot, program: Seq<u8>, claimed: Seq<u8>) -> bool
        recommends
            slot.data@.len() >= 9,
    {
        match derivation_of(program, claimed, slot.header_seed()) {
            Some(p) => p.0 == slot.address@,
            None => false,
        }
    }

    /// Authorization Guard: pure validation, no mutation. Re-derives the
    /// expected address from the claimed identity and the seed recorded in the
    /// slot header, and rejects with `AuthorityMismatch` unless it equals the
    /// slot's address, then with `NotSigner` unless the claimed identity
    /// signed the current request.
    pub fn authorize(
        slot: &Slot,
        program_id: &Address,
        claimed: &Address,
        is_signer: bool,
    ) -> (r: Result<(), EchoError>)
        requires
            program_id.wf(),
            claimed.wf(),
            slot.data@.len() >= 9,
        ensures
            match r {
                Ok(()) => Self::authorized_for(*slot, program_id@, claimed@) && is_signer,
                Err(e) => {
                    if !Self::authorized_for(*slot, program_id@, claimed@) {
                        e == EchoError::AuthorityMismatch
                    } else {
                        !is_signer && e == EchoError::NotSigner
                    }
                },
            },
    {
        let seed = vstd::bytes::u64_from_le_bytes(
            vstd::slice::slice_subrange(slot.data.as_slice(), 1, 9),
        );
        let expected = match crate::derive::derive(program_id, claimed, seed) {
            Ok(p) => p.0,
            Err(_) => {
                return Err(EchoError::AuthorityMismatch);
            },
        };
        if !expected.eq_address(&slot.address) {
            return Err(EchoError::AuthorityMismatch);
        }
        if !is_signer {
            return Err(EchoError::NotSigner);
        }
        Ok(())
    }

    /// Dispatcher: decodes the request, classifies its kind and routes it to
    /// the Slot Provisioner, the Authorization Guard plus Buffer Writer, or
    /// the Buffer Writer alone; the two vending-machine kinds are rejected
    /// with `NotImplemented` and no side effect. Any error leaves the ledger
    /// unchanged.
    pub fn process_instruction(
        program_id: &Address,
        ledger: &mut Ledger,
        accounts: &Vec<AccountRef>,
        instruction_data: &Vec<u8>,
    ) -> (r: Result<(), EchoError>)
        requires
            old(ledger).wf(),
            program_id.wf(),
            forall|i: int| 0 <= i < accounts@.len() ==> (#[trigger] accounts@[i]).wf(),
        ensures
            final(ledger).wf(),
            r is Err ==> *final(ledger) == *old(ledger),
            process_step(
                *old(ledger),
                *final(ledger),
                program_id@,
                accounts@,
                instruction_data@,
                r,
            ),
    {
        let instruction = match decode_request(instruction_data) {
            Ok(inst) => inst,
            Err(e) => {
                return Err(e);
            },
        };
        match instruction {
            EchoInstruction::Echo { data } => {
                if accounts.len() < 1 {
                    return Err(EchoError::LedgerFailure);
                }
                let i = match ledger.find(&accounts[0].address) {
                    Some(i) => i,
                    None => {
                        return Err(EchoError::LedgerFailure);
                    },
                };
                if !ledger.slots[i].owner.eq_address(program_id) {
                    return Err(EchoError::LedgerFailure);
                }
                let mut slot = ledger.slots.remove(i);
                let _ = slot.write(&data, false);
                let ghost new_slot = slot;
                ledger.slots.insert(i, slot);
                proof {
                    assert(ledger.slots@ =~= old(ledger).slots@.update(i as int, new_slot));
                }
                Ok(())
            },
            EchoInstruction::AuthorizedEcho { data } => {
                if accounts.len() < 2 {
                    return Err(EchoError::LedgerFailure);
                }
                let i = match ledger.find(&accounts[0].address) {
                    Some(i) => i,
                    None => {
                        return Err(EchoError::LedgerFailure);
                    },
                };
                if ledger.slots[i].data.len() < 9 {
                    return Err(EchoError::LedgerFailure);
                }
                if !ledger.slots[i].owner.eq_address(program_id) {
                    return Err(EchoError::LedgerFailure);
                }
                match Self::authorize(
                    &ledger.slots[i],
                    program_id,
                    &accounts[1].address,
                    accounts[1].is_signer,
                ) {
                    Ok(()) => (),
                    Err(e) => {
                        return Err(e);
                    },
                }
                let mut slot = ledger.slots.remove(i);
                let _ = slot.write(&data, true);
                let ghost new_slot = slot;
                ledger.slots.insert(i, slot);
                proof {
                    assert(ledger.slots@ =~= old(ledger).slots@.update(i as int, new_slot));
                }
                Ok(())
            },
            EchoInstruction::InitializeAuthorizedEcho { buffer_seed, buffer_size } => {
                if accounts.len() < 3 {
                    return Err(EchoError::LedgerFailure);
                }
                if !accounts[1].is_signer {
                    return Err(EchoError::MissingSignature);
                }
                if buffer_size <= HEADER_SIZE {
                    return Err(EchoError::InvalidCapacity);
                }
                let derived = match crate::derive::derive(
                    program_id,
                    &accounts[1].address,
                    buffer_seed,
                ) {
                    Ok(p) => p.0,
                    Err(e) => {
                        return Err(e);
                    },
                };
                if !derived.eq_address(&accounts[0].address) {
                    return Err(EchoError::LedgerFailure);
                }
                Self::initialize(
                    ledger,
                    program_id,
                    &accounts[1].address,
                    true,
                    buffer_seed,
                    buffer_size,
                )
            },
            EchoInstruction::InitializeVendingMachineEcho { price: _, buffer_size: _ } => Err(
                EchoError::NotImplemented,
            ),
            EchoInstruction::VendingMachineEcho { data: _ } => Err(EchoError::NotImplemented),
        }
    }
}

/// One slot's clean-slate overwrite on the ledger: the slot at `buffer` has
/// its writable region rewritten for `payload`; its identity fields and every
/// other slot are untouched.
pub open spec fn slot_overwritten(
    pre: Ledger,
    post: Ledger,
    buffer: Seq<u8>,
    start: int,
    payload: Seq<u8>,
) -> bool
    recommends
        pre.has_address(buffer),
{
    let i = pre.addr_index(buffer);
    &&& post.slots@.len() == pre.slots@.len()
    &&& (forall|j: int|
        0 <= j < pre.slots@.len() && j != i ==> post.slots@[j] == pre.slots@[j])
    &&& post.slots@[i].address == pre.slots@[i].address
    &&& post.slots@[i].owner == pre.slots@[i].owner
    &&& post.slots@[i].lamports == pre.slots@[i].lamports
    &&& region_written(pre.slots@[i].data@, post.slots@[i].data@, start, payload)
}

/// Unauthenticated echo: the referenced account's whole byte region is
/// overwritten under the clean-slate policy. A missing account, or one the
/// program does not own, is the ledger's refusal.
pub open spec fn echo_step(
    pre: Ledger,
    post: Ledger,
    program: Seq<u8>,
    accounts: Seq<AccountRef>,
    payload: Seq<u8>,
    r: Result<(), EchoError>,
) -> bool {
    if accounts.len() < 1 {
        r matches Err(e) && e == EchoError::LedgerFailure
    } else if !pre.has_address(accounts[0].address@) {
        r matches Err(e) && e == EchoError::LedgerFailure
    } else if pre.slot_at(accounts[0].address@).owner@ != program {
        r matches Err(e) && e == EchoError::LedgerFailure
    } else {
        r is Ok && slot_overwritten(pre, post, accounts[0].address@, 0, payload)
    }
}

/// Authorized echo: the guard's checks, then a clean-slate overwrite of the
/// payload region (bytes 9..). A slot too small to hold a header is the
/// ledger's refusal.
pub open spec fn auth_echo_step(
    pre: Ledger,
    post: Ledger,
    program: Seq<u8>,
    accounts: Seq<AccountRef>,
    payload: Seq<u8>,
    r: Result<(), EchoError>,
) -> bool {
    if accounts.len() < 2 {
        r matches Err(e) && e == EchoError::LedgerFailure
    } else if !pre.has_address(accounts[0].address@) {
        r matches Err(e) && e == EchoError::LedgerFailure
    } else {
        let s = pre.slot_at(accounts[0].address@);
        if s.data@.len() < 9 {
            r matches Err(e) && e == EchoError::LedgerFailure
        } else if s.owner@ != program {
            r matches Err(e) && e == EchoError::LedgerFailure
        } else if !Processor::authorized_for(s, program, accounts[1].address@) {
            r matches Err(e) && e == EchoError::AuthorityMismatch
        } else if !accounts[1].is_signer {
            r matches Err(e) && e == EchoError::NotSigner
        } else {
            r is Ok && slot_overwritten(pre, post, accounts[0].address@, 9, payload)
        }
    }
}

/// Provisioning via the dispatcher: the supplied buffer account must be the
/// derived address, and the remaining checks and effects are those of
/// `Processor::initialize`.
pub open spec fn init_step(
    pre: Ledger,
    post: Ledger,
    program: Seq<u8>,
    accounts: Seq<AccountRef>,
    seed: u64,
    capacity: u64,
    r: Result<(), EchoError>,
) -> bool {
    if accounts.len() < 3 {
        r matches Err(e) && e == EchoError::LedgerFailure
    } else if !accounts[1].is_signer {
        r matches Err(e) && e == EchoError::MissingSignature
    } else if capacity <= 9 {
        r matches Err(e) && e == EchoError::InvalidCapacity
    } else {
        match derivation_of(program, accounts[1].address@, seed) {
            None => r matches Err(e) && e == EchoError::DerivationExhausted,
            Some(p) => {
                if p.0 != accounts[0].address@ {
                    r matches Err(e) && e == EchoError::LedgerFailure
                } else if pre.has_address(p.0) {
                    r matches Err(e) && e == EchoError::SlotAlreadyExists
                } else if capacity > 10485760 {
                    r matches Err(e) && e == EchoError::LedgerFailure
                } else {
                    r is Ok && init_success(pre, post, program, accounts[1].address@, seed, capacity)
                }
            },
        }
    }
}

/// The dispatcher relation: what processing one request does to the ledger
/// and which result it returns.
pub open spec fn process_step(
    pre: Ledger,
    post: Ledger,
    program: Seq<u8>,
    accounts: Seq<AccountRef>,
    data: Seq<u8>,
    r: Result<(), EchoError>,
) -> bool {
    match spec_decode(data) {
        None => r matches Err(e) && e == EchoError::InvalidRequestEncoding,
        Some(RequestView::Echo { data: payload }) => echo_step(
            pre,
            post,
            program,
            accounts,
            payload,
            r,
        ),
        Some(RequestView::InitializeAuthorizedEcho { buffer_seed, buffer_size }) => init_step(
            pre,
            post,
            program,
            accounts,
            buffer_seed,
            buffer_size,
            r,
        ),
        Some(RequestView::AuthorizedEcho { data: payload }) => auth_echo_step(
            pre,
            post,
            program,
            accounts,
            payload,
            r,
        ),
        Some(RequestView::InitializeVendingMachineEcho { price: _, buffer_size: _ }) => (r matches
        Err(e) && e == EchoError::NotImplemented),
        Some(RequestView::VendingMachineEcho { data: _ }) => (r matches Err(e)
            && e == EchoError::NotImplemented),
    }
}

/// Round-trip header after provisioning: the freshly provisioned slot's
/// header reads back as the derivation's results — bytes 1..9 decode
/// little-endian to the seed, and byte 0 is the disambiguation byte.
pub proof fn lemma_provisioned_header_round_trip(
    pre: Ledger,
    post: Ledger,
    program: Seq<u8>,
    authority: Seq<u8>,
    seed: u64,
    capacity: u64,
)
    requires
        derivation_of(program, authority, seed) is Some,
        init_success(pre, post, program, authority, seed, capacity),
        capacity > 9,
    ensures
        post.slots@.last().header_seed() == seed,
        post.slots@.last().header_bump() == derived_pair(program, authority, seed).1,
{
    crate::slot::lemma_header_round_trip(
        post.slots@.last(),
        derived_pair(program, authority, seed).1,
        seed,
    );
}

/// Duplicate provisioning: once provisioning for `(authority, seed)` has
/// succeeded, a second provisioning for the same pair — signed, with any
/// lawful capacity — fails its checks with `SlotAlreadyExists`.
pub proof fn lemma_duplicate_initialize(
    pre: Ledger,
    mid: Ledger,
    program: Seq<u8>,
    authority: Seq<u8>,
    seed: u64,
    capacity: u64,
    second_capacity: u64,
)
    requires
        derivation_of(program, authority, seed) is Some,
        init_success(pre, mid, program, authority, seed, capacity),
        second_capacity > 9,
        second_capacity <= 10485760,
    ensures
        !init_checks_pass(mid, program, authority, true, seed, second_capacity),
        init_error(mid, program, authority, true, seed, second_capacity)
            == EchoError::SlotAlreadyExists,
{
    let p = derived_pair(program, authority, seed);
    assert(mid.slots@[mid.slots@.len() - 1].address@ == p.0);
    assert(mid.has_address(p.0));
}

} // verus!
