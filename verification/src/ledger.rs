use vstd::prelude::*;

use crate::address::Address;
use crate::error::EchoError;
use crate::slot::Slot;

verus! {

/// The account storage this core sees: one slot per address. The hosting
/// environment provides the real storage; this type models exactly the part
/// of it that the core reads and mutates, so that provisioning and writes can
/// be stated and checked over it.
pub struct Ledger {
    pub slots: Vec<Slot>,
}

impl Ledger {
    /// Every slot is well formed, and no two slots share an address.
    pub open spec fn wf(&self) -> bool {
        &&& (forall|i: int| 0 <= i < self.slots@.len() ==> (#[trigger] self.slots@[i]).wf())
        &&& (forall|i: int, j: int|
            0 <= i < j < self.slots@.len() ==> self.slots@[i].address@ != self.slots@[j].address@)
    }

    /// Some slot lives at `address`.
    pub open spec fn has_address(&self, address: Seq<u8>) -> bool {
        exists|i: int|
            0 <= i < self.slots@.len() && (#[trigger] self.slots@[i]).address@ == address
    }

    /// The index of the slot at `address`.
    pub open spec fn addr_index(&self, address: Seq<u8>) -> int
        recommends
            self.has_address(address),
    {
        choose|i: int|
            0 <= i < self.slots@.len() && (#[trigger] self.slots@[i]).address@ == address
    }

    /// The slot at `address`.
    pub open spec fn slot_at(&self, address: Seq<u8>) -> Slot
        recommends
            self.has_address(address),
    {
        self.slots@[self.addr_index(address)]
    }

    /// In a well-formed ledger an address determines its slot's index.
    pub proof fn lemma_index_unique(&self, address: Seq<u8>, i: int)
        requires
            self.wf(),
            0 <= i < self.slots@.len(),
            self.slots@[i].address@ == address,
        ensures
            self.has_address(address),
            self.addr_index(address) == i,
    {
        assert(self.has_address(address));
        let k = self.addr_index(address);
        if k < i {
            assert(self.slots@[k].address@ != self.slots@[i].address@);
        } else if i < k {
            assert(self.slots@[i].address@ != self.slots@[k].address@);
        }
    }

    pub fn new() -> (r: Ledger)
        ensures
            r.slots@.len() == 0,
            r.wf(),
    {
        Ledger { slots: Vec::new() }
    }

    /// Looks an address up, returning the index of its slot.
    pub fn find(&self, address: &Address) -> (r: Option<usize>)
        requires
            self.wf(),
        ensures
            match r {
                Some(i) => self.has_address(address@) && i == self.addr_index(address@)
                    && i < self.slots@.len() && self.slots@[i as int].address@ == address@,
                None => !self.has_address(address@),
            },
    {
        let mut i: usize = 0;
        while i < self.slots.len()
            invariant
                self.wf(),
                i <= self.slots@.len(),
                forall|j: int| 0 <= j < i ==> self.slots@[j].address@ != address@,
            decreases self.slots@.len() - i,
        {
            if self.slots[i].address.eq_address(address) {
                proof {
                    self.lemma_index_unique(address@, i as int);
                }
                return Some(i);
            }
            i += 1;
        }
        None
    }

    /// Ledger creation: installs `slot` at its address, or fails with
    /// `SlotAlreadyExists` when the address is already in use. All-or-nothing:
    /// on failure the ledger is unchanged.
    pub fn create(&mut self, slot: Slot) -> (r: Result<(), EchoError>)
        requires
            old(self).wf(),
            slot.wf(),
        ensures
            final(self).wf(),
            old(self).has_address(slot.address@) ==> (r matches Err(e)
                && e == EchoError::SlotAlreadyExists && *final(self) == *old(self)),
            !old(self).has_address(slot.address@) ==> r is Ok && final(self).slots@ == old(
                self,
            ).slots@.push(slot),
    {
        match self.find(&slot.address) {
            Some(_) => Err(EchoError::SlotAlreadyExists),
            None => {
                self.slots.push(slot);
                Ok(())
            },
        }
    }
}

/// Relies on `solana_program::rent::Rent::try_minimum_balance`: under the
/// default rent configuration it returns `Some((128 + n) * 6960)` lamports for
/// a data length `n` of at most 10485760 bytes (the maximum permitted account
/// data length), and `None` for a larger one.
#[verifier::external_body]
pub(crate) fn rent_minimum_balance(size: usize) -> (r: Option<u64>)
    ensures
        size <= 10485760 ==> r == Some((((128 + size) * 6960) as u64)),
        size > 10485760 ==> r is None,
{
    solana_program::rent::Rent::default().try_minimum_balance(size)
}

} // verus!
