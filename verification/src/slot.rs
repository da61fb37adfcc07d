use vstd::bytes::{spec_u64_from_le_bytes, spec_u64_to_le_bytes, u64_to_le_bytes};
use vstd::pervasive::VecAdditionalExecFns;
use vstd::prelude::*;

use crate::address::Address;
use crate::error::EchoError;

verus! {

/// Number of header bytes at the front of an authorized slot: byte 0 holds the
/// disambiguation byte, bytes 1..9 the little-endian seed.
pub const HEADER_SIZE: u64 = 9;

/// A fixed-capacity byte region on the ledger: a derived address, the program
/// that owns (and alone may mutate) it, its funding balance, and its bytes.
pub struct Slot {
    pub address: Address,
    pub owner: Address,
    pub lamports: u64,
    pub data: Vec<u8>,
}

impl Slot {
    pub open spec fn wf(&self) -> bool {
        self.address.wf() && self.owner.wf()
    }

    /// The seed recorded in the slot header (bytes 1..9, little-endian).
    pub open spec fn header_seed(&self) -> u64
        recommends
            self.data@.len() >= 9,
    {
        spec_u64_from_le_bytes(self.data@.subrange(1, 9))
    }

    /// The disambiguation byte recorded in the slot header (byte 0).
    pub open spec fn header_bump(&self) -> u8
        recommends
            self.data@.len() >= 1,
    {
        self.data@[0]
    }

    /// Buffer Writer: clean-slate overwrite of the slot's writable region.
    ///
    /// On the authorized path the writable region is bytes 9.. (the header is
    /// never touched); on the unauthenticated path it is the whole slot. The
    /// region is zero-filled, then payload bytes are copied in; a payload
    /// longer than the region is silently truncated (a lossy-truncation
    /// contract, not an error). The unauthenticated path deliberately mirrors
    /// the authorized path's clean-slate policy.
    pub fn write(&mut self, payload: &Vec<u8>, authorized: bool) -> (r: Result<(), EchoError>)
        requires
            authorized ==> old(self).data@.len() >= 9,
        ensures
            r is Ok,
            final(self).address == old(self).address,
            final(self).owner == old(self).owner,
            final(self).lamports == old(self).lamports,
            region_written(
                old(self).data@,
                final(self).data@,
                if authorized { 9int } else { 0int },
                payload@,
            ),
    {
        let start: usize = if authorized { 9 } else { 0 };
        write_region(&mut self.data, start, payload);
        Ok(())
    }
}

/// How many payload bytes a clean-slate write copies: the payload length,
/// truncated to the region's length.
pub open spec fn write_size(region: int, payload: int) -> int {
    if payload < region {
        payload
    } else {
        region
    }
}

/// The clean-slate write relation on a byte region. `post` is `pre` with
/// bytes `start..` first zero-filled, then the first `write_size` payload
/// bytes copied in at `start`; bytes before `start` are untouched.
pub open spec fn region_written(pre: Seq<u8>, post: Seq<u8>, start: int, payload: Seq<u8>) -> bool {
    let w = write_size(pre.len() - start, payload.len() as int);
    &&& post.len() == pre.len()
    &&& (forall|i: int| 0 <= i < start ==> post[i] == pre[i])
    &&& (forall|i: int| 0 <= i < w ==> post[start + i] == payload[i])
    &&& (forall|i: int| start + w <= i < post.len() ==> post[i] == 0u8)
}

/// Zero-fill `data[start..]`, then copy payload bytes to `data[start..]`,
/// truncating the payload to the region.
pub fn write_region(data: &mut Vec<u8>, start: usize, payload: &Vec<u8>)
    requires
        start <= old(data)@.len(),
    ensures
        region_written(old(data)@, final(data)@, start as int, payload@),
{
    let len = data.len();
    let mut i: usize = start;
    while i < len
        invariant
            start <= i <= len,
            len == data@.len(),
            data@.len() == old(data)@.len(),
            forall|j: int| 0 <= j < start ==> data@[j] == old(data)@[j],
            forall|j: int| start <= j < i ==> data@[j] == 0u8,
        decreases len - i,
    {
        data.set(i, 0u8);
        i += 1;
    }
    let region = len - start;
    let w = if payload.len() < region {
        payload.len()
    } else {
        region
    };
    let mut k: usize = 0;
    while k < w
        invariant
            k <= w,
            start + w <= len,
            w == write_size(len - start, payload@.len() as int),
            len == data@.len(),
            data@.len() == old(data)@.len(),
            forall|j: int| 0 <= j < start ==> data@[j] == old(data)@[j],
            forall|j: int| 0 <= j < k ==> data@[start + j] == payload@[j],
            forall|j: int| start + k <= j < len ==> data@[j] == 0u8,
        decreases w - k,
    {
        data.set(start + k, payload[k]);
        k += 1;
    }
}

/// Provisioner header write: byte 0 takes the disambiguation byte, bytes 1..9
/// the little-endian seed; every byte from 9 on is untouched.
pub fn write_header(data: &mut Vec<u8>, bump: u8, seed: u64)
    requires
        old(data)@.len() >= 9,
    ensures
        final(data)@.len() == old(data)@.len(),
        final(data)@[0] == bump,
        final(data)@.subrange(1, 9) == spec_u64_to_le_bytes(seed),
        forall|i: int| 9 <= i < final(data)@.len() ==> final(data)@[i] == old(data)@[i],
{
    data.set(0, bump);
    let seed_bytes = u64_to_le_bytes(seed);
    let mut i: usize = 0;
    while i < 8
        invariant
            i <= 8,
            seed_bytes@ == spec_u64_to_le_bytes(seed),
            seed_bytes@.len() == 8,
            data@.len() == old(data)@.len() >= 9,
            data@[0] == bump,
            forall|j: int| 1 <= j < 1 + i ==> data@[j] == seed_bytes@[j - 1],
            forall|j: int| 9 <= j < data@.len() ==> data@[j] == old(data)@[j],
        decreases 8 - i,
    {
        data.set(1 + i, seed_bytes[i]);
        i += 1;
    }
    proof {
        assert(data@.subrange(1, 9) =~= spec_u64_to_le_bytes(seed));
    }
}

/// Round-trip header: a header written for `(bump, seed)` reads back as that
/// very pair — bytes 1..9 decode little-endian to `seed`, byte 0 is `bump`.
pub proof fn lemma_header_round_trip(slot: Slot, bump: u8, seed: u64)
    requires
        slot.data@.len() >= 9,
        slot.data@[0] == bump,
        slot.data@.subrange(1, 9) == spec_u64_to_le_bytes(seed),
    ensures
        slot.header_seed() == seed,
        slot.header_bump() == bump,
{
    vstd::bytes::lemma_auto_spec_u64_to_from_le_bytes();
}

/// Clean-slate idempotence: after a clean-slate write of payload `a` and then
/// one of a payload `b` no longer than `a`, every byte of the writable region
/// beyond `b`'s length is zero — no byte of `a` remains visible.
pub proof fn lemma_clean_slate(
    d0: Seq<u8>,
    d1: Seq<u8>,
    d2: Seq<u8>,
    start: int,
    a: Seq<u8>,
    b: Seq<u8>,
)
    requires
        0 <= start <= d0.len(),
        region_written(d0, d1, start, a),
        region_written(d1, d2, start, b),
        b.len() <= a.len(),
    ensures
        forall|i: int| start + b.len() <= i < d2.len() ==> d2[i] == 0u8,
{
}

} // verus!
