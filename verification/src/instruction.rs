use vstd::bytes::{spec_u32_from_le_bytes, spec_u64_from_le_bytes, u32_from_le_bytes, u64_from_le_bytes};
use vstd::prelude::*;
use vstd::slice::{slice_subrange, slice_to_vec};

use crate::error::EchoError;

verus! {

/// A request to the echo core, as the dispatcher classifies it.
#[derive(Debug, PartialEq, Eq)]
pub enum EchoInstruction {
    /// Overwrite an unauthenticated buffer with the payload.
    Echo { data: Vec<u8> },
    /// Provision the authorized slot derived from the signer and `buffer_seed`,
    /// with `buffer_size` bytes of storage.
    InitializeAuthorizedEcho { buffer_seed: u64, buffer_size: u64 },
    /// Overwrite the payload region of an authorized slot.
    AuthorizedEcho { data: Vec<u8> },
    /// Intentionally unsupported by this version of the core.
    InitializeVendingMachineEcho { price: u64, buffer_size: u64 },
    /// Intentionally unsupported by this version of the core.
    VendingMachineEcho { data: Vec<u8> },
}

/// The mathematical shape of a request.
pub enum RequestView {
    Echo { data: Seq<u8> },
    InitializeAuthorizedEcho { buffer_seed: u64, buffer_size: u64 },
    AuthorizedEcho { data: Seq<u8> },
    InitializeVendingMachineEcho { price: u64, buffer_size: u64 },
    VendingMachineEcho { data: Seq<u8> },
}

impl View for EchoInstruction {
    type V = RequestView;

    open spec fn view(&self) -> RequestView {
        match self {
            EchoInstruction::Echo { data } => RequestView::Echo { data: data@ },
            EchoInstruction::InitializeAuthorizedEcho { buffer_seed, buffer_size } => (
            RequestView::InitializeAuthorizedEcho {
                buffer_seed: *buffer_seed,
                buffer_size: *buffer_size,
            }),
            EchoInstruction::AuthorizedEcho { data } => RequestView::AuthorizedEcho { data: data@ },
            EchoInstruction::InitializeVendingMachineEcho { price, buffer_size } => (
            RequestView::InitializeVendingMachineEcho {
                price: *price,
                buffer_size: *buffer_size,
            }),
            EchoInstruction::VendingMachineEcho { data } => RequestView::VendingMachineEcho {
                data: data@,
            },
        }
    }
}

/// A length-prefixed byte field that fills the rest of the request: bytes 1..5
/// hold the little-endian byte count of the field at bytes 5.. , and the
/// request ends with the field.
pub open spec fn spec_bytes_field(s: Seq<u8>) -> Option<Seq<u8>> {
    if s.len() >= 5 && s.len() - 5 == spec_u32_from_le_bytes(s.subrange(1, 5)) {
        Some(s.skip(5))
    } else {
        None
    }
}

/// Two little-endian 64-bit fields at bytes 1..9 and 9..17, filling the request.
pub open spec fn spec_two_u64_fields(s: Seq<u8>) -> Option<(u64, u64)> {
    if s.len() == 17 {
        Some(
            (spec_u64_from_le_bytes(s.subrange(1, 9)), spec_u64_from_le_bytes(s.subrange(9, 17))),
        )
    } else {
        None
    }
}

/// The wire decoding of a request: a tag byte, then the variant's fields in a
/// fixed little-endian layout, consuming the request exactly.
pub open spec fn spec_decode(s: Seq<u8>) -> Option<RequestView> {
    if s.len() < 1 {
        None
    } else if s[0] == 0u8 {
        match spec_bytes_field(s) {
            Some(d) => Some(RequestView::Echo { data: d }),
            None => None,
        }
    } else if s[0] == 1u8 {
        match spec_two_u64_fields(s) {
            Some(p) => Some(
                RequestView::InitializeAuthorizedEcho { buffer_seed: p.0, buffer_size: p.1 },
            ),
            None => None,
        }
    } else if s[0] == 2u8 {
        match spec_bytes_field(s) {
            Some(d) => Some(RequestView::AuthorizedEcho { data: d }),
            None => None,
        }
    } else if s[0] == 3u8 {
        match spec_two_u64_fields(s) {
            Some(p) => Some(
                RequestView::InitializeVendingMachineEcho { price: p.0, buffer_size: p.1 },
            ),
            None => None,
        }
    } else if s[0] == 4u8 {
        match spec_bytes_field(s) {
            Some(d) => Some(RequestView::VendingMachineEcho { data: d }),
            None => None,
        }
    } else {
        None
    }
}

/// Dispatcher front end: decodes the wire form of a request, or rejects the
/// request bytes with `InvalidRequestEncoding` exactly when they do not decode.
pub fn decode_request(bytes: &Vec<u8>) -> (r: Result<EchoInstruction, EchoError>)
    ensures
        match r {
            Ok(inst) => spec_decode(bytes@) == Some(inst@),
            Err(e) => e == EchoError::InvalidRequestEncoding && spec_decode(bytes@) is None,
        },
{
    if bytes.len() == 0 {
        return Err(EchoError::InvalidRequestEncoding);
    }
    let tag = bytes[0];
    if tag == 0u8 || tag == 2u8 || tag == 4u8 {
        if bytes.len() < 5 {
            return Err(EchoError::InvalidRequestEncoding);
        }
        let field_len = u32_from_le_bytes(slice_subrange(bytes.as_slice(), 1, 5));
        if bytes.len() - 5 != field_len as usize {
            return Err(EchoError::InvalidRequestEncoding);
        }
        let data = slice_to_vec(slice_subrange(bytes.as_slice(), 5, bytes.len()));
        proof {
            assert(data@ =~= bytes@.skip(5));
        }
        if tag == 0u8 {
            Ok(EchoInstruction::Echo { data })
        } else if tag == 2u8 {
            Ok(EchoInstruction::AuthorizedEcho { data })
        } else {
            Ok(EchoInstruction::VendingMachineEcho { data })
        }
    } else if tag == 1u8 || tag == 3u8 {
        if bytes.len() != 17 {
            return Err(EchoError::InvalidRequestEncoding);
        }
        let first = u64_from_le_bytes(slice_subrange(bytes.as_slice(), 1, 9));
        let second = u64_from_le_bytes(slice_subrange(bytes.as_slice(), 9, 17));
        if tag == 1u8 {
            Ok(EchoInstruction::InitializeAuthorizedEcho { buffer_seed: first, buffer_size: second })
        } else {
            Ok(EchoInstruction::InitializeVendingMachineEcho { price: first, buffer_size: second })
        }
    } else {
        Err(EchoError::InvalidRequestEncoding)
    }
}

} // verus!
