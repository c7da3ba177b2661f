//! The framed codec over the control stream.
//!
//! Ingress and egress use the same symmetric frame: a 4-byte
//! little-endian unsigned payload length, followed by that many payload
//! bytes.  The payload itself is a self-describing binary document which
//! the surrounding binary encodes and decodes; this module owns the
//! framing.

use vstd::bytes::{
    lemma_auto_spec_u32_to_from_le_bytes, spec_u32_from_le_bytes, spec_u32_to_le_bytes,
    u32_from_le_bytes, u32_to_le_bytes,
};
use vstd::prelude::*;

verus! {

/// The frame around `payload`: its length as four little-endian bytes,
/// then the payload itself.
pub open spec fn spec_frame(payload: Seq<u8>) -> Seq<u8>
    recommends
        payload.len() <= u32::MAX,
{
    spec_u32_to_le_bytes(payload.len() as u32) + payload
}

/// Builds the frame around `payload`.  `None` exactly when the payload
/// does not fit the 4-byte length prefix; such an encoding failure is
/// fatal to the session.
pub fn encode_frame(payload: &[u8]) -> (r: Option<Vec<u8>>)
    ensures
        r is Some <==> payload@.len() <= u32::MAX,
        r matches Some(f) ==> f@ == spec_frame(payload@),
{
    if payload.len() > u32::MAX as usize {
        return None;
    }
    let len = payload.len() as u32;
    let mut f = u32_to_le_bytes(len);
    f.extend_from_slice(payload);
    proof {
        assert(f@ =~= spec_frame(payload@));
    }
    Some(f)
}

/// Reads the payload length out of the 4-byte frame header.
pub fn frame_len(header: &[u8]) -> (r: u32)
    requires
        header@.len() == 4,
    ensures
        r == spec_u32_from_le_bytes(header@),
{
    u32_from_le_bytes(header)
}

/// Framing round-trip: an encoded frame opens with exactly the payload
/// length and carries the payload verbatim after the 4-byte header.
pub proof fn lemma_frame_round_trip(payload: Seq<u8>)
    requires
        payload.len() <= u32::MAX,
    ensures
        spec_frame(payload).len() == payload.len() + 4,
        spec_u32_from_le_bytes(spec_frame(payload).subrange(0, 4)) == payload.len(),
        spec_frame(payload).subrange(4, spec_frame(payload).len() as int) == payload,
{
    lemma_auto_spec_u32_to_from_le_bytes();
    let f = spec_frame(payload);
    assert(f.subrange(0, 4) =~= spec_u32_to_le_bytes(payload.len() as u32));
    assert(f.subrange(4, f.len() as int) =~= payload);
}

} // verus!
