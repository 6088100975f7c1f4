use crate::error::{CanError, CanErrorView};
use std::collections::HashMap;
use vstd::prelude::*;

verus! {

broadcast use vstd::std_specs::hash::group_hash_axioms;

/// The number of leading bytes that hold a frame's identifier.
pub const ID_BYTES: usize = 2;

/// A decoded CAN message: its identifier and the payload that followed it.
#[derive(Debug)]
pub struct CanMessage {
    pub id: u32,
    pub data: Vec<u8>,
}

/// Decodes raw CAN frames against a registry of known identifiers.
pub struct CanParser {
    /// A mapping of known CAN IDs to a human-readable name or definition.
    pub message_definitions: HashMap<u32, String>,
}

/// The identifier of a frame of at least two bytes: the first two bytes read
/// as an unsigned big-endian number.
pub open spec fn frame_id(raw: Seq<u8>) -> u32
    recommends
        raw.len() >= 2,
{
    (raw[0] as int * 256 + raw[1] as int) as u32
}

/// The bytes of a frame after its identifier, in their original order.
pub open spec fn frame_payload(raw: Seq<u8>) -> Seq<u8>
    recommends
        raw.len() >= 2,
{
    raw.subrange(2, raw.len() as int)
}

/// The description carried by the error for a frame of `len` bytes that is too
/// short to hold an identifier.
pub open spec fn too_short_detail(len: nat) -> Seq<char> {
    if len == 0 {
        "Data length too short to extract an ID: need at least 2 bytes, got 0"@
    } else {
        "Data length too short to extract an ID: need at least 2 bytes, got 1"@
    }
}

/// What decoding `raw` against a registry `known` gives: the identifier and
/// payload of the message, or the error.
///
/// The length check comes first; the registry is consulted only for a frame
/// whose identifier could be extracted.
pub open spec fn decode(raw: Seq<u8>, known: Map<u32, String>) -> Result<(u32, Seq<u8>), CanErrorView> {
    if raw.len() < 2 {
        Err(CanErrorView::InvalidFrame(too_short_detail(raw.len())))
    } else if !known.contains_key(frame_id(raw)) {
        Err(CanErrorView::UnknownId(frame_id(raw)))
    } else {
        Ok((frame_id(raw), frame_payload(raw)))
    }
}

/// The model of a decoding result: the identifier and payload of a message, or
/// the view of the error.
pub open spec fn result_view(r: Result<CanMessage, CanError>) -> Result<(u32, Seq<u8>), CanErrorView> {
    match r {
        Ok(m) => Ok((m.id, m.data@)),
        Err(e) => Err(e@),
    }
}

fn too_short_error(len: usize) -> (e: CanError)
    requires
        len < 2,
    ensures
        e@ == CanErrorView::InvalidFrame(too_short_detail(len as nat)),
{
    if len == 0 {
        CanError::InvalidFrame(
            "Data length too short to extract an ID: need at least 2 bytes, got 0".to_owned(),
        )
    } else {
        CanError::InvalidFrame(
            "Data length too short to extract an ID: need at least 2 bytes, got 1".to_owned(),
        )
    }
}

impl CanParser {
    /// Creates a new `CanParser` with an empty definition map.
    pub fn new() -> (p: Self)
        ensures
            p.message_definitions@ == Map::<u32, String>::empty(),
    {
        CanParser { message_definitions: HashMap::new() }
    }

    /// Decodes a raw CAN frame.
    ///
    /// A frame shorter than two bytes gives `CanError::InvalidFrame`. Otherwise
    /// the identifier is the first two bytes, high byte first; if it is not in
    /// `message_definitions` the result is `CanError::UnknownId` with that
    /// identifier, and else a message with the identifier and the remaining
    /// bytes as payload.
    pub fn parse_message(&self, raw_data: &[u8]) -> (r: Result<CanMessage, CanError>)
        ensures
            result_view(r) == decode(raw_data@, self.message_definitions@),
    {
        let len = raw_data.len();
        if len < ID_BYTES {
            return Err(too_short_error(len));
        }
        let hi = raw_data[0];
        let lo = raw_data[1];
        let id: u32 = ((hi as u32) << 8) | (lo as u32);
        assert(((hi as u32) << 8) | (lo as u32) == (hi as int * 256 + lo as int) as u32)
            by (bit_vector);

        let mut data: Vec<u8> = Vec::new();
        let mut i: usize = ID_BYTES;
        while i < len
            invariant
                ID_BYTES <= i <= len,
                len == raw_data@.len(),
                data@ == raw_data@.subrange(2, i as int),
            decreases len - i,
        {
            data.push(raw_data[i]);
            i = i + 1;
            assert(data@ =~= raw_data@.subrange(2, i as int));
        }

        if !self.message_definitions.contains_key(&id) {
            return Err(CanError::UnknownId(id));
        }
        Ok(CanMessage { id, data })
    }
}

/// A frame shorter than two bytes is always rejected as too short, and the
/// result depends on its length alone: neither its bytes nor the registry are
/// looked at.
pub proof fn lemma_short_frame_rejected(
    raw: Seq<u8>,
    known: Map<u32, String>,
    other_raw: Seq<u8>,
    other_known: Map<u32, String>,
)
    requires
        raw.len() < 2,
        other_raw.len() == raw.len(),
    ensures
        decode(raw, known) == Err::<(u32, Seq<u8>), CanErrorView>(
            CanErrorView::InvalidFrame(too_short_detail(raw.len())),
        ),
        decode(raw, known) == decode(other_raw, other_known),
{
}

/// The first byte of a frame is the high-order byte of its identifier: a frame
/// whose identifier is registered decodes to a message with identifier
/// `raw[0] * 256 + raw[1]` and the rest of the frame as payload.
pub proof fn lemma_first_byte_is_high(raw: Seq<u8>, known: Map<u32, String>)
    requires
        raw.len() >= 2,
        known.contains_key(frame_id(raw)),
    ensures
        frame_id(raw) as int == raw[0] as int * 256 + raw[1] as int,
        decode(raw, known) matches Ok((id, payload)) && id as int == raw[0] as int * 256
            + raw[1] as int && payload == raw.subrange(2, raw.len() as int),
{
}

/// A frame of at least two bytes is never rejected as too short: if its
/// identifier is not registered, the error is `UnknownId` with that identifier.
pub proof fn lemma_unknown_id_after_extraction(raw: Seq<u8>, known: Map<u32, String>)
    requires
        raw.len() >= 2,
    ensures
        !(decode(raw, known) matches Err(CanErrorView::InvalidFrame(_))),
        !known.contains_key(frame_id(raw)) ==> decode(raw, known) == Err::<
            (u32, Seq<u8>),
            CanErrorView,
        >(CanErrorView::UnknownId(frame_id(raw))),
{
}

/// Decoding is deterministic: two results that each meet the contract of
/// `CanParser::parse_message` for the same frame and registry are equal.
pub proof fn lemma_decode_deterministic(
    raw: Seq<u8>,
    known: Map<u32, String>,
    first: Result<CanMessage, CanError>,
    second: Result<CanMessage, CanError>,
)
    requires
        result_view(first) == decode(raw, known),
        result_view(second) == decode(raw, known),
    ensures
        result_view(first) == result_view(second),
{
}

} // verus!
