//! The packet and its wire format.
//!
//! On the wire a packet is a frame of exactly [`FRAME_LEN`] bytes: byte 0 is
//! the identifier, bytes 1 to 99 are the payload, in order.

use vstd::prelude::*;
use vstd::utf8::{decode_utf8, valid_utf8};
use core::str::Utf8Error;
use crate::error::LinkError;

verus! {

/// Number of payload bytes in every packet.
pub const PAYLOAD_LEN: usize = 99;

/// Number of bytes of a packet on the wire: the identifier, then the payload.
pub const FRAME_LEN: usize = 100;

/// The mathematical content of a packet.
pub struct PacketView {
    /// The sequence number.
    pub id: u8,
    /// The payload bytes, padding included.
    pub payload: Seq<u8>,
}

impl PacketView {
    /// A packet's payload always fills the packet.
    pub open spec fn wf(self) -> bool {
        self.payload.len() == PAYLOAD_LEN
    }

    /// The bytes of the packet on the wire.
    pub open spec fn frame(self) -> Seq<u8> {
        seq![self.id] + self.payload
    }
}

/// `payload` followed by as many zero bytes as it takes to fill a packet.
pub open spec fn zero_padded(payload: Seq<u8>) -> Seq<u8> {
    Seq::new(PAYLOAD_LEN as nat, |i: int| if i < payload.len() { payload[i] } else { 0u8 })
}

/// What encoding `payload` under the number `id` gives.
pub open spec fn encoded(id: u8, payload: Seq<u8>) -> Result<PacketView, LinkError> {
    if payload.len() <= PAYLOAD_LEN {
        Ok(PacketView { id, payload: zero_padded(payload) })
    } else {
        Err(LinkError::PayloadTooLarge)
    }
}

/// What reading `bytes` as a frame gives.
pub open spec fn parsed(bytes: Seq<u8>) -> Result<PacketView, LinkError> {
    if bytes.len() == FRAME_LEN {
        Ok(PacketView { id: bytes[0], payload: bytes.subrange(1, FRAME_LEN as int) })
    } else {
        Err(LinkError::FrameLengthMismatch)
    }
}

/// What reading `payload` as UTF-8 text gives.
pub open spec fn text_of(payload: Seq<u8>) -> Result<Seq<char>, LinkError> {
    if valid_utf8(payload) {
        Ok(decode_utf8(payload))
    } else {
        Err(LinkError::DecodeFailure)
    }
}

/// The reason why bytes are no UTF-8 text, as the standard library reports
/// it: `core::str::Utf8Error`, carried through as an opaque value.
#[verifier::external_type_specification]
#[verifier::external_body]
pub struct ExUtf8Error(core::str::Utf8Error);

/// Reads bytes as UTF-8 text without copying them.
///
/// Calls `core::str::from_utf8`, which succeeds exactly on valid UTF-8 and
/// then gives a string slice over the very same bytes: its characters are
/// the ones that the bytes encode.
#[verifier::external_body]
fn utf8_str(bytes: &[u8]) -> (r: Result<&str, Utf8Error>)
    ensures
        r is Ok <==> valid_utf8(bytes@),
        r is Ok ==> r->Ok_0@ == decode_utf8(bytes@),
{
    core::str::from_utf8(bytes)
}

/// One datagram's worth of data: a sequence number and a fixed-size payload.
#[derive(Clone, Copy, Debug, PartialEq, Eq)]
pub struct Packet {
    id: u8,
    data: [u8; PAYLOAD_LEN],
}

impl View for Packet {
    type V = PacketView;

    closed spec fn view(&self) -> PacketView {
        PacketView { id: self.id, payload: self.data@ }
    }
}

/// The outcome of a fallible packet operation, with the packet taken by its view.
pub open spec fn result_view(r: Result<Packet, LinkError>) -> Result<PacketView, LinkError> {
    match r {
        Ok(p) => Ok(p@),
        Err(e) => Err(e),
    }
}

impl Packet {
    /// Builds the packet that carries `data` under the number `id`.
    ///
    /// A payload shorter than [`PAYLOAD_LEN`] is padded on the right with zero
    /// bytes; a longer one is refused with [`LinkError::PayloadTooLarge`],
    /// never cut short.
    pub fn new(id: u8, data: &[u8]) -> (r: Result<Packet, LinkError>)
        ensures
            result_view(r) == encoded(id, data@),
    {
        if data.len() > PAYLOAD_LEN {
            return Err(LinkError::PayloadTooLarge);
        }
        let mut p = Packet { id, data: [0u8; PAYLOAD_LEN] };
        let mut index: usize = 0;
        while index < data.len()
            invariant
                index <= data@.len() <= PAYLOAD_LEN,
                p.id == id,
                forall|j: int| 0 <= j < index ==> p.data@[j] == data@[j],
                forall|j: int| index <= j < PAYLOAD_LEN ==> p.data@[j] == 0u8,
            decreases data@.len() - index,
        {
            p.data[index] = data[index];
            index += 1;
        }
        assert(p.data@ =~= zero_padded(data@));
        Ok(p)
    }

    /// Serialises the packet: the identifier, then the payload.
    pub fn to_bytes(&self) -> (raw_data: [u8; FRAME_LEN])
        ensures
            raw_data@ == self@.frame(),
    {
        let mut raw_data = [0u8; FRAME_LEN];
        raw_data[0] = self.id;
        let mut index: usize = 0;
        while index < PAYLOAD_LEN
            invariant
                index <= PAYLOAD_LEN,
                raw_data@[0] == self.id,
                forall|j: int| 0 <= j < index ==> raw_data@[j + 1] == self.data@[j],
            decreases PAYLOAD_LEN - index,
        {
            raw_data[index + 1] = self.data[index];
            index += 1;
        }
        assert(raw_data@ =~= self@.frame());
        raw_data
    }

    /// Reads a packet back from the bytes of one datagram.
    ///
    /// Anything but exactly [`FRAME_LEN`] bytes is refused with
    /// [`LinkError::FrameLengthMismatch`].
    pub fn from_bytes(bytes: &[u8]) -> (r: Result<Packet, LinkError>)
        ensures
            result_view(r) == parsed(bytes@),
    {
        if bytes.len() != FRAME_LEN {
            return Err(LinkError::FrameLengthMismatch);
        }
        let r = Packet::new(bytes[0], &bytes[1..FRAME_LEN]);
        assert(zero_padded(bytes@.subrange(1, FRAME_LEN as int)) =~= bytes@.subrange(
            1,
            FRAME_LEN as int,
        ));
        r
    }

    /// The packet's sequence number.
    pub fn get_id(&self) -> (id: u8)
        ensures
            id == self@.id,
    {
        self.id
    }

    /// The packet's payload, padding included.
    pub fn get_data(&self) -> (data: [u8; PAYLOAD_LEN])
        ensures
            data@ == self@.payload,
    {
        self.data
    }

    /// The payload, padding included, read as UTF-8 text.
    ///
    /// A payload that is no valid UTF-8 is refused with
    /// [`LinkError::DecodeFailure`].
    pub fn text(&self) -> (r: Result<&str, LinkError>)
        ensures
            match r {
                Ok(s) => text_of(self@.payload) == Ok::<Seq<char>, LinkError>(s@),
                Err(e) => text_of(self@.payload) == Err::<Seq<char>, LinkError>(e),
            },
    {
        match utf8_str(self.data.as_slice()) {
            Ok(s) => Ok(s),
            Err(_) => Err(LinkError::DecodeFailure),
        }
    }

    /// Every packet's payload has the full length.
    pub proof fn lemma_view_wf(self)
        ensures
            self@.wf(),
    {
    }

    /// Two packets with the same content are the same packet.
    pub proof fn lemma_view_injective(self, other: Packet)
        requires
            self@ == other@,
        ensures
            self == other,
    {
        assert(self.data =~= other.data);
    }
}

/// The wire format: a frame has exactly [`FRAME_LEN`] bytes, the first is the
/// identifier and the others are the payload, in order.
pub proof fn lemma_frame_layout(p: PacketView)
    requires
        p.wf(),
    ensures
        p.frame().len() == FRAME_LEN,
        p.frame()[0] == p.id,
        forall|i: int| 0 <= i < PAYLOAD_LEN ==> p.frame()[i + 1] == p.payload[i],
{
}

/// Parsing the frame of a packet gives the packet back.
pub proof fn lemma_parse_frame(p: PacketView)
    requires
        p.wf(),
    ensures
        parsed(p.frame()) == Ok::<PacketView, LinkError>(p),
{
    assert(p.frame().subrange(1, FRAME_LEN as int) =~= p.payload);
}

/// The frame of what a frame parses to is that frame.
pub proof fn lemma_frame_parse(bytes: Seq<u8>)
    requires
        bytes.len() == FRAME_LEN,
    ensures
        parsed(bytes) is Ok,
        parsed(bytes)->Ok_0.wf(),
        parsed(bytes)->Ok_0.frame() == bytes,
{
    assert(parsed(bytes)->Ok_0.frame() =~= bytes);
}

/// Round trip: a payload that fits, once encoded, written to the wire and
/// read back, is the encoded packet again.
pub proof fn lemma_round_trip(id: u8, payload: Seq<u8>)
    requires
        payload.len() <= PAYLOAD_LEN,
    ensures
        encoded(id, payload) is Ok,
        parsed(encoded(id, payload)->Ok_0.frame()) == encoded(id, payload),
{
    lemma_parse_frame(encoded(id, payload)->Ok_0);
}

} // verus!
