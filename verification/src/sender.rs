//! The sender's side of the link: one packet, one draw, at most one frame.
//!
//! The functions here decide what goes on the wire. Binding the endpoint and
//! handing the frame to the transport are the caller's part.

use vstd::prelude::*;
use rand::rngs::StdRng;
use crate::error::LinkError;
use crate::loss::{drops_at, fraction_of, next_draw, LossRate, FRACTION_ONE};
use crate::packet::{lemma_parse_frame, parsed, Packet, PacketView, FRAME_LEN};

verus! {

/// What goes on the wire for a packet, a level of loss and a draw: nothing
/// when the draw leads to a drop, the packet's frame otherwise.
pub open spec fn transmission(packet: PacketView, level: int, raw: u32) -> Option<Seq<u8>> {
    if drops_at(level, raw) {
        None
    } else {
        Some(packet.frame())
    }
}

/// The bytes of the frame that a send attempt hands to the transport, if any.
pub open spec fn frame_view(out: Option<[u8; FRAME_LEN]>) -> Option<Seq<u8>> {
    match out {
        Some(frame) => Some(frame@),
        None => None,
    }
}

/// Decides one send attempt on a draw already made.
///
/// Gives the frame to transmit, or `None` when the attempt is dropped, which
/// is a regular outcome and no failure.
pub fn send_on_draw(packet: Packet, target_loss: LossRate, raw: u32) -> (out: Option<
    [u8; FRAME_LEN],
>)
    ensures
        frame_view(out) == transmission(packet@, target_loss@, raw),
{
    if target_loss.drops(raw) {
        None
    } else {
        Some(packet.to_bytes())
    }
}

/// Runs one send attempt over the simulated lossy link: makes one draw from
/// `rng` and gives the frame to transmit, or `None` when the attempt is
/// dropped.
///
/// At most one frame comes out of a call, and nothing is tried again.
pub fn lossy_send_data(packet: Packet, target_loss: LossRate, rng: &mut StdRng) -> (out: Option<
    [u8; FRAME_LEN],
>)
    ensures
        exists|raw: u32| frame_view(out) == transmission(packet@, target_loss@, raw),
        out matches Some(frame) ==> frame@ == packet@.frame(),
        target_loss@ == FRACTION_ONE ==> out is None,
{
    let raw = next_draw(rng);
    send_on_draw(packet, target_loss, raw)
}

/// Whatever frame the sender transmits, the receiver reads as the packet that
/// was sent.
pub proof fn lemma_transmitted_frame_parses(packet: PacketView, level: int, raw: u32)
    requires
        packet.wf(),
        transmission(packet, level, raw) is Some,
    ensures
        parsed(transmission(packet, level, raw)->Some_0) == Ok::<PacketView, LinkError>(packet),
{
    lemma_parse_frame(packet);
}

/// With the loss rate zero the packet's frame is transmitted, unless the
/// draw's fraction is zero itself.
pub proof fn lemma_lossless_link_delivers(packet: PacketView, raw: u32)
    requires
        fraction_of(raw) != 0,
    ensures
        transmission(packet, 0, raw) == Some(packet.frame()),
{
}

/// With the loss rate one nothing is ever transmitted.
pub proof fn lemma_total_loss_is_silent(packet: PacketView, raw: u32)
    ensures
        transmission(packet, FRACTION_ONE as int, raw) is None,
{
}

} // verus!
