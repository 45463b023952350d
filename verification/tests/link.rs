use fec_link::loss::{LossRate, FRACTION_ONE};
use fec_link::packet::Packet;
use fec_link::sender::{lossy_send_data, send_on_draw};
use rand::rngs::StdRng;
use rand::{Rng, SeedableRng};

#[test]
fn lossless_link_carries_hello() {
    let packet = Packet::new(1, b"hello").unwrap();
    let zero = LossRate::new(0).unwrap();
    let mut rng = StdRng::seed_from_u64(0xFEC);

    let frame = lossy_send_data(packet, zero, &mut rng).unwrap();
    assert_eq!(frame.len(), 100);

    let received = Packet::from_bytes(&frame).unwrap();
    assert_eq!(received.get_id(), 1);
    let data = received.get_data();
    assert_eq!(&data[0..5], b"hello");
    assert!(data[5..].iter().all(|byte| *byte == 0));
    assert_eq!(received, packet);
}

#[test]
fn total_loss_sends_nothing() {
    let one = LossRate::new(FRACTION_ONE).unwrap();
    let mut rng = StdRng::seed_from_u64(8);
    for id in 0..=255u8 {
        let packet = Packet::new(id, &[id; 10]).unwrap();
        assert_eq!(lossy_send_data(packet, one, &mut rng), None);
    }
}

#[test]
fn send_on_draw_transmits_the_wire_form() {
    let packet = Packet::new(7, b"payload").unwrap();
    let rate = LossRate::new(1000).unwrap();
    assert_eq!(send_on_draw(packet, rate, 1001 << 8), Some(packet.to_bytes()));
    assert_eq!(send_on_draw(packet, rate, u32::MAX), Some(packet.to_bytes()));
}

#[test]
fn send_on_draw_suppresses_a_dropped_attempt() {
    let packet = Packet::new(7, b"payload").unwrap();
    let rate = LossRate::new(1000).unwrap();
    assert_eq!(send_on_draw(packet, rate, 0), None);
    assert_eq!(send_on_draw(packet, rate, 1000 << 8), None);
    assert_eq!(send_on_draw(packet, rate, (1000 << 8) | 0xFF), None);
}

#[test]
fn lossy_send_follows_the_draws_of_its_generator() {
    let packet = Packet::new(9, b"abc").unwrap();
    let half = LossRate::new(FRACTION_ONE / 2).unwrap();
    let mut rng = StdRng::seed_from_u64(21);
    let mut shadow = rng.clone();
    let mut sent = 0;
    let mut dropped = 0;
    for _ in 0..2_000 {
        let raw: u32 = shadow.gen();
        let out = lossy_send_data(packet, half, &mut rng);
        assert_eq!(out, send_on_draw(packet, half, raw));
        match out {
            Some(frame) => {
                assert_eq!(frame, packet.to_bytes());
                sent += 1;
            }
            None => dropped += 1,
        }
    }
    assert!(sent > 800, "sent {}", sent);
    assert!(dropped > 800, "dropped {}", dropped);
}

#[test]
fn every_transmitted_frame_is_read_back_as_the_packet() {
    let rate = LossRate::new(FRACTION_ONE / 4).unwrap();
    let mut rng = StdRng::seed_from_u64(34);
    for id in 0..=255u8 {
        let packet = Packet::new(id, &[id ^ 0x5A; 33]).unwrap();
        if let Some(frame) = lossy_send_data(packet, rate, &mut rng) {
            assert_eq!(Packet::from_bytes(&frame), Ok(packet));
        }
    }
}
