use std::sync::atomic::Ordering;
use miranda::frame::{decode, packet_scratch, PACKET_SIZE};
use miranda::channel::SendOutcome;
use miranda::hub::{DataChannelHub, SUBSCRIBER_CHANNEL_DEPTH};

fn blend(ts: u64, jaw: f32) -> Vec<u8> {
    let mut v = ts.to_le_bytes().to_vec();
    for i in 0..52 {
        let w: f32 = if i == 17 { jaw } else { 0.0 };
        v.extend_from_slice(&w.to_le_bytes());
    }
    v
}

fn kin(ts: u64) -> Vec<u8> {
    let mut v = ts.to_le_bytes().to_vec();
    v.extend_from_slice(&[0u8; 80]);
    v
}

/// Byte image of a breathing-only pose: the head pitched by
/// `head_pitch_deg` about X, the other three joints at rest.
fn kin_from_breath(ts: u64, head_pitch_deg: f32, clavicle_rise: f32) -> Vec<u8> {
    let mut v = ts.to_le_bytes().to_vec();
    let (s, c) = (head_pitch_deg.to_radians() * 0.5).sin_cos();
    for q in [[s, 0.0, 0.0, c], [0.0, 0.0, 0.0, 1.0], [0.0, 0.0, 0.0, 1.0], [0.0, 0.0, 0.0, 1.0]] {
        for x in q {
            v.extend_from_slice(&x.to_le_bytes());
        }
    }
    v.extend_from_slice(&head_pitch_deg.to_le_bytes());
    v.extend_from_slice(&clavicle_rise.to_le_bytes());
    v.extend_from_slice(&[0u8; 8]);
    v
}

#[test]
fn subscriber_receives_broadcast() {
    let mut hub = DataChannelHub::new();
    let (mut rx, _dropped) = hub.subscribe();
    let mut scratch = packet_scratch();
    hub.broadcast(&blend(1, 0.0), &kin(1), &mut scratch);
    let pkt = rx.try_recv().expect("expected a packet");
    assert_eq!(pkt.len(), PACKET_SIZE);
    assert_eq!(&pkt[..4], b"MRD1");
}

#[test]
fn multiple_subscribers_all_receive() {
    let mut hub = DataChannelHub::new();
    let (mut rx1, _) = hub.subscribe();
    let (mut rx2, _) = hub.subscribe();
    let mut scratch = packet_scratch();
    hub.broadcast(&blend(2, 0.0), &kin(2), &mut scratch);
    assert!(rx1.try_recv().is_ok());
    assert!(rx2.try_recv().is_ok());
}

#[test]
fn broadcast_with_no_subscribers_is_a_noop() {
    let mut hub = DataChannelHub::new();
    let mut scratch = packet_scratch();
    hub.broadcast(&blend(0, 0.0), &kin(0), &mut scratch);
    assert_eq!(hub.frames_broadcast(), 0);
}

#[test]
fn full_channel_drops_frame_and_increments_counter() {
    let mut hub = DataChannelHub::new();
    let (mut rx, dropped) = hub.subscribe();
    let mut scratch = packet_scratch();
    for i in 0..(SUBSCRIBER_CHANNEL_DEPTH + 5) as u64 {
        hub.broadcast(&blend(i, 0.0), &kin(i), &mut scratch);
    }
    let drop_count = dropped.load(Ordering::Relaxed);
    assert!(drop_count >= 5, "expected at least 5 drops, got {drop_count}");
    assert!(hub.total_dropped() >= 5);
    let mut received = 0usize;
    while rx.try_recv().is_ok() {
        received += 1;
    }
    assert_eq!(received, SUBSCRIBER_CHANNEL_DEPTH);
    // Only the frames that reached the subscriber count as broadcast.
    assert_eq!(hub.frames_broadcast(), SUBSCRIBER_CHANNEL_DEPTH as u64);
}

#[test]
fn closed_subscriber_is_pruned_on_next_broadcast() {
    let mut hub = DataChannelHub::new();
    let (rx, _) = hub.subscribe();
    let mut scratch = packet_scratch();
    assert_eq!(hub.subscriber_count(), 1);
    drop(rx);
    hub.broadcast(&blend(0, 0.0), &kin(0), &mut scratch);
    assert_eq!(hub.subscriber_count(), 0);
}

#[test]
fn packet_content_is_decoded_correctly_by_receiver() {
    let mut hub = DataChannelHub::new();
    let (mut rx, _) = hub.subscribe();
    let mut scratch = packet_scratch();
    let b = blend(12_345_678, 0.75);
    let k = kin_from_breath(12_345_678, 1.2, 0.5);
    hub.broadcast(&b, &k, &mut scratch);
    let pkt = rx.try_recv().unwrap();
    let (b2, k2) = decode(&pkt).expect("decode failed");
    assert_eq!(u64::from_le_bytes(b2[..8].try_into().unwrap()), 12_345_678);
    let jaw = f32::from_le_bytes(b2[8 + 17 * 4..8 + 18 * 4].try_into().unwrap());
    assert!((jaw - 0.75).abs() < 1e-6);
    let pitch = f32::from_le_bytes(k2[72..76].try_into().unwrap());
    let rise = f32::from_le_bytes(k2[76..80].try_into().unwrap());
    assert!((pitch - 1.2).abs() < 1e-6);
    assert!((rise - 0.5).abs() < 1e-6);
    assert_eq!(k2, k);
}

#[test]
fn hub_hub_is_send_and_sync() {
    fn assert_send_sync<T: Send + Sync>() {}
    assert_send_sync::<DataChannelHub>();
}

#[test]
fn a_frame_no_subscriber_received_is_not_counted_as_broadcast() {
    let mut hub = DataChannelHub::new();
    let (rx, _) = hub.subscribe();
    let mut scratch = packet_scratch();
    drop(rx);
    hub.broadcast(&blend(0, 0.0), &kin(0), &mut scratch);
    assert_eq!(hub.frames_broadcast(), 0);
    assert_eq!(hub.total_dropped(), 0);
}

#[test]
fn send_outcomes_are_counted_per_kind() {
    let mut hub = DataChannelHub::new();
    let (_rx1, d1) = hub.subscribe();
    let (_rx2, d2) = hub.subscribe();
    let (_rx3, d3) = hub.subscribe();
    let r = hub.record_send_outcomes(&vec![SendOutcome::Full, SendOutcome::Sent, SendOutcome::Full]);
    assert_eq!(r, (false, true));
    assert_eq!(hub.total_dropped(), 2);
    assert_eq!(d1.load(Ordering::Relaxed), 1);
    assert_eq!(d2.load(Ordering::Relaxed), 0);
    assert_eq!(d3.load(Ordering::Relaxed), 1);
    assert_eq!(hub.frames_broadcast(), 0);

    let r = hub.record_send_outcomes(&vec![SendOutcome::Closed, SendOutcome::Full, SendOutcome::Full]);
    assert_eq!(r, (true, false));
    assert_eq!(hub.total_dropped(), 4);
}
