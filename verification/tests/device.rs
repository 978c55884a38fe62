use sync_clip::crypto::channel_id_hex;
use sync_clip::device::{DeviceError, DeviceState, PublishStep};
use sync_clip::ffi::SessionError;
use sync_clip::messages::{ClientMessage, ServerMessage};
use sync_clip::relay::{BufferEvent, ChannelBuffer};
use sync_clip::relay_server::{event_to_server, handle_publish_at};
use sync_clip::{AppliedClip, LinkKey, TextClip, MAX_IMAGE_BYTES};

fn link_key() -> LinkKey {
    LinkKey([0x7A; 32])
}

struct Group {
    relay: ChannelBuffer,
    now: u64,
}

impl Group {
    fn new() -> Self {
        Group {
            relay: ChannelBuffer::with_ttl_ms(60_000),
            now: 1,
        }
    }

    /// Publish on `from`; returns the message the relay fans out, if sent.
    fn publish(&mut self, from: &mut DeviceState, clip: TextClip) -> Result<Option<ServerMessage>, DeviceError> {
        let channel = channel_id_hex(&from.link_key);
        match from.handle_publish(&channel, clip)? {
            PublishStep::Suppressed(_) => Ok(None),
            PublishStep::Send { message, clip } => {
                let ClientMessage::Publish { channel_id, ciphertext, nonce, protocol_version } = message else {
                    panic!("expected publish");
                };
                self.now += 1;
                let stored = handle_publish_at(
                    &mut self.relay,
                    channel_id,
                    ciphertext,
                    nonce,
                    protocol_version,
                    self.now,
                    1_700_000_000_000,
                )
                .expect("relay accepts");
                from.record_published(clip);
                Ok(event_to_server(BufferEvent::Envelope(stored)))
            }
        }
    }
}

impl Group {
    fn publish_text(
        &mut self,
        from: &mut DeviceState,
        text: &str,
        created_at: i64,
        id: [u8; 16],
    ) -> Result<Option<ServerMessage>, DeviceError> {
        let clip = text_clip(from, text, created_at, id);
        self.publish(from, clip)
    }
}

fn text_clip(device: &DeviceState, text: &str, created_at: i64, id: [u8; 16]) -> TextClip {
    device.build_clip(text, created_at, id, None)
}

fn deliver(to: &mut DeviceState, msg: &Option<ServerMessage>) -> Option<AppliedClip> {
    to.handle_server_message(msg.as_ref().expect("message"))
}

#[test]
fn two_devices_exchange_plain_text_clip_ciphertext_only_on_relay() {
    let mut group = Group::new();
    let mut a = DeviceState::new(link_key(), [0xA1; 16]);
    let mut b = DeviceState::new(link_key(), [0xB2; 16]);
    let plaintext = "paste me on the other Device";
    let clip = text_clip(&a, plaintext, 1_700_000_000_000, [1; 16]);
    let msg = group.publish(&mut a, clip).expect("publish");
    let applied = deliver(&mut b, &msg).expect("B should apply");
    assert_eq!(applied.text, plaintext);

    let stored = group.relay.debug_stored_envelopes_at(group.now);
    assert_eq!(stored.len(), 1);
    let lossy = String::from_utf8_lossy(&stored[0].ciphertext);
    assert!(!lossy.contains(plaintext), "relay ciphertext must not contain plaintext");
    assert!(!lossy.contains("paste me"));
    assert!(!lossy.contains("schema_version"));
    assert!(!lossy.contains("sender_ephemeral_id"));
}

#[test]
fn paused_device_neither_publishes_nor_applies_until_armed() {
    let mut group = Group::new();
    let mut a = DeviceState::new(link_key(), [0xA1; 16]);
    let mut b = DeviceState::new(link_key(), [0xB2; 16]);
    b.set_armed(false);
    assert!(!b.armed);
    let from_paused = text_clip(&b, "from paused", 1, [2; 16]);
    assert!(matches!(group.publish(&mut b, from_paused), Err(DeviceError::Paused)));

    let msg = group
        .publish_text(&mut a, "while B paused", 1_700_000_000_100, [3; 16])
        .expect("A publish");
    assert!(deliver(&mut b, &msg).is_none(), "Paused B must not apply");

    b.set_armed(true);
    let msg = group
        .publish_text(&mut a, "after B armed", 1_700_000_000_200, [4; 16])
        .expect("A publish again");
    let applied = deliver(&mut b, &msg).expect("Armed B applies");
    assert_eq!(applied.text, "after B armed");
}

#[test]
fn echo_suppression_does_not_rebroadcast_applied_clip() {
    let mut group = Group::new();
    let mut a = DeviceState::new(link_key(), [0xA1; 16]);
    let mut b = DeviceState::new(link_key(), [0xB2; 16]);
    let clip = text_clip(&a, "echo candidate", 1_700_000_000_300, [5; 16]);
    let msg = group.publish(&mut a, clip).expect("publish");
    let applied = deliver(&mut b, &msg).expect("B applies");
    assert_eq!(applied.id, [5; 16]);

    let before = group.relay.debug_stored_envelopes_at(group.now);
    let nonce_before = before[0].nonce.clone();
    let echo = text_clip(&b, "echo candidate", applied.created_at, applied.id);
    let echoed = group.publish(&mut b, echo).expect("echo publish returns ok but suppressed");
    assert!(echoed.is_none());
    let after = group.relay.debug_stored_envelopes_at(group.now);
    assert_eq!(after[0].nonce, nonce_before, "relay must not get a new envelope");
    // Re-delivering the same envelope applies nothing.
    assert!(deliver(&mut b, &msg).is_none());
}

#[test]
fn lww_discards_older_created_at_when_newer_already_applied() {
    let mut group = Group::new();
    let mut a = DeviceState::new(link_key(), [0xA1; 16]);
    let mut b = DeviceState::new(link_key(), [0xB2; 16]);
    let msg = group
        .publish_text(&mut a, "newer", 1_700_000_000_500, [6; 16])
        .expect("newer");
    assert_eq!(deliver(&mut b, &msg).expect("apply newer").text, "newer");
    let msg = group
        .publish_text(&mut a, "older", 1_700_000_000_400, [7; 16])
        .expect("older");
    assert!(deliver(&mut b, &msg).is_none(), "older created_at must not apply after newer");
}

#[test]
fn lww_tie_break_prefers_greater_id_bytewise() {
    let mut group = Group::new();
    let mut a = DeviceState::new(link_key(), [0xA1; 16]);
    let mut b = DeviceState::new(link_key(), [0xB2; 16]);
    let ts = 1_700_000_000_600_i64;
    let low_id = [0x01; 16];
    let high_id = [0xFF; 16];
    let msg = group.publish_text(&mut a, "low", ts, low_id).expect("low");
    assert_eq!(deliver(&mut b, &msg).expect("apply low").id, low_id);
    let msg = group.publish_text(&mut a, "high", ts, high_id).expect("high");
    let second = deliver(&mut b, &msg).expect("apply high");
    assert_eq!(second.id, high_id);
    assert_eq!(second.text, "high");
    let msg = group
        .publish_text(&mut a, "low-again", ts, low_id)
        .expect("low again");
    assert!(deliver(&mut b, &msg).is_none());
}

#[test]
fn in_cap_image_roundtrips_between_devices() {
    let mut group = Group::new();
    let mut a = DeviceState::new(link_key(), [0xA1; 16]);
    let mut b = DeviceState::new(link_key(), [0xB2; 16]);
    let png = b"\x89PNG\r\nin-cap-image".to_vec();
    let clip = a.build_clip("caption", 1_700_000_001_000, [8; 16], Some((png.clone(), "image/png".into())));
    let msg = group.publish(&mut a, clip).expect("publish image");
    let applied = deliver(&mut b, &msg).expect("B should apply image Clip");
    assert_eq!(applied.text, "caption");
    let image = applied.image.expect("image present");
    assert_eq!(image.mime, "image/png");
    assert_eq!(image.bytes, png);
}

#[test]
fn over_cap_image_is_omitted_but_text_still_syncs() {
    let mut group = Group::new();
    let mut a = DeviceState::new(link_key(), [0xA1; 16]);
    let mut b = DeviceState::new(link_key(), [0xB2; 16]);
    let oversized = vec![0xAB; MAX_IMAGE_BYTES + 1];
    let clip = a.build_clip("text survives", 1_700_000_001_100, [9; 16], Some((oversized, "image/png".into())));
    assert!(clip.image.is_none());
    let msg = group.publish(&mut a, clip).expect("publish with over-cap image");
    let applied = deliver(&mut b, &msg).expect("B should apply text-only Clip");
    assert_eq!(applied.text, "text survives");
    assert!(applied.image.is_none(), "over-cap image must be omitted");
}

#[test]
fn rotated_link_key_isolates_old_sync_group() {
    let mut group = Group::new();
    let old_key = LinkKey([0x11; 32]);
    let new_key = LinkKey([0x22; 32]);
    let mut a = DeviceState::new(new_key, [0xA1; 16]);
    let mut b = DeviceState::new(new_key, [0xB2; 16]);
    let mut c = DeviceState::new(old_key, [0xC3; 16]);
    let msg = group
        .publish_text(&mut a, "only new Sync Group", 1_700_000_001_200, [10; 16])
        .expect("publish");
    assert_eq!(deliver(&mut b, &msg).expect("B on new key applies").text, "only new Sync Group");
    assert!(deliver(&mut c, &msg).is_none(), "C on old Link Key must not receive new-group Clips");
}

#[test]
fn own_fanout_is_not_applied() {
    let mut group = Group::new();
    let mut a = DeviceState::new(link_key(), [0xA1; 16]);
    let msg = group
        .publish_text(&mut a, "mine", 1_700_000_001_300, [11; 16])
        .expect("publish");
    assert!(deliver(&mut a, &msg).is_none());
}

#[test]
fn undecodable_envelopes_are_dropped() {
    let mut b = DeviceState::new(link_key(), [0xB2; 16]);
    assert!(b.handle_envelope("not base64!", "AAAA", 1).is_none());
    assert!(b.handle_envelope("AAAA", "AAAA", 1).is_none());
    let empty = ServerMessage::Empty { channel_id: "x".into() };
    assert!(b.handle_server_message(&empty).is_none());
    assert!(b.last_applied.is_none());
}

#[test]
fn device_and_session_error_messages() {
    assert_eq!(DeviceError::Paused.message(), "device is Paused");
    assert_eq!(DeviceError::Crypto("x".into()).message(), "crypto error: x");
    assert!(matches!(SessionError::from_device_error(DeviceError::Paused), SessionError::Paused));
    assert!(matches!(SessionError::from_device_error(DeviceError::Closed), SessionError::Closed));
    match SessionError::from_device_error(DeviceError::WebSocket("down".into())) {
        SessionError::Other(m) => assert_eq!(m, "websocket error: down"),
        other => panic!("unexpected {other:?}"),
    }
}

#[test]
fn fresh_clip_ids_are_random_uuid_v4() {
    let a = DeviceState::new(link_key(), [0xA1; 16]);
    let c = a.build_clip_with_fresh_id("x", 1, None);
    let d = a.build_clip_with_fresh_id("x", 1, None);
    assert_eq!(c.id[6] >> 4, 4);
    assert_eq!(c.id[8] >> 6, 2);
    assert_ne!(c.id, d.id);
    assert_eq!(c.text, "x");
    assert_eq!(c.sender_ephemeral_id, [0xA1; 16]);
    assert_eq!(c.schema_version, 1);
}
