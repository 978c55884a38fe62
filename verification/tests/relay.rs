use base64::Engine as _;
use std::time::Duration;
use sync_clip::messages::ServerMessage;
use sync_clip::relay::{
    is_valid_channel_id, BufferEvent, ChannelBuffer, PublishError, MAX_CIPHERTEXT_BYTES,
};
use sync_clip::relay_server::{
    event_to_server, handle_publish, handle_publish_at, invalid_json_error, subscribe_reply,
    subscribe_reply_at, Subscriptions,
};

fn sample_ct(n: u8) -> Vec<u8> {
    vec![n; 32]
}

#[test]
fn publish_replaces_previous_latest_only() {
    let mut buf = ChannelBuffer::new(Duration::from_secs(60));
    let ch = "aaaaaaaaaaaaaaaaaaaaaaaaaaaaaaaa".to_string();

    buf.publish(ch.clone(), 1, vec![1; 24], sample_ct(1)).unwrap();
    buf.publish(ch.clone(), 1, vec![2; 24], sample_ct(2)).unwrap();

    let got = buf.get(&ch).expect("buffered");
    assert_eq!(got.ciphertext, sample_ct(2));
    assert_eq!(got.nonce, vec![2; 24]);
    let all = buf.debug_stored_envelopes();
    assert_eq!(all.len(), 1);
}

#[test]
fn subscribe_snapshot_returns_current_or_empty() {
    let mut buf = ChannelBuffer::new(Duration::from_secs(60));
    let ch = "bbbbbbbbbbbbbbbbbbbbbbbbbbbbbbbb";

    match buf.snapshot_event(ch) {
        BufferEvent::Empty { channel_id } => assert_eq!(channel_id, ch),
        other => panic!("expected empty, got {other:?}"),
    }

    buf.publish(ch.to_string(), 1, vec![9; 24], sample_ct(9)).unwrap();

    match buf.snapshot_event(ch) {
        BufferEvent::Envelope(env) => {
            assert_eq!(env.ciphertext, sample_ct(9));
            assert_eq!(env.channel_id, ch);
        }
        other => panic!("expected envelope, got {other:?}"),
    }
}

#[test]
fn ttl_expiry_clears_buffer() {
    let mut buf = ChannelBuffer::with_ttl_ms(50);
    let ch = "cccccccccccccccccccccccccccccccc".to_string();

    buf.publish_at(ch.clone(), 1, vec![3; 24], sample_ct(3), 0, 0).unwrap();
    assert!(buf.get_at(&ch, 0).is_some());

    assert!(buf.get_at(&ch, 51).is_none());
    match buf.snapshot_event_at(&ch, 51) {
        BufferEvent::Empty { .. } => {}
        other => panic!("expected empty after TTL, got {other:?}"),
    }
}

#[test]
fn rejects_oversized_ciphertext() {
    let mut buf = ChannelBuffer::new(Duration::from_secs(60));
    let ch = "dddddddddddddddddddddddddddddddd".to_string();
    let big = vec![0u8; MAX_CIPHERTEXT_BYTES + 1];
    let err = buf.publish(ch, 1, vec![0; 24], big).unwrap_err();
    assert_eq!(err, PublishError::TooLarge);
}

#[test]
fn rejects_bad_channel_ids() {
    let mut buf = ChannelBuffer::with_ttl_ms(1000);
    assert_eq!(
        buf.publish_at("ABCDEF0123456789abcdef0123456789".into(), 1, vec![], vec![1], 0, 0).unwrap_err(),
        PublishError::BadChannel
    );
    assert_eq!(
        buf.publish_at("abc".into(), 1, vec![], vec![1], 0, 0).unwrap_err(),
        PublishError::BadChannel
    );
    assert!(is_valid_channel_id("0123456789abcdef0123456789abcdef"));
    assert!(!is_valid_channel_id("0123456789abcdef0123456789abcdeg"));
    assert!(!is_valid_channel_id("0123456789abcdef0123456789abcdef0"));
    assert!(buf.debug_stored_envelopes_at(0).is_empty());
}

#[test]
fn expiry_is_exactly_ttl_after_publish() {
    let mut buf = ChannelBuffer::with_ttl_ms(50);
    let ch = "eeeeeeeeeeeeeeeeeeeeeeeeeeeeeeee".to_string();
    buf.publish_at(ch.clone(), 1, vec![3; 24], sample_ct(3), 100, 7).unwrap();
    let got = buf.get_at(&ch, 149).expect("live until ttl");
    assert_eq!(got.published_at_ms, 7);
    assert!(buf.get_at(&ch, 150).is_none());
    assert!(buf.debug_stored_ciphertexts_at(100).is_empty());
}

#[test]
fn channels_are_isolated_and_listing_is_one_per_channel() {
    let mut buf = ChannelBuffer::with_ttl_ms(1000);
    let a = "11111111111111111111111111111111".to_string();
    let b = "22222222222222222222222222222222".to_string();
    buf.publish_at(a.clone(), 1, vec![1], sample_ct(1), 0, 0).unwrap();
    buf.publish_at(b.clone(), 1, vec![2], sample_ct(2), 0, 0).unwrap();
    buf.publish_at(a.clone(), 1, vec![3], sample_ct(3), 0, 0).unwrap();
    assert_eq!(buf.get_at(&b, 10).expect("b").ciphertext, sample_ct(2));
    assert_eq!(buf.get_at(&a, 10).expect("a").ciphertext, sample_ct(3));
    let mut cts = buf.debug_stored_ciphertexts_at(10);
    cts.sort();
    assert_eq!(cts, vec![sample_ct(2), sample_ct(3)]);
    assert_eq!(buf.debug_stored_envelopes_at(10).len(), 2);
}

fn bad_request_message(m: ServerMessage) -> String {
    match m {
        ServerMessage::Error { code, message } => {
            assert_eq!(code, "bad_request");
            message
        }
        other => panic!("expected error, got {other:?}"),
    }
}

#[test]
fn relay_publish_errors() {
    let mut buf = ChannelBuffer::with_ttl_ms(1000);
    let ch = "ffffffffffffffffffffffffffffffff".to_string();
    let err = handle_publish_at(&mut buf, ch.clone(), "%%".into(), "AAAA".into(), 1, 0, 0).unwrap_err();
    assert_eq!(bad_request_message(err), "invalid ciphertext base64");
    let err = handle_publish_at(&mut buf, ch.clone(), "AAAA".into(), "%%".into(), 1, 0, 0).unwrap_err();
    assert_eq!(bad_request_message(err), "invalid nonce base64");
    let err = handle_publish_at(&mut buf, "nope".into(), "AAAA".into(), "AAAA".into(), 1, 0, 0).unwrap_err();
    assert_eq!(bad_request_message(err), "invalid channel_id");
    let big = base64::engine::general_purpose::STANDARD.encode(vec![0u8; MAX_CIPHERTEXT_BYTES + 1]);
    let err = handle_publish_at(&mut buf, ch.clone(), big, "AAAA".into(), 1, 0, 0).unwrap_err();
    assert_eq!(bad_request_message(err), "ciphertext too large");
    assert_eq!(bad_request_message(invalid_json_error()), "invalid json");
    assert!(buf.debug_stored_envelopes_at(0).is_empty());
}

#[test]
fn ws_subscribe_empty_then_publish_fans_out_latest_only() {
    let mut buf = ChannelBuffer::new(Duration::from_secs(60));
    let ch = "eeeeeeeeeeeeeeeeeeeeeeeeeeeeeeee";
    match subscribe_reply(&mut buf, ch) {
        ServerMessage::Empty { channel_id } => assert_eq!(channel_id, ch),
        other => panic!("expected empty, got {other:?}"),
    }
    let std = base64::engine::general_purpose::STANDARD;
    let nonce = std.encode([1u8; 24]);
    let stored = handle_publish(&mut buf, ch.into(), std.encode(b"cipher-A"), nonce.clone(), 1)
        .expect("publish A");
    match event_to_server(BufferEvent::Envelope(stored)).expect("event") {
        ServerMessage::Envelope { channel_id, ciphertext, nonce: n, protocol_version, .. } => {
            assert_eq!(channel_id, ch);
            assert_eq!(ciphertext, std.encode(b"cipher-A"));
            assert_eq!(n, nonce);
            assert_eq!(protocol_version, 1);
        }
        other => panic!("expected envelope, got {other:?}"),
    }
    handle_publish(&mut buf, ch.into(), std.encode(b"cipher-B"), nonce.clone(), 1).expect("publish B");
    match subscribe_reply(&mut buf, ch) {
        ServerMessage::Envelope { ciphertext, .. } => {
            assert_eq!(ciphertext, std.encode(b"cipher-B"));
        }
        other => panic!("expected envelope, got {other:?}"),
    }
    assert_eq!(
        bad_request_message(subscribe_reply_at(&mut buf, "UPPERCASEUPPERCASEUPPERCASE00000", 0)),
        "invalid channel_id"
    );
}

#[test]
fn connection_subscribes_each_channel_once() {
    let mut subs = Subscriptions::new();
    assert!(subs.subscribe("aa11"));
    assert!(!subs.subscribe("aa11"));
    assert!(subs.subscribe("bb22"));
    subs.unsubscribe("aa11");
    assert!(subs.subscribe("aa11"));
    subs.unsubscribe("cc33");
    assert!(!subs.subscribe("bb22"));
    assert!(!subs.subscribe("aa11"));
}

#[test]
fn new_buffer_keeps_envelopes_for_the_given_duration() {
    let mut buf = ChannelBuffer::new(Duration::from_millis(1_500));
    let ch = "ffffffffffffffffffffffffffffffff".to_string();
    buf.publish_at(ch.clone(), 1, vec![3; 24], sample_ct(3), 1_000, 0).unwrap();
    assert!(buf.get_at(&ch, 2_499).is_some());
    assert!(buf.get_at(&ch, 2_500).is_none());
}

#[test]
fn relay_refuses_non_canonical_base64() {
    let mut buf = ChannelBuffer::with_ttl_ms(1000);
    let ch = "abababababababababababababababab".to_string();
    // Trailing bits set, missing padding, padding inside the text.
    for bad in ["AB==", "AA", "AA==AAAA"] {
        let err = handle_publish_at(&mut buf, ch.clone(), bad.into(), "AAAA".into(), 1, 0, 0).unwrap_err();
        assert_eq!(bad_request_message(err), "invalid ciphertext base64");
    }
    let ok = handle_publish_at(&mut buf, ch.clone(), "AA==".into(), "AAAA".into(), 1, 0, 0).unwrap();
    assert_eq!(ok.ciphertext, vec![0u8]);
}
