use sync_clip::cbor::{decode_clip_cbor, encode_clip_cbor};
use sync_clip::crypto::{channel_id_hex, derive_aead_key, derive_channel_id};
use sync_clip::envelope::EnvelopeError;
use sync_clip::text::decimal_string;
use sync_clip::{
    boot_should_force_paused, capture_missing_should_persist_paused, may_auto_start,
    may_enter_armed, ping, should_keep_lifetime, version, ClipImage, Envelope, LifetimeSnapshot,
    LinkKey, SealedEnvelope, TextClip,
};

fn base() -> LifetimeSnapshot {
    LifetimeSnapshot {
        durable_armed: true,
        elevated_capture_granted: true,
        has_link_key: true,
        quit_opted_out: false,
        requires_elevated_capture: false,
    }
}

#[test]
fn version_is_nonempty() {
    assert!(!version().is_empty());
}

#[test]
fn ping_returns_pong() {
    assert_eq!(ping(), "pong");
}

#[test]
fn clip_engine_ping() {
    assert_eq!(sync_clip::ping(), "pong");
}

#[test]
fn auto_start_requires_link_key_armed_and_not_quit() {
    assert!(may_auto_start(&base()));
    assert!(!may_auto_start(&LifetimeSnapshot {
        has_link_key: false,
        ..base()
    }));
    assert!(!may_auto_start(&LifetimeSnapshot {
        durable_armed: false,
        ..base()
    }));
    assert!(!may_auto_start(&LifetimeSnapshot {
        quit_opted_out: true,
        ..base()
    }));
}

#[test]
fn arm_blocked_without_elevated_capture_on_android() {
    let android = LifetimeSnapshot {
        elevated_capture_granted: false,
        requires_elevated_capture: true,
        ..base()
    };
    assert!(!may_enter_armed(&android));
    assert!(may_enter_armed(&LifetimeSnapshot {
        elevated_capture_granted: true,
        ..android
    }));
    assert!(may_enter_armed(&base()));
}

#[test]
fn boot_forces_paused_when_armed_but_capture_missing() {
    let snap = LifetimeSnapshot {
        elevated_capture_granted: false,
        requires_elevated_capture: true,
        ..base()
    };
    assert!(boot_should_force_paused(&snap));
    assert!(!boot_should_force_paused(&base()));
}

#[test]
fn capture_revoke_persists_paused() {
    assert!(capture_missing_should_persist_paused(true, false));
    assert!(!capture_missing_should_persist_paused(true, true));
    assert!(!capture_missing_should_persist_paused(false, false));
}

#[test]
fn clearing_link_key_ends_lifetime() {
    assert!(should_keep_lifetime(true));
    assert!(!should_keep_lifetime(false));
}

#[test]
fn forced_pause_never_allows_arming() {
    let snap = LifetimeSnapshot {
        elevated_capture_granted: false,
        requires_elevated_capture: true,
        ..base()
    };
    assert!(boot_should_force_paused(&snap));
    assert!(!may_enter_armed(&snap));
}

#[test]
fn known_link_key_produces_stable_channel_and_aead() {
    let key = LinkKey([0x42; 32]);
    let channel = derive_channel_id(&key);
    let aead = derive_aead_key(&key);
    assert_ne!(channel.as_slice(), &aead[..16]);
    assert_eq!(derive_channel_id(&key), channel);
    assert_eq!(derive_aead_key(&key), aead);
    assert_eq!(channel_id_hex(&key), hex::encode(channel));
}

fn sample_link_key() -> LinkKey {
    LinkKey([0x11; 32])
}

fn sample_clip() -> TextClip {
    TextClip {
        created_at: 1_710_000_000_000,
        id: [0xAB; 16],
        image: None,
        schema_version: 1,
        sender_ephemeral_id: [0xCD; 16],
        text: "hello sync-clip".to_string(),
    }
}

#[test]
fn seal_open_roundtrips_text_clip() {
    let link_key = sample_link_key();
    let clip = sample_clip();

    let sealed = Envelope::seal(&link_key, &clip).expect("seal");
    assert_eq!(sealed.protocol_version, 1);
    assert_eq!(sealed.nonce.len(), 24);
    assert!(!sealed.ciphertext.is_empty());
    let ct_str = String::from_utf8_lossy(&sealed.ciphertext);
    assert!(!ct_str.contains("hello sync-clip"));

    let opened = Envelope::open(&link_key, &sealed).expect("open");
    assert_eq!(opened, clip);
}

#[test]
fn channel_id_is_stable_hex_for_link_key() {
    let link_key = sample_link_key();
    let a = derive_channel_id(&link_key);
    let b = derive_channel_id(&link_key);
    assert_eq!(a, b);
    let hex = hex::encode(a);
    assert_eq!(hex.len(), 32);
    assert_eq!(hex, hex.to_lowercase());
}

#[test]
fn wrong_link_key_cannot_open() {
    let sealed = Envelope::seal(&sample_link_key(), &sample_clip()).expect("seal");
    let other = LinkKey([0x22; 32]);
    assert!(Envelope::open(&other, &sealed).is_err());
}

#[test]
fn seal_open_roundtrips_image_part() {
    let link_key = sample_link_key();
    let mut clip = sample_clip();
    clip.image = Some(ClipImage {
        bytes: b"fake-png-bytes".to_vec(),
        mime: "image/png".into(),
    });
    let sealed = Envelope::seal(&link_key, &clip).expect("seal");
    let opened = Envelope::open(&link_key, &sealed).expect("open");
    assert_eq!(opened, clip);
}

fn cbor_keys(bytes: &[u8]) -> Vec<String> {
    let value: ciborium::value::Value = ciborium::de::from_reader(bytes).expect("cbor map");
    let entries = match value {
        ciborium::value::Value::Map(entries) => entries,
        _ => panic!("expected CBOR map"),
    };
    entries
        .iter()
        .filter_map(|(k, _)| match k {
            ciborium::value::Value::Text(t) => Some(t.clone()),
            _ => None,
        })
        .collect()
}

#[test]
fn clip_cbor_plaintext_never_contains_local_nickname_key() {
    let clip = sample_clip();
    let bytes = encode_clip_cbor(&clip).expect("encode");
    let keys = cbor_keys(&bytes);
    assert!(
        !keys.iter().any(|k| k == "nickname" || k == "local_nickname"),
        "Clip plaintext must never carry Local Nickname; keys={keys:?}"
    );
    assert!(keys.contains(&"text".to_string()));
    assert!(keys.contains(&"schema_version".to_string()));
}

#[test]
fn cbor_keys_are_sorted_and_image_is_omitted_when_absent() {
    let bytes = encode_clip_cbor(&sample_clip()).expect("encode");
    assert_eq!(
        cbor_keys(&bytes),
        vec!["created_at", "id", "schema_version", "sender_ephemeral_id", "text"]
    );
    let mut clip = sample_clip();
    clip.image = Some(ClipImage {
        bytes: vec![1, 2, 3],
        mime: "image/png".into(),
    });
    let bytes = encode_clip_cbor(&clip).expect("encode");
    assert_eq!(
        cbor_keys(&bytes),
        vec!["created_at", "id", "image", "schema_version", "sender_ephemeral_id", "text"]
    );
}

fn ciborium_clip_bytes(created_at: i64, text: &str, image: Option<(&[u8], &str)>) -> Vec<u8> {
    let mut entries = vec![
        (ciborium::value::Value::Text("created_at".into()), ciborium::value::Value::Integer(created_at.into())),
        (ciborium::value::Value::Text("id".into()), ciborium::value::Value::Bytes(vec![0xAB; 16])),
    ];
    if let Some((bytes, mime)) = image {
        entries.push((
            ciborium::value::Value::Text("image".into()),
            ciborium::value::Value::Map(vec![
                (ciborium::value::Value::Text("bytes".into()), ciborium::value::Value::Bytes(bytes.to_vec())),
                (ciborium::value::Value::Text("mime".into()), ciborium::value::Value::Text(mime.into())),
            ]),
        ));
    }
    entries.push((ciborium::value::Value::Text("schema_version".into()), ciborium::value::Value::Integer(1.into())));
    entries.push((
        ciborium::value::Value::Text("sender_ephemeral_id".into()),
        ciborium::value::Value::Bytes(vec![0xCD; 16]),
    ));
    entries.push((ciborium::value::Value::Text("text".into()), ciborium::value::Value::Text(text.into())));
    let mut out = Vec::new();
    ciborium::ser::into_writer(&ciborium::value::Value::Map(entries), &mut out).expect("serialize");
    out
}

#[test]
fn cbor_encoding_matches_reference_encoder_bytes() {
    let clip = sample_clip();
    let ours = encode_clip_cbor(&clip).expect("encode");
    let reference = ciborium_clip_bytes(clip.created_at, &clip.text, None);
    assert_eq!(ours, reference);

    let mut with_image = sample_clip();
    with_image.created_at = -5;
    with_image.image = Some(ClipImage {
        bytes: vec![9; 300],
        mime: "image/png".into(),
    });
    let ours = encode_clip_cbor(&with_image).expect("encode");
    let reference = ciborium_clip_bytes(-5, &with_image.text, Some((&[9; 300], "image/png")));
    assert_eq!(ours, reference);
}

#[test]
fn cbor_decodes_reference_encoder_bytes() {
    let bytes = ciborium_clip_bytes(1_710_000_000_000, "hello sync-clip", None);
    assert_eq!(decode_clip_cbor(&bytes).expect("decode"), sample_clip());
    let bytes = ciborium_clip_bytes(7, "pic", Some((b"png", "image/png")));
    let clip = decode_clip_cbor(&bytes).expect("decode");
    assert_eq!(clip.created_at, 7);
    assert_eq!(clip.text, "pic");
    let image = clip.image.expect("image");
    assert_eq!(image.bytes, b"png".to_vec());
    assert_eq!(image.mime, "image/png");
}

#[test]
fn cbor_rejects_wrong_schema_and_garbage() {
    let mut clip = sample_clip();
    clip.schema_version = 2;
    assert!(matches!(encode_clip_cbor(&clip), Err(EnvelopeError::Schema(2))));
    assert!(matches!(decode_clip_cbor(&[0xff, 0x00]), Err(EnvelopeError::Cbor(_))));
    let good = encode_clip_cbor(&sample_clip()).expect("encode");
    assert!(decode_clip_cbor(&good[..good.len() - 1]).is_err());
    let mut trailing = good.clone();
    trailing.push(0);
    assert!(decode_clip_cbor(&trailing).is_err());
}

#[test]
fn seal_with_nonce_is_deterministic_and_refuses_bad_schema() {
    let clip = sample_clip();
    let a = Envelope::seal_with_nonce(&sample_link_key(), &clip, [7; 24]).expect("seal");
    let b = Envelope::seal_with_nonce(&sample_link_key(), &clip, [7; 24]).expect("seal");
    assert_eq!(a, b);
    assert_eq!(a.ciphertext.len(), encode_clip_cbor(&clip).unwrap().len() + 16);
    let mut bad = sample_clip();
    bad.schema_version = 3;
    assert!(matches!(
        Envelope::seal_with_nonce(&sample_link_key(), &bad, [7; 24]),
        Err(EnvelopeError::Schema(3))
    ));
}

#[test]
fn oversized_clip_is_refused_as_too_large() {
    let mut clip = sample_clip();
    clip.image = Some(ClipImage {
        bytes: vec![0; 6 * 1024 * 1024],
        mime: "image/png".into(),
    });
    assert!(matches!(Envelope::seal(&sample_link_key(), &clip), Err(EnvelopeError::TooLarge)));
}

#[test]
fn open_refuses_foreign_channel_and_tampered_ciphertext() {
    let sealed = Envelope::seal(&sample_link_key(), &sample_clip()).expect("seal");
    let mut foreign = sealed.clone();
    foreign.channel_id = [0; 16];
    assert!(matches!(Envelope::open(&sample_link_key(), &foreign), Err(EnvelopeError::Decrypt)));
    let mut tampered: SealedEnvelope = sealed.clone();
    tampered.ciphertext[0] ^= 1;
    assert!(matches!(Envelope::open(&sample_link_key(), &tampered), Err(EnvelopeError::Decrypt)));
}

#[test]
fn envelope_error_messages() {
    assert_eq!(EnvelopeError::Decrypt.message(), "AEAD decrypt failed");
    assert_eq!(EnvelopeError::Schema(7).message(), "invalid Clip schema_version: 7");
    assert_eq!(
        EnvelopeError::Cbor("bad".into()).message(),
        "CBOR encode/decode failed: bad"
    );
    assert_eq!(EnvelopeError::TooLarge.message(), "ciphertext exceeds 6 MiB soft cap");
}

#[test]
fn decimal_strings() {
    assert_eq!(decimal_string(0), "0");
    assert_eq!(decimal_string(42), "42");
    assert_eq!(decimal_string(u64::MAX), u64::MAX.to_string());
}
