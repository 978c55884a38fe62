use std::sync::Arc;
use sync_clip::ffi::{
    applied_to_ffi, default_relay_ws_url, generate_ephemeral_id, generate_link_key,
    lifetime_boot_should_force_paused, lifetime_capture_missing_should_persist_paused,
    lifetime_may_auto_start, lifetime_may_enter_armed, lifetime_should_keep_lifetime,
    link_key_from_base32, link_key_to_base32, max_image_bytes, parse_ephemeral, parse_link_key,
    AppliedClipFfi, LifetimeSnapshotFfi, SessionError,
};
use sync_clip::shell::armed::{ArmedStateStoring, InMemoryArmedStateStore};
use sync_clip::shell::clipboard::{
    fingerprint, ClipboardChangeTracker, FakeClipboard, LocalClipboardSnapshot, SystemClipboard,
};
use sync_clip::shell::credentials::{
    fresh_credentials, join_credentials, InMemoryCredentialStore, LinkKeyStoring, ShellCredentials,
};
use sync_clip::shell::echo::PasteboardEchoGuard;
use sync_clip::shell::png::{image_to_write, is_png_mime, snapshot_from_clipboard};
use sync_clip::shell::nickname::{trim, InMemoryNicknameStore, LocalNicknameStoring};
use sync_clip::shell::session::ClipSession;
use sync_clip::shell::sync::{ClipboardSyncController, LocalAction};
use sync_clip::shell::tray::{status_tooltip, tray_step, tray_tooltip, TrayAction, TrayEvent, TrayState};
use sync_clip::{AppliedClip, ClipImage};

struct RecordingSession {
    armed: std::sync::Mutex<bool>,
    next_applied: std::sync::Mutex<Option<AppliedClipFfi>>,
    published: std::sync::Mutex<Vec<String>>,
}

impl RecordingSession {
    fn new(armed: bool) -> Arc<Self> {
        Arc::new(Self {
            armed: std::sync::Mutex::new(armed),
            next_applied: std::sync::Mutex::new(None),
            published: std::sync::Mutex::new(Vec::new()),
        })
    }

    fn published(&self) -> Vec<String> {
        self.published.lock().unwrap().clone()
    }
}

struct ArcSession(Arc<RecordingSession>);

impl ClipSession for ArcSession {
    fn is_armed(&self) -> bool {
        *self.0.armed.lock().unwrap()
    }

    fn is_sync_idle(&self) -> bool {
        false
    }

    fn set_armed(&self, armed: bool) {
        *self.0.armed.lock().unwrap() = armed;
    }

    fn publish_text(&self, text: String) -> Result<(), SessionError> {
        self.0.published.lock().unwrap().push(text);
        Ok(())
    }

    fn publish_text_and_image(
        &self,
        text: String,
        _image_bytes: Vec<u8>,
        _image_mime: String,
    ) -> Result<(), SessionError> {
        self.0.published.lock().unwrap().push(text);
        Ok(())
    }

    fn poll_applied(&self) -> Option<AppliedClipFfi> {
        self.0.next_applied.lock().unwrap().take()
    }
}

#[test]
fn echo_guard_ignores_remote_write_once() {
    let mut guard = PasteboardEchoGuard::new();
    guard.mark_remote_write("remote clip");
    assert!(guard.should_ignore_change(Some("remote clip")));
    assert!(!guard.should_ignore_change(Some("user copy")));
}

#[test]
fn echo_guard_keeps_ignoring_last_remote_text_until_reset() {
    let mut guard = PasteboardEchoGuard::new();
    assert!(!guard.should_ignore_change(Some("x")));
    guard.mark_remote_write("remote clip");
    assert!(guard.should_ignore_change(None));
    assert!(guard.should_ignore_change(Some("remote clip")));
    assert!(!guard.should_ignore_change(None));
    guard.reset();
    assert!(!guard.should_ignore_change(Some("remote clip")));
}

#[test]
fn nickname_empty_clears() {
    let mut store = InMemoryNicknameStore::default();
    store.save("Desk PC");
    assert_eq!(store.load().as_deref(), Some("Desk PC"));
    store.save("   ");
    assert!(store.load().is_none());
}

#[test]
fn nickname_is_trimmed_and_clearable() {
    let mut store = InMemoryNicknameStore::default();
    store.save(" \t Laptop \u{3000}\n");
    assert_eq!(store.load().as_deref(), Some("Laptop"));
    store.clear();
    assert!(store.load().is_none());
    assert_eq!(trim("  a b  "), "a b");
    assert_eq!(trim(""), "");
    assert_eq!(trim(" x"), "x");
}

#[test]
fn sync_publishes_local_text_when_armed() {
    let clipboard = FakeClipboard {
        change_count: 1,
        ..FakeClipboard::default()
    };
    let mut controller = ClipboardSyncController::new(clipboard);
    let session = RecordingSession::new(true);
    controller.attach(Box::new(ArcSession(Arc::clone(&session))));

    {
        let clip = controller.clipboard_mut();
        clip.change_count = 2;
        clip.snapshot = LocalClipboardSnapshot::text("hello from device");
    }
    controller.poll_local_clipboard();
    assert_eq!(session.published(), vec!["hello from device".to_string()]);
}

#[test]
fn sync_ignores_echo_after_remote_apply() {
    let clipboard = FakeClipboard {
        change_count: 1,
        ..FakeClipboard::default()
    };
    let mut controller = ClipboardSyncController::new(clipboard);
    let session = RecordingSession::new(true);
    session.next_applied.lock().unwrap().replace(AppliedClipFfi {
        created_at: 1,
        id_hex: "ab".into(),
        image_bytes: None,
        image_mime: None,
        text: "from remote device".into(),
    });
    controller.attach(Box::new(ArcSession(Arc::clone(&session))));

    controller.poll_remote_applied();
    assert_eq!(
        controller.clipboard_mut().written_texts,
        vec!["from remote device".to_string()]
    );

    {
        let clip = controller.clipboard_mut();
        clip.change_count += 1;
        clip.snapshot = LocalClipboardSnapshot::text("from remote device");
    }
    controller.poll_local_clipboard();
    assert!(session.published().is_empty());
}

#[test]
fn sync_does_not_publish_when_paused() {
    let clipboard = FakeClipboard {
        change_count: 1,
        ..FakeClipboard::default()
    };
    let mut controller = ClipboardSyncController::new(clipboard);
    let session = RecordingSession::new(false);
    controller.attach(Box::new(ArcSession(Arc::clone(&session))));
    {
        let clip = controller.clipboard_mut();
        clip.change_count = 3;
        clip.snapshot = LocalClipboardSnapshot::text("paused copy");
    }
    controller.poll_local_clipboard();
    assert!(session.published().is_empty());
}

#[test]
fn sync_without_session_or_change_publishes_nothing() {
    let mut controller: ClipboardSyncController<FakeClipboard, Box<ArcSession>> =
        ClipboardSyncController::new(FakeClipboard::default());
    assert!(!controller.has_session());
    assert!(!controller.is_armed());
    assert!(!controller.is_sync_idle());
    controller.clipboard_mut().snapshot = LocalClipboardSnapshot::text("x");
    controller.clipboard_mut().change_count = 5;
    controller.poll_local_clipboard();
    controller.poll_remote_applied();
    let session = RecordingSession::new(true);
    controller.attach(Box::new(ArcSession(Arc::clone(&session))));
    assert!(controller.has_session());
    assert!(controller.is_armed());
    controller.poll_local_clipboard();
    assert!(session.published().is_empty(), "count already seen at attach");
    controller.set_armed(false);
    assert!(!controller.is_armed());
    controller.detach();
    assert!(!controller.has_session());
}

#[test]
fn in_memory_armed_defaults_armed() {
    let store = InMemoryArmedStateStore::default();
    assert!(store.is_armed());
    assert!(!store.quit_opted_out());
}

#[test]
fn in_memory_armed_store_keeps_settings() {
    let mut store = InMemoryArmedStateStore::default();
    store.set_armed(false);
    store.set_quit_opted_out(true);
    assert!(!store.is_armed());
    assert!(store.quit_opted_out());
    store.clear_quit_opt_out();
    assert!(!store.quit_opted_out());
    assert!(!store.is_armed());
}

#[test]
fn credentials_round_trip_memory() {
    let mut mem = InMemoryCredentialStore::default();
    assert!(mem.load().unwrap().is_none());
    let creds = ShellCredentials {
        ephemeral_id: vec![1; 16],
        link_key: vec![2; 32],
        relay_ws_url: default_relay_ws_url(),
    };
    mem.save(&creds).unwrap();
    assert_eq!(mem.load().unwrap().as_ref(), Some(&creds));
    mem.delete().unwrap();
    assert!(mem.load().unwrap().is_none());
}

#[test]
fn lifetime_may_auto_start_respects_quit_opt_out() {
    let snap = LifetimeSnapshotFfi {
        durable_armed: true,
        elevated_capture_granted: true,
        has_link_key: true,
        quit_opted_out: false,
        requires_elevated_capture: false,
    };
    assert!(lifetime_may_auto_start(snap.clone()));
    let opted = LifetimeSnapshotFfi {
        quit_opted_out: true,
        ..snap
    };
    assert!(!lifetime_may_auto_start(opted));
}

#[test]
fn lifetime_facade_matches_rules() {
    let android = LifetimeSnapshotFfi {
        durable_armed: true,
        elevated_capture_granted: false,
        has_link_key: true,
        quit_opted_out: false,
        requires_elevated_capture: true,
    };
    assert!(!lifetime_may_enter_armed(android));
    assert!(lifetime_boot_should_force_paused(android));
    assert!(lifetime_capture_missing_should_persist_paused(true, false));
    assert!(!lifetime_should_keep_lifetime(false));
}

#[test]
fn link_key_round_trips_base32_without_padding() {
    let key = generate_link_key();
    assert_eq!(key.len(), 32);
    let encoded = link_key_to_base32(key.clone());
    assert!(!encoded.contains('='), "base32 must be unpadded");
    let decoded = link_key_from_base32(encoded).expect("decode");
    assert_eq!(decoded, key);
}

#[test]
fn link_key_text_tolerates_spacing_dashes_and_lowercase() {
    let key: Vec<u8> = (0u8..32).collect();
    let encoded = link_key_to_base32(key.clone());
    let messy: String = encoded
        .to_lowercase()
        .chars()
        .enumerate()
        .flat_map(|(i, c)| if i % 4 == 3 { vec![c, '-', ' '] } else { vec![c] })
        .collect();
    assert_eq!(link_key_from_base32(format!("\n{messy}\t")).expect("decode"), key);
    assert!(matches!(link_key_from_base32("!!".into()), Err(SessionError::InvalidBase32(_))));
}

#[test]
fn parse_key_and_ephemeral_lengths() {
    assert!(parse_link_key(&[1; 32]).is_ok());
    assert!(matches!(parse_link_key(&[1; 31]), Err(SessionError::InvalidLinkKey)));
    assert_eq!(parse_ephemeral(&[3; 16]).unwrap(), [3; 16]);
    assert!(matches!(parse_ephemeral(&[3; 17]), Err(SessionError::InvalidEphemeralId)));
    assert_eq!(generate_ephemeral_id().len(), 16);
    assert_eq!(max_image_bytes(), 5 * 1024 * 1024);
    assert_eq!(default_relay_ws_url(), "wss://clip.dotenv.co.za/v0/ws");
    assert_eq!(SessionError::InvalidLinkKey.message(), "invalid Link Key length (need 32 bytes)");
}

#[test]
fn applied_clip_is_handed_over_with_hex_id() {
    let ffi = applied_to_ffi(AppliedClip {
        created_at: 5,
        id: [0xAB; 16],
        image: Some(ClipImage { bytes: vec![1, 2], mime: "image/png".into() }),
        text: "t".into(),
    });
    assert_eq!(ffi.id_hex, "ab".repeat(16));
    assert_eq!(ffi.image_bytes, Some(vec![1, 2]));
    assert_eq!(ffi.image_mime.as_deref(), Some("image/png"));
    assert_eq!(ffi.text, "t");
    assert_eq!(ffi.created_at, 5);
}

#[test]
fn tooltip_shows_nickname_and_status() {
    assert_eq!(status_tooltip(None, false, true, false), "Sync Clip — no Sync Group");
    assert_eq!(status_tooltip(Some("Desk"), true, true, true), "Sync Clip · Desk — Sync Idle");
    assert_eq!(status_tooltip(None, true, true, false), "Sync Clip — Armed");
    assert_eq!(status_tooltip(None, true, false, false), "Sync Clip — Paused");
}

#[test]
fn fingerprint_and_change_tracking() {
    let snap = LocalClipboardSnapshot {
        image_bytes: Some(vec![0; 12]),
        image_mime: Some("image/png".into()),
        text: Some("hi".into()),
    };
    assert_eq!(fingerprint(&snap), "hi|12");
    assert_eq!(fingerprint(&LocalClipboardSnapshot::default()), "|0");
    let mut tracker = ClipboardChangeTracker::new();
    assert_eq!(tracker.observe(&snap), 1);
    assert_eq!(tracker.observe(&snap), 1);
    assert_eq!(tracker.observe(&LocalClipboardSnapshot::text("other")), 2);
    tracker.record_write(&snap);
    assert_eq!(tracker.change_count(), 3);
    assert_eq!(tracker.observe(&snap), 3);
    assert!(LocalClipboardSnapshot::default().is_empty());
    assert!(!LocalClipboardSnapshot::text("a").is_empty());
}

#[test]
fn fake_clipboard_records_writes() {
    let mut clip = FakeClipboard::default();
    clip.write_applied(&AppliedClipFfi {
        created_at: 1,
        id_hex: "00".into(),
        image_bytes: None,
        image_mime: None,
        text: "w".into(),
    });
    assert_eq!(clip.poll_change_count(), 1);
    assert_eq!(clip.read_snapshot(), LocalClipboardSnapshot::text("w"));
    assert_eq!(clip.written_texts, vec!["w".to_string()]);
}

#[test]
fn clipboard_image_travels_as_png_and_back() {
    let rgba = vec![0x0f, 0x7a, 0x5a, 0xff, 1, 2, 3, 4];
    let snap = snapshot_from_clipboard(Some("caption".into()), Some((rgba.clone(), 2, 1)));
    assert_eq!(snap.text.as_deref(), Some("caption"));
    assert_eq!(snap.image_mime.as_deref(), Some("image/png"));
    let png = snap.image_bytes.clone().expect("png");
    assert_eq!(&png[..8], b"\x89PNG\r\n\x1a\n");
    let applied = AppliedClipFfi {
        created_at: 1,
        id_hex: "00".into(),
        image_bytes: Some(png.clone()),
        image_mime: Some("image/png".into()),
        text: "caption".into(),
    };
    assert_eq!(image_to_write(&applied), Some((2, 1, rgba)));
    let not_png = AppliedClipFfi {
        image_mime: Some("image/jpeg".into()),
        ..applied.clone()
    };
    assert_eq!(image_to_write(&not_png), None);
    let broken = AppliedClipFfi {
        image_bytes: Some(vec![1, 2, 3]),
        ..applied
    };
    assert_eq!(image_to_write(&broken), None);
    assert!(is_png_mime("image/png"));
    assert!(!is_png_mime("pn"));
    assert!(!is_png_mime("image/pnx"));
    let text_only = snapshot_from_clipboard(None, None);
    assert!(text_only.is_empty());
}

#[test]
fn shell_version_is_the_library_version() {
    assert_eq!(sync_clip::shell::version(), sync_clip::version());
    assert!(!sync_clip::shell::version().is_empty());
}

#[test]
fn join_and_fresh_credentials() {
    let saved = ShellCredentials {
        ephemeral_id: vec![7; 16],
        link_key: vec![1; 32],
        relay_ws_url: "ws://127.0.0.1:7120/v0/ws".into(),
    };
    let joined = join_credentials(vec![9; 32], Some(saved.clone()));
    assert_eq!(joined.link_key, vec![9; 32]);
    assert_eq!(joined.ephemeral_id, saved.ephemeral_id);
    assert_eq!(joined.relay_ws_url, saved.relay_ws_url);
    let first = join_credentials(vec![9; 32], None);
    assert_eq!(first.ephemeral_id.len(), 16);
    assert_eq!(first.relay_ws_url, default_relay_ws_url());
    let (creds, encoded) = fresh_credentials();
    assert_eq!(creds.link_key.len(), 32);
    assert_eq!(link_key_from_base32(encoded).expect("decode"), creds.link_key);
    let snap = sync_clip::shell::tray::saved_link_key_snapshot(true, false);
    assert!(lifetime_may_auto_start(snap));
    assert!(!lifetime_may_auto_start(sync_clip::shell::tray::saved_link_key_snapshot(true, true)));
}

fn tray_state() -> TrayState {
    TrayState {
        armed: true,
        quit_opted_out: true,
        has_link_key: true,
        pending_join: false,
        has_session: false,
    }
}

#[test]
fn tray_open_clears_opt_out_and_rejoins_sync_group() {
    let (s, actions) = tray_step(tray_state(), TrayEvent::Opened);
    assert!(!s.quit_opted_out);
    assert!(s.armed);
    assert_eq!(actions, vec![TrayAction::PersistQuitOptOut(false), TrayAction::Join]);
    let no_key = TrayState { has_link_key: false, ..tray_state() };
    let (_, actions) = tray_step(no_key, TrayEvent::Opened);
    assert_eq!(actions, vec![TrayAction::PersistQuitOptOut(false)]);
}

#[test]
fn tray_paused_device_keeps_sync_group() {
    // Opened Paused with saved credentials: the Shell still joins (Paused).
    let paused = TrayState { armed: false, ..tray_state() };
    let (s, actions) = tray_step(paused, TrayEvent::Opened);
    assert!(!s.armed);
    assert_eq!(actions, vec![TrayAction::PersistQuitOptOut(false), TrayAction::Join]);
    // Once joined, Toggle Armed arms the Session.
    let (s, _) = tray_step(s, TrayEvent::Joined);
    let (s, actions) = tray_step(s, TrayEvent::ToggleArmed);
    assert!(s.armed);
    assert_eq!(actions, vec![TrayAction::PersistArmed(true), TrayAction::SetSessionArmed(true)]);
    // Without a Session, Toggle Armed joins.
    let (s, actions) = tray_step(paused, TrayEvent::ToggleArmed);
    assert!(s.armed);
    assert_eq!(actions, vec![TrayAction::PersistArmed(true), TrayAction::Join]);
    // Without credentials there is nothing to join.
    let bare = TrayState { has_link_key: false, ..paused };
    assert_eq!(tray_step(bare, TrayEvent::ToggleArmed).1, vec![TrayAction::PersistArmed(true)]);
}

#[test]
fn tray_tooltip_shows_sync_idle_while_join_is_retried() {
    let retrying = TrayState { pending_join: true, has_session: false, ..tray_state() };
    assert_eq!(tray_tooltip(None, retrying, false), "Sync Clip — Sync Idle");
    assert_eq!(tray_tooltip(Some("Desk"), retrying, false), "Sync Clip · Desk — Sync Idle");
    let joined = TrayState { pending_join: false, has_session: true, ..tray_state() };
    assert_eq!(tray_tooltip(None, joined, false), "Sync Clip — Armed");
    assert_eq!(tray_tooltip(None, joined, true), "Sync Clip — Sync Idle");
    let paused = TrayState { armed: false, ..joined };
    assert_eq!(tray_tooltip(None, paused, false), "Sync Clip — Paused");
    let outside = TrayState { pending_join: false, has_session: false, ..tray_state() };
    assert_eq!(tray_tooltip(None, outside, false), "Sync Clip — no Sync Group");
}

#[test]
fn tray_quit_keeps_armed_and_opts_out() {
    let running = TrayState { quit_opted_out: false, has_session: true, ..tray_state() };
    let (s, actions) = tray_step(running, TrayEvent::Quit);
    assert!(s.armed);
    assert!(s.quit_opted_out);
    assert!(!s.has_session);
    assert_eq!(
        actions,
        vec![TrayAction::PersistQuitOptOut(true), TrayAction::Detach, TrayAction::Exit]
    );
}

#[test]
fn tray_retries_failed_join_on_tick_and_toggles_armed() {
    let (s, actions) = tray_step(tray_state(), TrayEvent::JoinFailed);
    assert!(actions.is_empty());
    assert!(s.pending_join);
    let (s2, actions) = tray_step(s, TrayEvent::Tick);
    assert_eq!(s2, s);
    assert_eq!(actions, vec![TrayAction::Join, TrayAction::Poll]);
    let (s3, _) = tray_step(s2, TrayEvent::Joined);
    assert!(s3.has_session && !s3.pending_join);
    assert_eq!(tray_step(s3, TrayEvent::Tick).1, vec![TrayAction::Poll]);
    let (s4, actions) = tray_step(s3, TrayEvent::ToggleArmed);
    assert!(!s4.armed);
    assert_eq!(actions, vec![TrayAction::PersistArmed(false), TrayAction::SetSessionArmed(false)]);
    let (s5, actions) = tray_step(TrayState { has_link_key: false, ..s4 }, TrayEvent::LinkKeySaved);
    assert!(s5.has_link_key);
    assert_eq!(actions, vec![TrayAction::Join]);
}

#[test]
fn controller_steps_record_counts_and_echo() {
    let mut controller: ClipboardSyncController<FakeClipboard, Box<ArcSession>> =
        ClipboardSyncController::new(FakeClipboard::default());
    let applied = AppliedClipFfi {
        created_at: 1,
        id_hex: "00".into(),
        image_bytes: None,
        image_mime: None,
        text: "remote".into(),
    };
    assert!(controller.remote_step(true, Some(applied.clone())).is_none(), "no Session");
    let session = RecordingSession::new(true);
    controller.note_attached(Box::new(ArcSession(Arc::clone(&session))), 7);
    assert!(!controller.note_local_change(7, true), "count seen at attach");
    assert!(controller.remote_step(false, Some(applied.clone())).is_none(), "Paused");
    assert_eq!(controller.remote_step(true, Some(applied.clone())), Some(applied));
    controller.note_written_count(9);
    assert!(!controller.note_local_change(9, true), "own write not read back");
    assert!(controller.note_local_change(10, true));
    let action = controller.judge_local_snapshot(&LocalClipboardSnapshot::text("remote"));
    assert!(matches!(action, LocalAction::Nothing), "echo guard ignores the written text");
    controller.clipboard_mut().change_count = 11;
    controller.clipboard_mut().snapshot = LocalClipboardSnapshot::text("fresh copy");
    match controller.poll_local_action() {
        LocalAction::PublishText(t) => assert_eq!(t, "fresh copy"),
        _ => panic!("expected a text publish"),
    }
    assert!(matches!(controller.poll_local_action(), LocalAction::Nothing));
}

#[test]
fn link_key_text_must_be_canonical_base32() {
    assert_eq!(link_key_from_base32("my".to_string()).unwrap(), b"f".to_vec());
    assert_eq!(link_key_from_base32("MZXW6YTB".to_string()).unwrap(), b"fooba".to_vec());
    // Trailing bits set, impossible length, a symbol outside the alphabet.
    for bad in ["MZ", "MZX", "MZXW61"] {
        assert!(matches!(
            link_key_from_base32(bad.to_string()),
            Err(SessionError::InvalidBase32(_))
        ));
    }
}
