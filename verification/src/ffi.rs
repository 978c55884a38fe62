//! The facade native Shells use: Link Key and ephemeral id generation and
//! parsing, the Link Key's base32 form, the Shell Lifetime rules over a flat
//! snapshot, and how an applied Clip is handed over.
use crate::bytes::slice_to_array;
use crate::crypto::{hex_encode, hex_lower};
use crate::device::{device_error_message, AppliedClip, DeviceError, MAX_IMAGE_BYTES};
use crate::encoding::{
    base32_decode, base32_decode_spec, base32_encode, base32_encode_spec, is_base32_char,
    is_unicode_whitespace, is_whitespace, lemma_base32_alphabet,
};
use crate::envelope::{lemma_random_draw, random_bytes, random_draw, LinkKey};
use crate::lifetime::{
    boot_should_force_paused, capture_missing, capture_missing_should_persist_paused,
    may_auto_start, may_enter_armed, should_keep_lifetime, LifetimeSnapshot,
};
use crate::text::{push_str, string_push};
use vstd::prelude::*;
use vstd::string::StrSliceExecFns;
use vstd::utf8::encode_utf8;

verus! {

/// Default hosted relay WebSocket URL for Shells.
pub const DEFAULT_RELAY_WS_URL: &'static str = "wss://clip.dotenv.co.za/v0/ws";

/// Applied Clip handed to a Shell: the id as lowercase hex, the image split
/// into bytes and MIME type.
#[derive(Clone, Debug, Eq, PartialEq)]
pub struct AppliedClipFfi {
    pub created_at: i64,
    pub id_hex: String,
    pub image_bytes: Option<Vec<u8>>,
    pub image_mime: Option<String>,
    pub text: String,
}

/// Why a Shell-facing Session operation failed.
#[derive(Debug)]
pub enum SessionError {
    InvalidLinkKey,
    InvalidEphemeralId,
    InvalidBase32(String),
    JoinFailed(String),
    Paused,
    Closed,
    Other(String),
}

/// The message text of a Session error.
pub open spec fn session_error_message(e: SessionError) -> Seq<char> {
    match e {
        SessionError::InvalidLinkKey => "invalid Link Key length (need 32 bytes)"@,
        SessionError::InvalidEphemeralId => "invalid ephemeral id length (need 16 bytes)"@,
        SessionError::InvalidBase32(m) => "invalid Link Key base32: "@ + m@,
        SessionError::JoinFailed(m) => "failed to join Sync Group: "@ + m@,
        SessionError::Paused => "device is Paused"@,
        SessionError::Closed => "session closed"@,
        SessionError::Other(m) => m@,
    }
}

impl SessionError {
    /// The error's message text.
    pub fn message(&self) -> (r: String)
        ensures
            r@ == session_error_message(*self),
    {
        match self {
            SessionError::InvalidLinkKey => "invalid Link Key length (need 32 bytes)".to_owned(),
            SessionError::InvalidEphemeralId => "invalid ephemeral id length (need 16 bytes)".to_owned(),
            SessionError::InvalidBase32(m) => {
                let mut s = "invalid Link Key base32: ".to_owned();
                push_str(&mut s, m.as_str());
                s
            },
            SessionError::JoinFailed(m) => {
                let mut s = "failed to join Sync Group: ".to_owned();
                push_str(&mut s, m.as_str());
                s
            },
            SessionError::Paused => "device is Paused".to_owned(),
            SessionError::Closed => "session closed".to_owned(),
            SessionError::Other(m) => m.clone(),
        }
    }

    /// The Session error for a Device error: Paused and Closed carry over,
    /// any other error becomes `Other` with the Device error's message.
    pub fn from_device_error(e: DeviceError) -> (r: SessionError)
        ensures
            match e {
                DeviceError::Paused => r is Paused,
                DeviceError::Closed => r is Closed,
                _ => r matches SessionError::Other(m) && m@ == device_error_message(e),
            },
    {
        match e {
            DeviceError::Paused => SessionError::Paused,
            DeviceError::Closed => SessionError::Closed,
            other => SessionError::Other(other.message()),
        }
    }
}

/// Generate a fresh 32-byte Link Key.
pub fn generate_link_key() -> (r: Vec<u8>)
    ensures
        r@.len() == 32,
        random_draw(32, r@),
{
    let r = random_bytes(32);
    proof {
        lemma_random_draw(32, r);
    }
    r
}

/// Generate a 16-byte sender ephemeral id (echo suppression; not identity).
pub fn generate_ephemeral_id() -> (r: Vec<u8>)
    ensures
        r@.len() == 16,
        random_draw(16, r@),
{
    let r = random_bytes(16);
    proof {
        lemma_random_draw(16, r);
    }
    r
}

/// Each Device's sender ephemeral id is its own draw from the random source:
/// whatever `generate_ephemeral_id` returns is exactly the 16 bytes one call of
/// the random source gave, never a value made up without drawing (so the ids
/// of two Devices are independent draws).
pub proof fn lemma_ephemeral_id_is_a_random_draw(r: Vec<u8>)
    requires
        call_ensures(generate_ephemeral_id, (), r),
    ensures
        r@.len() == 16,
        random_draw(16, r@),
{
}

/// A generated Link Key is exactly the 32 bytes one call of the random
/// source gave.
pub proof fn lemma_link_key_is_a_random_draw(r: Vec<u8>)
    requires
        call_ensures(generate_link_key, (), r),
    ensures
        r@.len() == 32,
        random_draw(32, r@),
{
}

/// A character a Link Key's text form may carry: not whitespace and not `-`.
pub open spec fn kept_in_link_key(c: char) -> bool {
    !is_unicode_whitespace(c) && c != '-'
}

/// ASCII uppercase of `c` (other characters unchanged).
pub open spec fn ascii_upper(c: char) -> char {
    if 'a' <= c && c <= 'z' {
        ((c as u32) - 32) as char
    } else {
        c
    }
}

/// The Link Key text with whitespace and dashes dropped and ASCII letters uppercased.
pub open spec fn clean_link_key_text(s: Seq<char>) -> Seq<char>
    decreases s.len(),
{
    if s.len() == 0 {
        seq![]
    } else if kept_in_link_key(s.last()) {
        clean_link_key_text(s.drop_last()).push(ascii_upper(s.last()))
    } else {
        clean_link_key_text(s.drop_last())
    }
}

proof fn lemma_clean_base32_text(s: Seq<char>)
    requires
        forall|i: int| 0 <= i < s.len() ==> is_base32_char(#[trigger] s[i]),
    ensures
        clean_link_key_text(s) == s,
    decreases s.len(),
{
    if s.len() > 0 {
        lemma_clean_base32_text(s.drop_last());
        assert(is_base32_char(s[s.len() - 1]));
        assert(s.drop_last().push(s.last()) =~= s);
    }
}

/// Encode Link Key bytes as unpadded base32 (Shell UX); the text is already
/// in the form that decoding cleans it to.
pub fn link_key_to_base32(key: Vec<u8>) -> (r: String)
    ensures
        r@ == base32_encode_spec(key@),
        forall|i: int| 0 <= i < r@.len() ==> is_base32_char(#[trigger] r@[i]),
        clean_link_key_text(r@) == r@,
{
    let r = base32_encode(key.as_slice());
    proof {
        lemma_base32_alphabet(key@);
        lemma_clean_base32_text(r@);
    }
    r
}

fn ascii_uppercase(c: char) -> (r: char)
    ensures
        r == ascii_upper(c),
{
    let u = c as u32;
    if 97 <= u && u <= 122 {
        let b: u8 = (u - 32) as u8;
        b as char
    } else {
        c
    }
}

/// The result of decoding Link Key text: the bytes of its cleaned form's
/// unpadded base32, or an `InvalidBase32` error when that does not decode.
pub open spec fn link_key_decoding(encoded: Seq<char>, r: Result<Vec<u8>, SessionError>) -> bool {
    match base32_decode_spec(encode_utf8(clean_link_key_text(encoded))) {
        Some(b) => r matches Ok(v) && v@ == b,
        None => r matches Err(SessionError::InvalidBase32(_)),
    }
}

/// Decode a Link Key from its unpadded base32 text, ignoring whitespace and
/// dashes and accepting lowercase letters.
pub fn link_key_from_base32(encoded: String) -> (r: Result<Vec<u8>, SessionError>)
    ensures
        link_key_decoding(encoded@, r),
        forall|b: Seq<u8>|
            #[trigger] base32_encode_spec(b) == clean_link_key_text(encoded@) ==> (r matches Ok(v)
                && v@ == b),
{
    let s = encoded.as_str();
    let n = s.unicode_len();
    let mut cleaned = String::new();
    let mut i: usize = 0;
    while i < n
        invariant
            n == s@.len(),
            i <= n,
            cleaned@ == clean_link_key_text(s@.take(i as int)),
        decreases n - i,
    {
        let c = s.get_char(i);
        assert(s@.take(i + 1).drop_last() =~= s@.take(i as int));
        if !is_whitespace(c) && c != '-' {
            string_push(&mut cleaned, ascii_uppercase(c));
        }
        i = i + 1;
    }
    assert(s@.take(n as int) =~= s@);
    let bytes = cleaned.as_str().as_bytes();
    match base32_decode(bytes) {
        Ok(key) => Ok(key),
        Err(msg) => Err(SessionError::InvalidBase32(msg)),
    }
}

/// Default relay WebSocket URL helper for Shell settings.
pub fn default_relay_ws_url() -> (r: String)
    ensures
        r@ == DEFAULT_RELAY_WS_URL@,
{
    DEFAULT_RELAY_WS_URL.to_owned()
}

/// Encoded image soft cap (5 MiB) exposed for Shell capture policy.
pub fn max_image_bytes() -> (r: u64)
    ensures
        r == MAX_IMAGE_BYTES,
{
    MAX_IMAGE_BYTES as u64
}

/// Shell Lifetime inputs for resume-on-boot, Arm and capture gates.
#[derive(Clone, Copy, Debug, PartialEq, Eq, Structural)]
pub struct LifetimeSnapshotFfi {
    pub durable_armed: bool,
    pub elevated_capture_granted: bool,
    pub has_link_key: bool,
    pub quit_opted_out: bool,
    pub requires_elevated_capture: bool,
}

impl From<LifetimeSnapshotFfi> for LifetimeSnapshot {
    fn from(value: LifetimeSnapshotFfi) -> (r: LifetimeSnapshot) {
        LifetimeSnapshot {
            durable_armed: value.durable_armed,
            elevated_capture_granted: value.elevated_capture_granted,
            has_link_key: value.has_link_key,
            quit_opted_out: value.quit_opted_out,
            requires_elevated_capture: value.requires_elevated_capture,
        }
    }
}

impl vstd::std_specs::convert::FromSpecImpl<LifetimeSnapshotFfi> for LifetimeSnapshot {
    open spec fn obeys_from_spec() -> bool {
        true
    }

    open spec fn from_spec(value: LifetimeSnapshotFfi) -> LifetimeSnapshot {
        LifetimeSnapshot {
            durable_armed: value.durable_armed,
            elevated_capture_granted: value.elevated_capture_granted,
            has_link_key: value.has_link_key,
            quit_opted_out: value.quit_opted_out,
            requires_elevated_capture: value.requires_elevated_capture,
        }
    }
}

/// Whether boot/login should auto-start the Shell.
pub fn lifetime_may_auto_start(snapshot: LifetimeSnapshotFfi) -> (r: bool)
    ensures
        r == (snapshot.has_link_key && snapshot.durable_armed && !snapshot.quit_opted_out),
{
    may_auto_start(&LifetimeSnapshot::from(snapshot))
}

/// Whether the Device may enter Armed.
pub fn lifetime_may_enter_armed(snapshot: LifetimeSnapshotFfi) -> (r: bool)
    ensures
        r == (snapshot.has_link_key && !capture_missing(
            snapshot.requires_elevated_capture,
            snapshot.elevated_capture_granted,
        )),
{
    may_enter_armed(&LifetimeSnapshot::from(snapshot))
}

/// Boot auto-started with Armed intent but capture missing: persist Paused.
pub fn lifetime_boot_should_force_paused(snapshot: LifetimeSnapshotFfi) -> (r: bool)
    ensures
        r == (snapshot.has_link_key && snapshot.durable_armed && capture_missing(
            snapshot.requires_elevated_capture,
            snapshot.elevated_capture_granted,
        )),
{
    boot_should_force_paused(&LifetimeSnapshot::from(snapshot))
}

/// Capture denied or revoked while required: persist Paused.
pub fn lifetime_capture_missing_should_persist_paused(
    requires_elevated_capture: bool,
    elevated_capture_granted: bool,
) -> (r: bool)
    ensures
        r == capture_missing(requires_elevated_capture, elevated_capture_granted),
{
    capture_missing_should_persist_paused(requires_elevated_capture, elevated_capture_granted)
}

/// Shell Lifetime continues only while a Link Key is saved.
pub fn lifetime_should_keep_lifetime(has_link_key: bool) -> (r: bool)
    ensures
        r == has_link_key,
{
    should_keep_lifetime(has_link_key)
}

/// The Link Key in raw bytes: exactly 32 of them.
pub fn parse_link_key(bytes: &[u8]) -> (r: Result<LinkKey, SessionError>)
    ensures
        bytes@.len() == 32 ==> (r matches Ok(k) && k.0@ == bytes@),
        bytes@.len() != 32 ==> r matches Err(SessionError::InvalidLinkKey),
{
    if bytes.len() != 32 {
        return Err(SessionError::InvalidLinkKey);
    }
    Ok(LinkKey(slice_to_array(bytes)))
}

/// The sender ephemeral id in raw bytes: exactly 16 of them.
pub fn parse_ephemeral(bytes: &[u8]) -> (r: Result<[u8; 16], SessionError>)
    ensures
        bytes@.len() == 16 ==> (r matches Ok(a) && a@ == bytes@),
        bytes@.len() != 16 ==> r matches Err(SessionError::InvalidEphemeralId),
{
    if bytes.len() != 16 {
        return Err(SessionError::InvalidEphemeralId);
    }
    Ok(slice_to_array(bytes))
}

/// Milliseconds since the Unix epoch (0 when the clock reads before it).
pub fn now_millis() -> i64 {
    crate::relay::unix_time_ms()
}

/// The fields of a Clip handed to a Shell.
pub open spec fn ffi_clip_of(applied: AppliedClip, r: AppliedClipFfi) -> bool {
    &&& r.created_at == applied.created_at
    &&& r.id_hex@ == hex_lower(applied.id@)
    &&& r.text@ == applied.text@
    &&& match applied.image {
        Some(img) => (r.image_bytes matches Some(b) && b@ == img.bytes@) && (r.image_mime matches Some(
            m,
        ) && m@ == img.mime@),
        None => r.image_bytes is None && r.image_mime is None,
    }
}

/// Hand an applied Clip to a Shell: id as lowercase hex, image split in two.
pub fn applied_to_ffi(applied: AppliedClip) -> (r: AppliedClipFfi)
    ensures
        ffi_clip_of(applied, r),
{
    let id_hex = hex_encode(applied.id.as_slice());
    let ghost a = applied;
    let (image_bytes, image_mime) = match applied.image {
        Some(img) => (Some(img.bytes), Some(img.mime)),
        None => (None, None),
    };
    AppliedClipFfi { created_at: applied.created_at, id_hex, image_bytes, image_mime, text: applied.text }
}

} // verus!
