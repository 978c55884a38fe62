//! Device sync rules: Armed/Paused, echo suppression, last-write-wins, and
//! what a Device publishes or applies. The WebSocket loop that drives these
//! rules runs outside the library.
use crate::bytes::{bytes_equal, vec_to_array};
use crate::cbor::WireClip;
use crate::crypto::spec_channel_id;
use crate::encoding::{base64_decode, base64_decode_spec, base64_encode, base64_encode_spec};
use crate::envelope::{
    image_view, spec_open, spec_seal, sealable, sealed_result_view, ClipImage, Envelope,
    ErrorKind, LinkKey, SealedEnvelope, SealedModel, TextClip,
};
use crate::crypto::derive_channel_id;
use crate::messages::{ClientMessage, ServerMessage};
use crate::text::push_str;
use vstd::prelude::*;

verus! {

/// Opaque Clip id (16 bytes).
pub type ClipId = [u8; 16];

/// Encoded image soft cap (5 MiB): larger images are left out of a Clip.
pub const MAX_IMAGE_BYTES: usize = 5 * 1024 * 1024;

/// A remote Clip that passed decrypt, Armed, echo, and LWW checks.
#[derive(Clone, Debug, Eq, PartialEq)]
pub struct AppliedClip {
    pub created_at: i64,
    pub id: ClipId,
    pub image: Option<ClipImage>,
    pub text: String,
}

/// Why a Device operation failed.
#[derive(Debug)]
pub enum DeviceError {
    Paused,
    WebSocket(String),
    Protocol(String),
    Crypto(String),
    Closed,
}

/// The message text of a Device error.
pub open spec fn device_error_message(e: DeviceError) -> Seq<char> {
    match e {
        DeviceError::Paused => "device is Paused"@,
        DeviceError::WebSocket(m) => "websocket error: "@ + m@,
        DeviceError::Protocol(m) => "protocol error: "@ + m@,
        DeviceError::Crypto(m) => "crypto error: "@ + m@,
        DeviceError::Closed => "channel closed"@,
    }
}

impl DeviceError {
    /// The error's message text.
    pub fn message(&self) -> (r: String)
        ensures
            r@ == device_error_message(*self),
    {
        match self {
            DeviceError::Paused => "device is Paused".to_owned(),
            DeviceError::WebSocket(m) => {
                let mut s = "websocket error: ".to_owned();
                push_str(&mut s, m.as_str());
                s
            },
            DeviceError::Protocol(m) => {
                let mut s = "protocol error: ".to_owned();
                push_str(&mut s, m.as_str());
                s
            },
            DeviceError::Crypto(m) => {
                let mut s = "crypto error: ".to_owned();
                push_str(&mut s, m.as_str());
                s
            },
            DeviceError::Closed => "channel closed".to_owned(),
        }
    }
}

/// The fields of an applied Clip.
pub struct AppliedModel {
    pub created_at: i64,
    pub id: Seq<u8>,
    pub image: Option<(Seq<u8>, Seq<char>)>,
    pub text: Seq<char>,
}

impl View for AppliedClip {
    type V = AppliedModel;

    open spec fn view(&self) -> AppliedModel {
        AppliedModel {
            created_at: self.created_at,
            id: self.id@,
            image: image_view(self.image),
            text: self.text@,
        }
    }
}

/// What applying `clip` hands to the Shell.
pub open spec fn applied_of(clip: WireClip) -> AppliedModel {
    AppliedModel { created_at: clip.created_at, id: clip.id, image: clip.image, text: clip.text }
}

/// Bytewise lexicographic "greater than".
pub open spec fn lex_gt(a: Seq<u8>, b: Seq<u8>) -> bool
    decreases a.len(),
{
    if a.len() == 0 {
        false
    } else if b.len() == 0 {
        true
    } else if a[0] != b[0] {
        a[0] > b[0]
    } else {
        lex_gt(a.drop_first(), b.drop_first())
    }
}

/// Last-write-wins: a remote Clip wins when nothing was applied yet, when it
/// was created later, or, at the same `created_at`, when its id is bytewise greater.
pub open spec fn spec_wins_lww(current: Option<WireClip>, remote: WireClip) -> bool {
    match current {
        None => true,
        Some(cur) => if remote.created_at != cur.created_at {
            remote.created_at > cur.created_at
        } else {
            lex_gt(remote.id, cur.id)
        },
    }
}

/// An optional Clip seen through its view.
pub open spec fn opt_clip(c: Option<TextClip>) -> Option<WireClip> {
    match c {
        Some(c) => Some(c@),
        None => None,
    }
}

/// Whether the remote Clip `remote` wins over `current` under last-write-wins.
pub fn wins_lww(current: Option<&TextClip>, remote: &TextClip) -> (r: bool)
    ensures
        r == spec_wins_lww(
            match current {
                Some(c) => Some(c@),
                None => None,
            },
            remote@,
        ),
{
    match current {
        None => true,
        Some(cur) => {
            if remote.created_at != cur.created_at {
                remote.created_at > cur.created_at
            } else {
                id_greater(&remote.id, &cur.id)
            }
        },
    }
}

proof fn lemma_lex_gt_skip(a: Seq<u8>, b: Seq<u8>, i: int)
    requires
        0 <= i < a.len(),
        a.len() == b.len(),
        a[i] == b[i],
    ensures
        lex_gt(a.skip(i), b.skip(i)) == lex_gt(a.skip(i + 1), b.skip(i + 1)),
{
    assert(a.skip(i).drop_first() =~= a.skip(i + 1));
    assert(b.skip(i).drop_first() =~= b.skip(i + 1));
}

/// Bytewise lexicographic comparison of two ids.
fn id_greater(a: &ClipId, b: &ClipId) -> (r: bool)
    ensures
        r == lex_gt(a@, b@),
{
    let mut i: usize = 0;
    assert(a@.skip(0) =~= a@);
    assert(b@.skip(0) =~= b@);
    while i < 16
        invariant
            a@.len() == 16,
            b@.len() == 16,
            i <= 16,
            lex_gt(a@, b@) == lex_gt(a@.skip(i as int), b@.skip(i as int)),
        decreases 16 - i,
    {
        if a[i] != b[i] {
            return a[i] > b[i];
        }
        proof {
            lemma_lex_gt_skip(a@, b@, i as int);
        }
        i = i + 1;
    }
    false
}

proof fn lemma_lex_gt_irreflexive(a: Seq<u8>)
    ensures
        !lex_gt(a, a),
    decreases a.len(),
{
    if a.len() > 0 {
        lemma_lex_gt_irreflexive(a.drop_first());
    }
}

proof fn lemma_lex_gt_asymmetric(a: Seq<u8>, b: Seq<u8>)
    ensures
        lex_gt(a, b) ==> !lex_gt(b, a),
    decreases a.len(),
{
    if a.len() > 0 && b.len() > 0 && a[0] == b[0] {
        lemma_lex_gt_asymmetric(a.drop_first(), b.drop_first());
    }
}

proof fn lemma_lex_gt_total(a: Seq<u8>, b: Seq<u8>)
    requires
        a.len() == b.len(),
        a != b,
    ensures
        lex_gt(a, b) || lex_gt(b, a),
    decreases a.len(),
{
    if a.len() == 0 {
        assert(a =~= b);
    } else if a[0] == b[0] {
        if a.drop_first() == b.drop_first() {
            assert(a =~= b) by {
                assert forall|i: int| 0 <= i < a.len() implies a[i] == b[i] by {
                    if i > 0 {
                        assert(a[i] == a.drop_first()[i - 1]);
                        assert(b[i] == b.drop_first()[i - 1]);
                    }
                }
            }
        }
        lemma_lex_gt_total(a.drop_first(), b.drop_first());
    }
}

proof fn lemma_lex_gt_transitive(a: Seq<u8>, b: Seq<u8>, c: Seq<u8>)
    requires
        lex_gt(a, b),
        lex_gt(b, c),
    ensures
        lex_gt(a, c),
    decreases a.len(),
{
    if a.len() > 0 && b.len() > 0 && c.len() > 0 && a[0] == b[0] && b[0] == c[0] {
        lemma_lex_gt_transitive(a.drop_first(), b.drop_first(), c.drop_first());
    }
}

/// The state after a Clip is offered to last-write-wins: applied when it
/// wins over the last applied Clip, else no change.
pub open spec fn lww_apply(state: DeviceModel, clip: WireClip) -> DeviceModel {
    if spec_wins_lww(state.last_applied, clip) {
        after_apply(state, clip)
    } else {
        state
    }
}

/// Two Clips that last-write-wins tells apart: 16-byte ids, and not the same
/// `created_at` with the same id.
pub open spec fn lww_distinct(a: WireClip, b: WireClip) -> bool {
    &&& a.id.len() == 16
    &&& b.id.len() == 16
    &&& (a.created_at != b.created_at || a.id != b.id)
}

/// Last-write-wins never lets a Clip win over itself: delivering the Clip
/// that was last applied again changes nothing.
pub proof fn lemma_lww_rejects_same_clip(clip: WireClip)
    ensures
        !spec_wins_lww(Some(clip), clip),
{
    lemma_lex_gt_irreflexive(clip.id);
}

/// Of two Clips that last-write-wins tells apart, exactly one wins over the other.
pub proof fn lemma_lww_exactly_one_wins(a: WireClip, b: WireClip)
    requires
        lww_distinct(a, b),
    ensures
        spec_wins_lww(Some(a), b) != spec_wins_lww(Some(b), a),
{
    if a.created_at == b.created_at {
        lemma_lex_gt_total(a.id, b.id);
        lemma_lex_gt_asymmetric(a.id, b.id);
    }
}

/// Last-write-wins is transitive: if `b` wins over `a` and `c` over `b`, then
/// `c` wins over `a`.
pub proof fn lemma_lww_transitive(a: WireClip, b: WireClip, c: WireClip)
    requires
        spec_wins_lww(Some(a), b),
        spec_wins_lww(Some(b), c),
    ensures
        spec_wins_lww(Some(a), c),
{
    if a.created_at == b.created_at && b.created_at == c.created_at {
        lemma_lex_gt_transitive(c.id, b.id, a.id);
    }
}

/// Delivery order does not matter: offering two Clips that last-write-wins
/// tells apart in either order leaves the same last applied Clip.
pub proof fn lemma_lww_order_independent(state: DeviceModel, a: WireClip, b: WireClip)
    requires
        lww_distinct(a, b),
        state.last_applied matches Some(cur) ==> cur.id.len() == 16,
    ensures
        lww_apply(lww_apply(state, a), b).last_applied == lww_apply(lww_apply(state, b), a).last_applied,
{
    lemma_lww_exactly_one_wins(a, b);
    match state.last_applied {
        None => {},
        Some(cur) => {
            if spec_wins_lww(Some(cur), a) && spec_wins_lww(Some(a), b) {
                lemma_lww_transitive(cur, a, b);
            }
            if spec_wins_lww(Some(cur), b) && spec_wins_lww(Some(b), a) {
                lemma_lww_transitive(cur, b, a);
            }
        },
    }
}

/// Copying a remote Clip that was just applied back into the clipboard:
/// same id, or same text and `created_at`.
pub open spec fn is_echo(remote: WireClip, clip: WireClip) -> bool {
    remote.id == clip.id || (remote.text == clip.text && remote.created_at == clip.created_at)
}

/// A random version-4 UUID: version nibble 4, RFC 4122 variant bits `10`.
pub open spec fn is_fresh_clip_id(id: Seq<u8>) -> bool {
    id.len() == 16 && id[6] / 16 == 4 && id[8] / 64 == 2
}

/// `uuid::Uuid::new_v4` as bytes. Trusted: only the version and variant bits
/// are promised; the other bits are chance.
#[verifier::external_body]
fn random_clip_id() -> (r: ClipId)
    ensures
        is_fresh_clip_id(r@),
{
    uuid::Uuid::new_v4().into_bytes()
}

/// The sync state of one Device in its Sync Group.
pub struct DeviceState {
    pub armed: bool,
    pub last_applied: Option<TextClip>,
    pub last_remote_applied: Option<TextClip>,
    pub link_key: LinkKey,
    pub sender_ephemeral_id: [u8; 16],
}

/// The fields of a Device's sync state.
pub struct DeviceModel {
    pub armed: bool,
    pub last_applied: Option<WireClip>,
    pub last_remote_applied: Option<WireClip>,
    pub link_key: Seq<u8>,
    pub sender_ephemeral_id: Seq<u8>,
}

impl View for DeviceState {
    type V = DeviceModel;

    open spec fn view(&self) -> DeviceModel {
        DeviceModel {
            armed: self.armed,
            last_applied: opt_clip(self.last_applied),
            last_remote_applied: opt_clip(self.last_remote_applied),
            link_key: self.link_key.0@,
            sender_ephemeral_id: self.sender_ephemeral_id@,
        }
    }
}

/// What a publish request turns into once the rules have been applied.
pub enum PublishStep {
    /// The Clip echoes the last remotely applied Clip: nothing is sent.
    Suppressed(ClipId),
    /// Send `message` to the relay, then record `clip` as published.
    Send { message: ClientMessage, clip: TextClip },
}

/// The Clip a publish builds: schema 1, this Device's sender id, and the image
/// only when it is within the cap.
pub open spec fn spec_build_clip(
    state: DeviceModel,
    text: Seq<char>,
    created_at: i64,
    id: Seq<u8>,
    image: Option<(Seq<u8>, Seq<char>)>,
) -> WireClip {
    WireClip {
        created_at,
        id,
        image: match image {
            Some((bytes, mime)) => if bytes.len() <= MAX_IMAGE_BYTES {
                Some((bytes, mime))
            } else {
                None
            },
            None => None,
        },
        schema_version: 1,
        sender_ephemeral_id: state.sender_ephemeral_id,
        text,
    }
}

/// `message` publishes the envelope `sealed` on channel `channel_hex`.
pub open spec fn publishes(message: ClientMessage, channel_hex: Seq<char>, sealed: SealedModel) -> bool {
    match message {
        ClientMessage::Publish { channel_id, ciphertext, nonce, protocol_version } => {
            &&& channel_id@ == channel_hex
            &&& ciphertext@ == base64_encode_spec(sealed.ciphertext)
            &&& nonce@ == base64_encode_spec(sealed.nonce)
            &&& protocol_version == sealed.protocol_version
        },
        _ => false,
    }
}

/// What applying an envelope delivered as base64 fields does: nothing while
/// Paused or when a field does not decode, the nonce is not 24 bytes, the
/// envelope does not open, the Clip is this Device's own, or it loses LWW.
pub open spec fn envelope_outcome(
    state: DeviceModel,
    ciphertext_b64: Seq<char>,
    nonce_b64: Seq<char>,
    protocol_version: u8,
) -> Option<WireClip> {
    if !state.armed {
        None
    } else {
        match (base64_decode_spec(ciphertext_b64), base64_decode_spec(nonce_b64)) {
            (Some(ct), Some(nonce)) => if nonce.len() != 24 {
                None
            } else {
                let sealed = SealedModel {
                    channel_id: spec_channel_id(state.link_key),
                    ciphertext: ct,
                    nonce,
                    protocol_version,
                };
                match spec_open(state.link_key, sealed) {
                    Ok(clip) => if clip.sender_ephemeral_id == state.sender_ephemeral_id
                        || !spec_wins_lww(state.last_applied, clip) {
                        None
                    } else {
                        Some(clip)
                    },
                    Err(_) => None,
                }
            },
            _ => None,
        }
    }
}

/// The state after applying `clip`: it becomes the last applied and the last
/// remotely applied Clip.
pub open spec fn after_apply(state: DeviceModel, clip: WireClip) -> DeviceModel {
    DeviceModel { last_applied: Some(clip), last_remote_applied: Some(clip), ..state }
}

/// An optional applied Clip seen through its view.
pub open spec fn opt_applied(r: Option<AppliedClip>) -> Option<AppliedModel> {
    match r {
        Some(a) => Some(a@),
        None => None,
    }
}

/// Publishing `clip` would echo the last remotely applied Clip.
pub open spec fn suppresses(state: DeviceModel, clip: WireClip) -> bool {
    state.last_remote_applied matches Some(rem) && is_echo(rem, clip)
}

/// What a publish returns for a given sealing result: a crypto error when
/// sealing failed, else a publish message for the envelope and the Clip to record.
pub open spec fn publish_outcome(
    r: Result<PublishStep, DeviceError>,
    sealed: Result<SealedModel, ErrorKind>,
    clip: WireClip,
    channel_hex: Seq<char>,
) -> bool {
    match sealed {
        Err(_) => r matches Err(DeviceError::Crypto(_)),
        Ok(s) => r matches Ok(PublishStep::Send { message, clip: c }) && publishes(
            message,
            channel_hex,
            s,
        ) && c@ == clip,
    }
}

/// What publishing `clip` on `channel_hex` from a Device in `state` returns:
/// `Paused` while Paused; the Clip's id, suppressed, when it echoes the last
/// remotely applied Clip; otherwise the outcome of sealing it with some
/// 24-byte nonce.
pub open spec fn publish_result(
    state: DeviceModel,
    clip: WireClip,
    channel_hex: Seq<char>,
    r: Result<PublishStep, DeviceError>,
) -> bool {
    if !state.armed {
        r matches Err(DeviceError::Paused)
    } else if suppresses(state, clip) {
        r matches Ok(PublishStep::Suppressed(id)) && id@ == clip.id
    } else {
        exists|nonce: Seq<u8>|
            nonce.len() == 24 && publish_outcome(
                r,
                #[trigger] spec_seal(state.link_key, clip, nonce),
                clip,
                channel_hex,
            )
    }
}

/// The base64 fields carry `clip` sealed under this Device's Link Key with
/// `nonce`, and the Device would accept it: Armed, not its own, and newer
/// under last-write-wins.
pub open spec fn delivers(
    state: DeviceModel,
    clip: WireClip,
    nonce: Seq<u8>,
    ciphertext_b64: Seq<char>,
    nonce_b64: Seq<char>,
) -> bool {
    &&& state.armed
    &&& sealable(clip)
    &&& nonce.len() == 24
    &&& spec_seal(state.link_key, clip, nonce) matches Ok(s)
    &&& ciphertext_b64 == base64_encode_spec(s.ciphertext)
    &&& nonce_b64 == base64_encode_spec(nonce)
    &&& clip.sender_ephemeral_id != state.sender_ephemeral_id
    &&& spec_wins_lww(state.last_applied, clip)
}

impl DeviceState {
    /// A freshly joined Device: Armed, nothing applied yet.
    pub fn new(link_key: LinkKey, sender_ephemeral_id: [u8; 16]) -> (r: DeviceState)
        ensures
            r@.armed,
            r@.last_applied is None,
            r@.last_remote_applied is None,
            r@.link_key == link_key.0@,
            r@.sender_ephemeral_id == sender_ephemeral_id@,
    {
        DeviceState {
            armed: true,
            last_applied: None,
            last_remote_applied: None,
            link_key,
            sender_ephemeral_id,
        }
    }

    /// Set Armed or Paused.
    pub fn set_armed(&mut self, armed: bool)
        ensures
            final(self)@ == (DeviceModel { armed, ..old(self)@ }),
    {
        self.armed = armed;
    }

    /// Build the Clip for a local clipboard change; an image above
    /// `MAX_IMAGE_BYTES` is left out while the text still syncs.
    pub fn build_clip(
        &self,
        text: &str,
        created_at: i64,
        id: ClipId,
        image: Option<(Vec<u8>, String)>,
    ) -> (r: TextClip)
        ensures
            r@ == spec_build_clip(
                self@,
                text@,
                created_at,
                id@,
                match image {
                    Some((b, m)) => Some((b@, m@)),
                    None => None,
                },
            ),
    {
        let image = match image {
            Some((bytes, mime)) => {
                if bytes.len() <= MAX_IMAGE_BYTES {
                    Some(ClipImage { bytes, mime })
                } else {
                    None
                }
            },
            None => None,
        };
        TextClip {
            created_at,
            id,
            image,
            schema_version: 1,
            sender_ephemeral_id: self.sender_ephemeral_id,
            text: text.to_owned(),
        }
    }

    /// Build the Clip for a local clipboard change under a fresh random id.
    pub fn build_clip_with_fresh_id(
        &self,
        text: &str,
        created_at: i64,
        image: Option<(Vec<u8>, String)>,
    ) -> (r: TextClip)
        ensures
            is_fresh_clip_id(r@.id),
            r@ == spec_build_clip(
                self@,
                text@,
                created_at,
                r@.id,
                match image {
                    Some((b, m)) => Some((b@, m@)),
                    None => None,
                },
            ),
    {
        let id = random_clip_id();
        self.build_clip(text, created_at, id, image)
    }

    /// Decide what publishing `clip` on `channel_hex` does: refused while
    /// Paused, suppressed when it echoes the last remotely applied Clip,
    /// otherwise sealed with a fresh nonce into a publish message.
    pub fn handle_publish(&self, channel_hex: &str, clip: TextClip) -> (r: Result<PublishStep, DeviceError>)
        ensures
            !self.armed ==> r matches Err(DeviceError::Paused),
            self.armed && suppresses(self@, clip@) ==> (r matches Ok(PublishStep::Suppressed(id))
                && id == clip.id),
            self.armed && !suppresses(self@, clip@) ==> exists|nonce: Seq<u8>|
                nonce.len() == 24 && publish_outcome(
                    r,
                    #[trigger] spec_seal(self.link_key.0@, clip@, nonce),
                    clip@,
                    channel_hex@,
                ),
            publish_result(self@, clip@, channel_hex@, r),
    {
        if !self.armed {
            return Err(DeviceError::Paused);
        }
        match &self.last_remote_applied {
            Some(remote) => {
                if bytes_equal(remote.id.as_slice(), clip.id.as_slice()) || (remote.text == clip.text
                    && remote.created_at == clip.created_at) {
                    return Ok(PublishStep::Suppressed(clip.id));
                }
            },
            None => {},
        }
        let sealed_r = Envelope::seal(&self.link_key, &clip);
        let ghost n = choose|nonce: Seq<u8>|
            nonce.len() == 24 && #[trigger] spec_seal(self.link_key.0@, clip@, nonce)
                == sealed_result_view(sealed_r);
        let ghost clip_v = clip@;
        match sealed_r {
            Err(e) => {
                let r = Err(DeviceError::Crypto(e.message()));
                assert(publish_outcome(r, spec_seal(self.link_key.0@, clip_v, n), clip_v, channel_hex@));
                r
            },
            Ok(sealed) => {
                let message = ClientMessage::Publish {
                    channel_id: channel_hex.to_owned(),
                    ciphertext: base64_encode(sealed.ciphertext.as_slice()),
                    nonce: base64_encode(sealed.nonce.as_slice()),
                    protocol_version: sealed.protocol_version,
                };
                let r = Ok(PublishStep::Send { message, clip });
                assert(publish_outcome(r, spec_seal(self.link_key.0@, clip_v, n), clip_v, channel_hex@));
                r
            },
        }
    }

    /// Record that `clip` was sent to the relay: it becomes the last applied Clip.
    pub fn record_published(&mut self, clip: TextClip)
        ensures
            final(self)@ == (DeviceModel { last_applied: Some(clip@), ..old(self)@ }),
    {
        self.last_applied = Some(clip);
    }

    /// Apply an envelope delivered as base64 fields: decrypt it with the Link
    /// Key, drop it while Paused, when it is this Device's own Clip or when it
    /// loses last-write-wins; otherwise remember it and hand it to the Shell.
    #[verifier::rlimit(40)]
    pub fn handle_envelope(&mut self, ciphertext_b64: &str, nonce_b64: &str, protocol_version: u8) -> (r: Option<AppliedClip>)
        ensures
            opt_applied(r) == match envelope_outcome(old(self)@, ciphertext_b64@, nonce_b64@, protocol_version) {
                Some(c) => Some(applied_of(c)),
                None => None,
            },
            final(self)@ == match envelope_outcome(old(self)@, ciphertext_b64@, nonce_b64@, protocol_version) {
                Some(c) => after_apply(old(self)@, c),
                None => old(self)@,
            },
            forall|clip: WireClip, nonce: Seq<u8>|
                #[trigger] delivers(old(self)@, clip, nonce, ciphertext_b64@, nonce_b64@)
                    ==> opt_applied(r) == Some(applied_of(clip)),
    {
        if !self.armed {
            return None;
        }
        let ct = match base64_decode(ciphertext_b64) {
            Some(ct) => ct,
            None => return None,
        };
        let nonce_bytes = match base64_decode(nonce_b64) {
            Some(n) => n,
            None => return None,
        };
        if nonce_bytes.len() != 24 {
            return None;
        }
        let nonce: [u8; 24] = vec_to_array(&nonce_bytes);
        let sealed = SealedEnvelope {
            channel_id: derive_channel_id(&self.link_key),
            ciphertext: ct,
            nonce,
            protocol_version,
        };
        let clip = match Envelope::open(&self.link_key, &sealed) {
            Ok(c) => c,
            Err(_) => return None,
        };
        if bytes_equal(clip.sender_ephemeral_id.as_slice(), self.sender_ephemeral_id.as_slice()) {
            return None;
        }
        if !wins_lww(self.last_applied.as_ref(), &clip) {
            return None;
        }
        let copy = clip.copied();
        let applied = AppliedClip {
            created_at: copy.created_at,
            id: copy.id,
            image: copy.image,
            text: copy.text,
        };
        self.last_remote_applied = Some(clip.copied());
        self.last_applied = Some(clip);
        Some(applied)
    }

    /// Act on a relay message: an envelope may be applied; an empty snapshot
    /// or an error changes nothing.
    pub fn handle_server_message(&mut self, msg: &ServerMessage) -> (r: Option<AppliedClip>)
        ensures
            match msg {
                ServerMessage::Envelope { ciphertext, nonce, protocol_version, .. } => {
                    &&& opt_applied(r) == match envelope_outcome(old(self)@, ciphertext@, nonce@, *protocol_version) {
                        Some(c) => Some(applied_of(c)),
                        None => None,
                    }
                    &&& final(self)@ == match envelope_outcome(old(self)@, ciphertext@, nonce@, *protocol_version) {
                        Some(c) => after_apply(old(self)@, c),
                        None => old(self)@,
                    }
                },
                _ => r is None && final(self)@ == old(self)@,
            },
    {
        match msg {
            ServerMessage::Envelope { ciphertext, nonce, protocol_version, .. } => {
                self.handle_envelope(ciphertext.as_str(), nonce.as_str(), *protocol_version)
            },
            _ => None,
        }
    }
}

/// Re-delivery is harmless: once an envelope was applied, delivering the same
/// envelope again applies nothing.
pub proof fn lemma_redelivery_applies_nothing(
    state: DeviceModel,
    ciphertext_b64: Seq<char>,
    nonce_b64: Seq<char>,
    protocol_version: u8,
)
    requires
        envelope_outcome(state, ciphertext_b64, nonce_b64, protocol_version) is Some,
    ensures
        envelope_outcome(
            after_apply(state, envelope_outcome(state, ciphertext_b64, nonce_b64, protocol_version)->0),
            ciphertext_b64,
            nonce_b64,
            protocol_version,
        ) is None,
{
    lemma_lww_rejects_same_clip(envelope_outcome(state, ciphertext_b64, nonce_b64, protocol_version)->0);
}

/// A Paused Device applies nothing, whatever it is sent.
pub proof fn lemma_paused_applies_nothing(
    state: DeviceModel,
    ciphertext_b64: Seq<char>,
    nonce_b64: Seq<char>,
    protocol_version: u8,
)
    requires
        !state.armed,
    ensures
        envelope_outcome(state, ciphertext_b64, nonce_b64, protocol_version) is None,
{
}

/// A Device never applies a Clip that carries its own sender id.
pub proof fn lemma_own_clip_not_applied(
    state: DeviceModel,
    ciphertext_b64: Seq<char>,
    nonce_b64: Seq<char>,
    protocol_version: u8,
)
    ensures
        envelope_outcome(state, ciphertext_b64, nonce_b64, protocol_version) matches Some(c)
            ==> c.sender_ephemeral_id != state.sender_ephemeral_id,
{
}

/// Echo suppression: once a remote Clip is applied, publishing that Clip
/// back (as a Shell does when it writes it into the clipboard) is suppressed.
pub proof fn lemma_applied_clip_not_rebroadcast(state: DeviceModel, clip: WireClip)
    ensures
        suppresses(after_apply(state, clip), clip),
{
}

/// End to end: the publish message one Device sends carries exactly what
/// another Armed Device of the same Sync Group applies, when the Clip is not
/// that Device's own and wins last-write-wins there.
pub proof fn lemma_published_clip_delivers(
    publisher: DeviceModel,
    receiver: DeviceModel,
    clip: WireClip,
    nonce: Seq<u8>,
    r: Result<PublishStep, DeviceError>,
    channel_hex: Seq<char>,
)
    requires
        publish_outcome(r, spec_seal(publisher.link_key, clip, nonce), clip, channel_hex),
        r is Ok,
        nonce.len() == 24,
        sealable(clip),
        receiver.armed,
        receiver.link_key == publisher.link_key,
        clip.sender_ephemeral_id != receiver.sender_ephemeral_id,
        spec_wins_lww(receiver.last_applied, clip),
    ensures
        r matches Ok(PublishStep::Send { message: ClientMessage::Publish { ciphertext, nonce: nonce_b64, .. }, .. })
            && delivers(receiver, clip, nonce, ciphertext@, nonce_b64@),
{
}

/// Pause, then Arm again: while Paused a Device applies nothing (and
/// `handle_publish` refuses with `Paused`), so its sync state is left as it
/// was; once Armed again it applies exactly what it would have applied had it
/// never paused, in particular every Clip that `delivers` to it.
pub proof fn lemma_paused_then_armed(
    state: DeviceModel,
    ciphertext_b64: Seq<char>,
    nonce_b64: Seq<char>,
    protocol_version: u8,
    clip: WireClip,
    nonce: Seq<u8>,
)
    ensures
        envelope_outcome(DeviceModel { armed: false, ..state }, ciphertext_b64, nonce_b64, protocol_version)
            is None,
        !delivers(DeviceModel { armed: false, ..state }, clip, nonce, ciphertext_b64, nonce_b64),
        (DeviceModel { armed: true, ..DeviceModel { armed: false, ..state } }) == (DeviceModel {
            armed: true,
            ..state
        }),
        envelope_outcome(
            DeviceModel { armed: true, ..DeviceModel { armed: false, ..state } },
            ciphertext_b64,
            nonce_b64,
            protocol_version,
        ) == envelope_outcome(DeviceModel { armed: true, ..state }, ciphertext_b64, nonce_b64, protocol_version),
        delivers(
            DeviceModel { armed: true, ..DeviceModel { armed: false, ..state } },
            clip,
            nonce,
            ciphertext_b64,
            nonce_b64,
        ) == delivers(DeviceModel { armed: true, ..state }, clip, nonce, ciphertext_b64, nonce_b64),
{
}

} // verus!
