//! The relay's message rules: how a publish request is checked and buffered,
//! how buffer events become server messages, and how a subscribe request is
//! answered. The WebSocket plumbing around them lives with the relay binary.
use crate::encoding::{base64_decode, base64_decode_spec, base64_encode, base64_encode_spec};
use crate::messages::ServerMessage;
use crate::relay::{
    after_read, elapsed_reading, snapshot_of, valid_channel_id, wall_clock_reading, BufferEvent,
    ChannelBuffer, EntryModel, PublishError, StoredEnvelope, StoredModel, MAX_CIPHERTEXT_BYTES,
    is_valid_channel_id, wall_clock_ms,
};
use crate::cbor::WireClip;
use crate::device::{
    delivers, envelope_outcome, publish_outcome, publish_result, spec_wins_lww, DeviceError,
    DeviceModel, PublishStep,
};
use crate::envelope::{sealable, spec_seal};
use crate::text::str_equal;
use vstd::prelude::*;

verus! {

/// `r` is a `bad_request` error with message `message`.
pub open spec fn bad_request(r: ServerMessage, message: Seq<char>) -> bool {
    r matches ServerMessage::Error { code, message: m } && code@ == "bad_request"@ && m@ == message
}

fn bad_request_error(message: &str) -> (r: ServerMessage)
    ensures
        bad_request(r, message@),
{
    ServerMessage::Error { code: "bad_request".to_owned(), message: message.to_owned() }
}

/// A `bad_request` error for a frame that is not a valid client message.
pub fn invalid_json_error() -> (r: ServerMessage)
    ensures
        bad_request(r, "invalid json"@),
{
    bad_request_error("invalid json")
}

/// The effect of a publish request whose base64 fields decoded to `ciphertext`
/// and `nonce` (`None` where a field did not decode): each refusal is a
/// `bad_request` error that leaves the buffer unchanged; otherwise the
/// buffer's publish takes place.
pub open spec fn relay_publish_effect(
    slots: Map<Seq<char>, EntryModel>,
    ttl: u64,
    channel_id: Seq<char>,
    protocol_version: u8,
    ciphertext: Option<Seq<u8>>,
    nonce: Option<Seq<u8>>,
    now: u64,
    at: i64,
    r: Result<StoredEnvelope, ServerMessage>,
    new_slots: Map<Seq<char>, EntryModel>,
) -> bool {
    match (ciphertext, nonce) {
        (None, _) => r matches Err(e) && bad_request(e, "invalid ciphertext base64"@) && new_slots
            == slots,
        (Some(_), None) => r matches Err(e) && bad_request(e, "invalid nonce base64"@) && new_slots
            == slots,
        (Some(ct), Some(n)) => if ct.len() > MAX_CIPHERTEXT_BYTES {
            r matches Err(e) && bad_request(e, "ciphertext too large"@) && new_slots == slots
        } else if !valid_channel_id(channel_id) {
            r matches Err(e) && bad_request(e, "invalid channel_id"@) && new_slots == slots
        } else {
            let stored = StoredModel {
                channel_id,
                ciphertext: ct,
                nonce: n,
                protocol_version,
                published_at_ms: at,
            };
            &&& r matches Ok(env) && env@ == stored
            &&& new_slots == slots.insert(
                channel_id,
                EntryModel { envelope: stored, expires_at_ms: crate::relay::expiry(now, ttl) },
            )
        },
    }
}

/// Check a publish request and buffer its envelope at time `now_ms`, stamped
/// `published_at_ms`; a refusal is the error message to send back.
pub fn handle_publish_at(
    buffer: &mut ChannelBuffer,
    channel_id: String,
    ciphertext_b64: String,
    nonce_b64: String,
    protocol_version: u8,
    now_ms: u64,
    published_at_ms: i64,
) -> (r: Result<StoredEnvelope, ServerMessage>)
    ensures
        relay_publish_effect(
            old(buffer).slots(),
            old(buffer).ttl(),
            channel_id@,
            protocol_version,
            base64_decode_spec(ciphertext_b64@),
            base64_decode_spec(nonce_b64@),
            now_ms,
            published_at_ms,
            r,
            final(buffer).slots(),
        ),
        forall|ct: Seq<u8>, n: Seq<u8>|
            #![trigger base64_encode_spec(ct), base64_encode_spec(n)]
            base64_encode_spec(ct) == ciphertext_b64@ && base64_encode_spec(n) == nonce_b64@
                ==> relay_publish_effect(
                old(buffer).slots(),
                old(buffer).ttl(),
                channel_id@,
                protocol_version,
                Some(ct),
                Some(n),
                now_ms,
                published_at_ms,
                r,
                final(buffer).slots(),
            ),
        final(buffer).ttl() == old(buffer).ttl(),
        final(buffer).clock_origin() == old(buffer).clock_origin(),
{
    let ciphertext = match base64_decode(ciphertext_b64.as_str()) {
        Some(c) => c,
        None => return Err(bad_request_error("invalid ciphertext base64")),
    };
    let nonce = match base64_decode(nonce_b64.as_str()) {
        Some(n) => n,
        None => return Err(bad_request_error("invalid nonce base64")),
    };
    if ciphertext.len() > MAX_CIPHERTEXT_BYTES {
        return Err(bad_request_error("ciphertext too large"));
    }
    match buffer.publish_at(channel_id, protocol_version, nonce, ciphertext, now_ms, published_at_ms) {
        Ok(stored) => Ok(stored),
        Err(PublishError::BadChannel) => Err(bad_request_error("invalid channel_id")),
        Err(PublishError::TooLarge) => Err(bad_request_error("ciphertext too large")),
    }
}

/// `r` is the server message for buffer event `event`: an empty snapshot, or
/// the envelope with its bytes in base64.
pub open spec fn server_message_of(event: BufferEvent, r: ServerMessage) -> bool {
    match event {
        BufferEvent::Empty { channel_id } => r matches ServerMessage::Empty { channel_id: c } && c@
            == channel_id@,
        BufferEvent::Envelope(env) => r matches ServerMessage::Envelope {
            channel_id,
            ciphertext,
            nonce,
            protocol_version,
            published_at,
        } && channel_id@ == env.channel_id@ && ciphertext@ == base64_encode_spec(env.ciphertext@)
            && nonce@ == base64_encode_spec(env.nonce@) && protocol_version == env.protocol_version
            && published_at == env.published_at_ms,
    }
}

/// The server message for a buffer event (every event has one).
pub fn event_to_server(event: BufferEvent) -> (r: Option<ServerMessage>)
    ensures
        r matches Some(m) && server_message_of(event, m),
{
    match event {
        BufferEvent::Empty { channel_id } => Some(ServerMessage::Empty { channel_id }),
        BufferEvent::Envelope(env) => Some(
            ServerMessage::Envelope {
                ciphertext: base64_encode(env.ciphertext.as_slice()),
                nonce: base64_encode(env.nonce.as_slice()),
                protocol_version: env.protocol_version,
                published_at: env.published_at_ms,
                channel_id: env.channel_id,
            },
        ),
    }
}

/// The answer to a subscribe request at time `now_ms`: a `bad_request` error
/// for an invalid channel id, else the channel's snapshot.
pub fn subscribe_reply_at(buffer: &mut ChannelBuffer, channel_id: &str, now_ms: u64) -> (r: ServerMessage)
    ensures
        !valid_channel_id(channel_id@) ==> bad_request(r, "invalid channel_id"@) && final(buffer).slots()
            == old(buffer).slots(),
        valid_channel_id(channel_id@) ==> (exists|event: BufferEvent|
            #[trigger] snapshot_of(event, old(buffer).slots(), channel_id@, now_ms)
                && server_message_of(event, r)) && final(buffer).slots() == after_read(
            old(buffer).slots(),
            channel_id@,
            now_ms,
        ),
        final(buffer).ttl() == old(buffer).ttl(),
        final(buffer).clock_origin() == old(buffer).clock_origin(),
{
    if !is_valid_channel_id(channel_id) {
        return bad_request_error("invalid channel_id");
    }
    let event = buffer.snapshot_event_at(channel_id, now_ms);
    let ghost ev = event;
    match event_to_server(event) {
        Some(m) => {
            assert(snapshot_of(ev, old(buffer).slots(), channel_id@, now_ms) && server_message_of(ev, m));
            m
        },
        None => bad_request_error("invalid channel_id"),
    }
}

/// Check a publish request and buffer its envelope now; a refusal is the
/// error message to send back.
pub fn handle_publish(
    buffer: &mut ChannelBuffer,
    channel_id: String,
    ciphertext_b64: String,
    nonce_b64: String,
    protocol_version: u8,
) -> (r: Result<StoredEnvelope, ServerMessage>)
    ensures
        exists|now: u64, at: i64|
            #[trigger] relay_publish_effect(
                old(buffer).slots(),
                old(buffer).ttl(),
                channel_id@,
                protocol_version,
                base64_decode_spec(ciphertext_b64@),
                base64_decode_spec(nonce_b64@),
                now,
                at,
                r,
                final(buffer).slots(),
            ) && old(buffer).clock_reads(now) && wall_clock_reading(at),
        final(buffer).ttl() == old(buffer).ttl(),
        final(buffer).clock_origin() == old(buffer).clock_origin(),
{
    let now = buffer.clock_ms();
    let at = wall_clock_ms();
    handle_publish_at(buffer, channel_id, ciphertext_b64, nonce_b64, protocol_version, now, at)
}

/// The answer to a subscribe request now: a `bad_request` error for an
/// invalid channel id, else the channel's snapshot.
pub fn subscribe_reply(buffer: &mut ChannelBuffer, channel_id: &str) -> (r: ServerMessage)
    ensures
        !valid_channel_id(channel_id@) ==> bad_request(r, "invalid channel_id"@) && final(buffer).slots()
            == old(buffer).slots(),
        valid_channel_id(channel_id@) ==> exists|now: u64, event: BufferEvent|
            #[trigger] snapshot_of(event, old(buffer).slots(), channel_id@, now) && server_message_of(
                event,
                r,
            ) && final(buffer).slots() == after_read(old(buffer).slots(), channel_id@, now)
                && old(buffer).clock_reads(now),
        final(buffer).ttl() == old(buffer).ttl(),
        final(buffer).clock_origin() == old(buffer).clock_origin(),
{
    let now = buffer.clock_ms();
    subscribe_reply_at(buffer, channel_id, now)
}

/// No channel occurs twice in `s`.
pub open spec fn each_once(s: Seq<Seq<char>>) -> bool {
    forall|i: int, j: int| 0 <= i < s.len() && 0 <= j < s.len() && i != j ==> s[i] != s[j]
}

/// The channels one relay connection is subscribed to, each once. A channel's
/// live updates are forwarded to the connection from its first subscribe on;
/// a second subscribe to it only answers with a snapshot.
pub struct Subscriptions {
    channels: Vec<String>,
}

impl Subscriptions {
    /// The subscribed channels, in the order they were subscribed.
    closed spec fn names(&self) -> Seq<Seq<char>> {
        self.channels@.map_values(|c: String| c@)
    }

    #[verifier::type_invariant]
    closed spec fn channels_once(&self) -> bool {
        each_once(self.names())
    }

    /// No channel subscribed yet.
    pub fn new() -> (r: Subscriptions)
        ensures
            r@ == Set::<Seq<char>>::empty(),
    {
        let r = Subscriptions { channels: Vec::new() };
        assert(r@ =~= Set::<Seq<char>>::empty());
        r
    }

    /// Position of `channel_id` among the subscribed channels, if any.
    fn position(&self, channel_id: &str) -> (r: Option<usize>)
        ensures
            match r {
                Some(i) => i < self.names().len() && self.names()[i as int] == channel_id@,
                None => !self.names().contains(channel_id@),
            },
    {
        let mut i: usize = 0;
        while i < self.channels.len()
            invariant
                i <= self.channels@.len(),
                forall|j: int| 0 <= j < i ==> (#[trigger] self.names()[j]) != channel_id@,
            decreases self.channels@.len() - i,
        {
            if str_equal(self.channels[i].as_str(), channel_id) {
                return Some(i);
            }
            i = i + 1;
        }
        None
    }

    /// Subscribe to `channel_id`: `true` when it was not subscribed yet (its
    /// live updates are to be forwarded from now on), `false` when it already
    /// was.
    pub fn subscribe(&mut self, channel_id: &str) -> (added: bool)
        ensures
            added == !old(self)@.contains(channel_id@),
            final(self)@ == old(self)@.insert(channel_id@),
    {
        proof {
            use_type_invariant(&*self);
        }
        let ghost old_names = self.names();
        match self.position(channel_id) {
            Some(_) => {
                assert(self@ =~= self@.insert(channel_id@));
                false
            },
            None => {
                let mut channels: Vec<String> = Vec::new();
                std::mem::swap(&mut channels, &mut self.channels);
                channels.push(channel_id.to_owned());
                assert(channels@.map_values(|c: String| c@) =~= old_names.push(channel_id@));
                self.channels = channels;
                assert(self@ =~= old(self)@.insert(channel_id@)) by {
                    assert forall|c: Seq<char>| self@.contains(c) <==> old(self)@.insert(channel_id@).contains(c) by {
                        if old_names.push(channel_id@).contains(c) && c != channel_id@ {
                            let k = choose|k: int| 0 <= k < old_names.push(channel_id@).len()
                                && old_names.push(channel_id@)[k] == c;
                            assert(old_names[k] == c);
                        }
                        if old_names.contains(c) {
                            let k = choose|k: int| 0 <= k < old_names.len() && old_names[k] == c;
                            assert(old_names.push(channel_id@)[k] == c);
                        }
                        if c == channel_id@ {
                            assert(old_names.push(channel_id@)[old_names.len() as int] == c);
                        }
                    }
                }
                true
            },
        }
    }

    /// Unsubscribe from `channel_id` (nothing changes when it was not subscribed).
    pub fn unsubscribe(&mut self, channel_id: &str)
        ensures
            final(self)@ == old(self)@.remove(channel_id@),
    {
        proof {
            use_type_invariant(&*self);
        }
        let ghost old_names = self.names();
        match self.position(channel_id) {
            Some(i) => {
                let mut channels: Vec<String> = Vec::new();
                std::mem::swap(&mut channels, &mut self.channels);
                let _gone = channels.remove(i);
                let ghost new_names = old_names.remove(i as int);
                assert(channels@.map_values(|c: String| c@) =~= new_names);
                assert(each_once(new_names)) by {
                    assert forall|a: int, b: int| 0 <= a < new_names.len() && 0 <= b < new_names.len() && a != b
                        implies new_names[a] != new_names[b] by {
                        let a0 = if a < i { a } else { a + 1 };
                        let b0 = if b < i { b } else { b + 1 };
                        assert(new_names[a] == old_names[a0]);
                        assert(new_names[b] == old_names[b0]);
                    }
                }
                self.channels = channels;
                assert(self@ =~= old(self)@.remove(channel_id@)) by {
                    assert forall|c: Seq<char>| self@.contains(c) <==> old(self)@.remove(channel_id@).contains(c) by {
                        if new_names.contains(c) {
                            let k = choose|k: int| 0 <= k < new_names.len() && new_names[k] == c;
                            let k0 = if k < i { k } else { k + 1 };
                            assert(old_names[k0] == c);
                            assert(k0 != i);
                        }
                        if old_names.contains(c) && c != channel_id@ {
                            let k = choose|k: int| 0 <= k < old_names.len() && old_names[k] == c;
                            assert(k != i);
                            let k1 = if k < i { k } else { k - 1 };
                            assert(new_names[k1] == c);
                        }
                    }
                }
            },
            None => {
                assert(self@ =~= self@.remove(channel_id@));
            },
        }
    }
}

impl View for Subscriptions {
    type V = Set<Seq<char>>;

    /// The subscribed channels.
    closed spec fn view(&self) -> Set<Seq<char>> {
        Set::new(|c: Seq<char>| self.names().contains(c))
    }
}

/// The relay forwards what was published unchanged: after it accepts a publish
/// whose fields are the base64 of `ciphertext` and `nonce`, a subscriber's
/// snapshot of that channel, while the envelope lives, carries those same
/// base64 fields and protocol version.
pub proof fn lemma_relay_forwards_publish(
    slots: Map<Seq<char>, EntryModel>,
    ttl: u64,
    channel_id: Seq<char>,
    protocol_version: u8,
    ciphertext: Seq<u8>,
    nonce: Seq<u8>,
    now: u64,
    at: i64,
    r: Result<StoredEnvelope, ServerMessage>,
    new_slots: Map<Seq<char>, EntryModel>,
    later: u64,
    event: BufferEvent,
    m: ServerMessage,
)
    requires
        relay_publish_effect(
            slots,
            ttl,
            channel_id,
            protocol_version,
            Some(ciphertext),
            Some(nonce),
            now,
            at,
            r,
            new_slots,
        ),
        r is Ok,
        later < crate::relay::expiry(now, ttl),
        snapshot_of(event, new_slots, channel_id, later),
        server_message_of(event, m),
    ensures
        m matches ServerMessage::Envelope { channel_id: c, ciphertext: ct, nonce: n, protocol_version: v, .. }
            && c@ == channel_id && ct@ == base64_encode_spec(ciphertext) && n@ == base64_encode_spec(nonce)
            && v == protocol_version,
{
}

/// End to end through the relay: when one Device's publish message is
/// accepted by the relay (its base64 fields decoding to the sealed
/// ciphertext and nonce), a subscriber's snapshot of the channel, while the
/// envelope lives, carries exactly what another Armed Device of the same Sync
/// Group applies, when the Clip is not that Device's own and wins
/// last-write-wins there.
pub proof fn lemma_clip_reaches_other_device(
    publisher: DeviceModel,
    receiver: DeviceModel,
    clip: WireClip,
    nonce: Seq<u8>,
    r: Result<PublishStep, DeviceError>,
    channel_hex: Seq<char>,
    slots: Map<Seq<char>, EntryModel>,
    ttl: u64,
    now: u64,
    at: i64,
    accepted: Result<StoredEnvelope, ServerMessage>,
    new_slots: Map<Seq<char>, EntryModel>,
    later: u64,
    event: BufferEvent,
    m: ServerMessage,
)
    requires
        publish_outcome(r, spec_seal(publisher.link_key, clip, nonce), clip, channel_hex),
        r is Ok,
        nonce.len() == 24,
        sealable(clip),
        relay_publish_effect(
            slots,
            ttl,
            channel_hex,
            1,
            Some(spec_seal(publisher.link_key, clip, nonce)->Ok_0.ciphertext),
            Some(nonce),
            now,
            at,
            accepted,
            new_slots,
        ),
        accepted is Ok,
        later < crate::relay::expiry(now, ttl),
        snapshot_of(event, new_slots, channel_hex, later),
        server_message_of(event, m),
        receiver.armed,
        receiver.link_key == publisher.link_key,
        clip.sender_ephemeral_id != receiver.sender_ephemeral_id,
        spec_wins_lww(receiver.last_applied, clip),
    ensures
        m matches ServerMessage::Envelope { ciphertext, nonce: nonce_b64, .. } && delivers(
            receiver,
            clip,
            nonce,
            ciphertext@,
            nonce_b64@,
        ),
{
    let ct = spec_seal(publisher.link_key, clip, nonce)->Ok_0.ciphertext;
    lemma_relay_forwards_publish(
        slots,
        ttl,
        channel_hex,
        1,
        ct,
        nonce,
        now,
        at,
        accepted,
        new_slots,
        later,
        event,
        m,
    );
}

/// A Paused Device neither publishes nor applies until it is Armed again.
/// Device `b` of the Sync Group of Device `a` is set Paused: a publish from
/// it is refused with `Paused`, and the relay's delivery of a Clip that `a`
/// published (accepted by the relay, read from a snapshot of the channel while
/// the envelope lives) applies nothing there, so its sync state stays as it
/// was. Once `b` is set Armed again, that delivery is applied, when the Clip
/// is not `b`'s own and wins last-write-wins there.
pub proof fn lemma_paused_device_neither_publishes_nor_applies(
    a: DeviceModel,
    b: DeviceModel,
    own_clip: WireClip,
    own_r: Result<PublishStep, DeviceError>,
    clip: WireClip,
    nonce: Seq<u8>,
    r: Result<PublishStep, DeviceError>,
    channel_hex: Seq<char>,
    slots: Map<Seq<char>, EntryModel>,
    ttl: u64,
    now: u64,
    at: i64,
    accepted: Result<StoredEnvelope, ServerMessage>,
    new_slots: Map<Seq<char>, EntryModel>,
    later: u64,
    event: BufferEvent,
    m: ServerMessage,
)
    requires
        publish_result(DeviceModel { armed: false, ..b }, own_clip, channel_hex, own_r),
        publish_outcome(r, spec_seal(a.link_key, clip, nonce), clip, channel_hex),
        r is Ok,
        nonce.len() == 24,
        sealable(clip),
        relay_publish_effect(
            slots,
            ttl,
            channel_hex,
            1,
            Some(spec_seal(a.link_key, clip, nonce)->Ok_0.ciphertext),
            Some(nonce),
            now,
            at,
            accepted,
            new_slots,
        ),
        accepted is Ok,
        later < crate::relay::expiry(now, ttl),
        snapshot_of(event, new_slots, channel_hex, later),
        server_message_of(event, m),
        b.link_key == a.link_key,
        clip.sender_ephemeral_id != b.sender_ephemeral_id,
        spec_wins_lww(b.last_applied, clip),
    ensures
        own_r matches Err(DeviceError::Paused),
        m matches ServerMessage::Envelope { ciphertext, nonce: nonce_b64, protocol_version, .. } && {
            &&& envelope_outcome(DeviceModel { armed: false, ..b }, ciphertext@, nonce_b64@, protocol_version)
                is None
            &&& delivers(
                DeviceModel { armed: true, ..DeviceModel { armed: false, ..b } },
                clip,
                nonce,
                ciphertext@,
                nonce_b64@,
            )
        },
{
    let rearmed = DeviceModel { armed: true, ..DeviceModel { armed: false, ..b } };
    lemma_clip_reaches_other_device(
        a,
        rearmed,
        clip,
        nonce,
        r,
        channel_hex,
        slots,
        ttl,
        now,
        at,
        accepted,
        new_slots,
        later,
        event,
        m,
    );
}

/// A subscribe made at least the TTL after an accepted publish answers
/// `empty`: when `handle_publish` accepted an envelope on `channel_id` with
/// the buffer's clock reading `now_p` (turning `before` into `after`), and a
/// subscribe to that channel reads the same clock at `now_s`, no earlier than
/// `now_p` plus the TTL, its snapshot (the answer of `subscribe_reply`) is
/// `empty` for that channel: the envelope expired and is not handed out.
pub proof fn lemma_subscribe_a_ttl_after_publish_answers_empty(
    before: ChannelBuffer,
    after: ChannelBuffer,
    channel_id: Seq<char>,
    protocol_version: u8,
    ciphertext: Option<Seq<u8>>,
    nonce: Option<Seq<u8>>,
    now_p: u64,
    at: i64,
    accepted: Result<StoredEnvelope, ServerMessage>,
    now_s: u64,
    event: BufferEvent,
    m: ServerMessage,
)
    requires
        relay_publish_effect(
            before.slots(),
            before.ttl(),
            channel_id,
            protocol_version,
            ciphertext,
            nonce,
            now_p,
            at,
            accepted,
            after.slots(),
        ),
        accepted is Ok,
        before.clock_reads(now_p),
        after.clock_origin() == before.clock_origin(),
        after.clock_reads(now_s),
        now_s >= now_p + before.ttl(),
        snapshot_of(event, after.slots(), channel_id, now_s),
        server_message_of(event, m),
    ensures
        m matches ServerMessage::Empty { channel_id: c } && c@ == channel_id,
        elapsed_reading(before.clock_origin(), now_p) && elapsed_reading(before.clock_origin(), now_s),
{
}

} // verus!
