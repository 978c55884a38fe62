//! The relay's latest-only, per-channel envelope buffer with a TTL. The relay
//! never decrypts: it keeps at most one opaque envelope per channel.
use crate::bytes::copy_bytes;
use crate::text::str_equal;
use std::time::{Duration, Instant, SystemTime, UNIX_EPOCH};
use vstd::prelude::*;
use vstd::utf8::encode_utf8;

verus! {

/// Soft ciphertext size cap: 6 MiB (fits a ~5 MiB encoded Clip image plus AEAD overhead).
pub const MAX_CIPHERTEXT_BYTES: usize = 6 * 1024 * 1024;

/// Default buffer TTL in milliseconds (15 minutes).
pub const DEFAULT_TTL_MS: u64 = 900000;

/// Opaque envelope stored by the relay (ciphertext fields only).
#[derive(Clone, Debug)]
pub struct StoredEnvelope {
    pub channel_id: String,
    pub ciphertext: Vec<u8>,
    pub nonce: Vec<u8>,
    pub protocol_version: u8,
    pub published_at_ms: i64,
}

/// The fields of a stored envelope.
pub struct StoredModel {
    pub channel_id: Seq<char>,
    pub ciphertext: Seq<u8>,
    pub nonce: Seq<u8>,
    pub protocol_version: u8,
    pub published_at_ms: i64,
}

impl View for StoredEnvelope {
    type V = StoredModel;

    open spec fn view(&self) -> StoredModel {
        StoredModel {
            channel_id: self.channel_id@,
            ciphertext: self.ciphertext@,
            nonce: self.nonce@,
            protocol_version: self.protocol_version,
            published_at_ms: self.published_at_ms,
        }
    }
}

impl StoredEnvelope {
    /// A copy of this envelope with the same fields.
    pub fn copied(&self) -> (r: StoredEnvelope)
        ensures
            r@ == self@,
    {
        StoredEnvelope {
            channel_id: self.channel_id.clone(),
            ciphertext: copy_bytes(self.ciphertext.as_slice()),
            nonce: copy_bytes(self.nonce.as_slice()),
            protocol_version: self.protocol_version,
            published_at_ms: self.published_at_ms,
        }
    }
}

/// Events fanned out to channel subscribers.
#[derive(Clone, Debug)]
pub enum BufferEvent {
    Empty { channel_id: String },
    Envelope(StoredEnvelope),
}

/// Why the buffer refused a publish.
#[derive(Debug, PartialEq, Eq, Structural)]
pub enum PublishError {
    BadChannel,
    TooLarge,
}

/// A lowercase hexadecimal digit byte: `0`-`9` or `a`-`f`.
pub open spec fn is_lower_hex_byte(b: u8) -> bool {
    (48 <= b && b <= 57) || (97 <= b && b <= 102)
}

/// A channel id is exactly 32 bytes of lowercase hex.
pub open spec fn valid_channel_id(id: Seq<char>) -> bool {
    let b = encode_utf8(id);
    &&& b.len() == 32
    &&& forall|i: int| 0 <= i < b.len() ==> is_lower_hex_byte(#[trigger] b[i])
}

/// Whether `id` is a valid channel id: 32 lowercase hex characters.
pub fn is_valid_channel_id(id: &str) -> (r: bool)
    ensures
        r == valid_channel_id(id@),
{
    let b = id.as_bytes();
    if b.len() != 32 {
        return false;
    }
    let mut i: usize = 0;
    while i < b.len()
        invariant
            b@ == encode_utf8(id@),
            i <= b@.len(),
            forall|j: int| 0 <= j < i ==> is_lower_hex_byte(#[trigger] b@[j]),
        decreases b@.len() - i,
    {
        let c = b[i];
        if !((48 <= c && c <= 57) || (97 <= c && c <= 102)) {
            return false;
        }
        i = i + 1;
    }
    true
}

/// One channel's buffered envelope and the time (ms) at which it expires.
pub struct ChannelEntry {
    pub envelope: StoredEnvelope,
    pub expires_at_ms: u64,
}

/// The fields of a channel's buffered envelope.
pub struct EntryModel {
    pub envelope: StoredModel,
    pub expires_at_ms: u64,
}

impl View for ChannelEntry {
    type V = EntryModel;

    open spec fn view(&self) -> EntryModel {
        EntryModel { envelope: self.envelope@, expires_at_ms: self.expires_at_ms }
    }
}

/// Some entry of `s` is for channel `k`.
pub open spec fn has_channel(s: Seq<EntryModel>, k: Seq<char>) -> bool {
    exists|i: int| 0 <= i < s.len() && (#[trigger] s[i]).envelope.channel_id == k
}

/// The position of channel `k`'s entry in `s`.
pub open spec fn channel_index(s: Seq<EntryModel>, k: Seq<char>) -> int {
    choose|i: int| 0 <= i < s.len() && (#[trigger] s[i]).envelope.channel_id == k
}

/// No channel has two entries.
pub open spec fn unique_channels(s: Seq<EntryModel>) -> bool {
    forall|i: int, j: int|
        0 <= i < s.len() && 0 <= j < s.len() && i != j ==> (#[trigger] s[i]).envelope.channel_id
            != (#[trigger] s[j]).envelope.channel_id
}

/// The entries as a map from channel id to entry.
pub open spec fn entries_map(s: Seq<EntryModel>) -> Map<Seq<char>, EntryModel> {
    Map::new(|k: Seq<char>| has_channel(s, k), |k: Seq<char>| s[channel_index(s, k)])
}

proof fn lemma_entries_map_at(s: Seq<EntryModel>, i: int)
    requires
        unique_channels(s),
        0 <= i < s.len(),
    ensures
        entries_map(s).contains_key(s[i].envelope.channel_id),
        entries_map(s)[s[i].envelope.channel_id] == s[i],
{
    let k = s[i].envelope.channel_id;
    assert(has_channel(s, k));
    let j = channel_index(s, k);
    assert(s[j].envelope.channel_id == k);
}

proof fn lemma_entries_map_update(s: Seq<EntryModel>, i: int, e: EntryModel)
    requires
        unique_channels(s),
        0 <= i < s.len(),
        s[i].envelope.channel_id == e.envelope.channel_id,
    ensures
        unique_channels(s.update(i, e)),
        entries_map(s.update(i, e)) == entries_map(s).insert(e.envelope.channel_id, e),
{
    let t = s.update(i, e);
    assert(unique_channels(t)) by {
        assert forall|a: int, b: int|
            0 <= a < t.len() && 0 <= b < t.len() && a != b implies (#[trigger] t[a]).envelope.channel_id
            != (#[trigger] t[b]).envelope.channel_id by {
            assert(s[a].envelope.channel_id != s[b].envelope.channel_id);
        }
    }
    let m = entries_map(s).insert(e.envelope.channel_id, e);
    assert forall|k: Seq<char>| #[trigger] entries_map(t).contains_key(k) <==> m.contains_key(k) by {
        if has_channel(s, k) {
            let j = channel_index(s, k);
            assert(t[j].envelope.channel_id == k);
        }
        if has_channel(t, k) {
            let j = channel_index(t, k);
            assert(s[j].envelope.channel_id == k || j == i);
        }
    }
    assert forall|k: Seq<char>| #[trigger] entries_map(t).contains_key(k) implies entries_map(t)[k]
        == m[k] by {
        let j = channel_index(t, k);
        lemma_entries_map_at(t, j);
        if k != e.envelope.channel_id {
            assert(j != i);
            lemma_entries_map_at(s, j);
        } else {
            assert(j == i);
        }
    }
    assert(entries_map(t) =~= m);
}

proof fn lemma_entries_map_push(s: Seq<EntryModel>, e: EntryModel)
    requires
        unique_channels(s),
        !has_channel(s, e.envelope.channel_id),
    ensures
        unique_channels(s.push(e)),
        entries_map(s.push(e)) == entries_map(s).insert(e.envelope.channel_id, e),
{
    let t = s.push(e);
    let n = s.len() as int;
    assert(unique_channels(t)) by {
        assert forall|a: int, b: int|
            0 <= a < t.len() && 0 <= b < t.len() && a != b implies (#[trigger] t[a]).envelope.channel_id
            != (#[trigger] t[b]).envelope.channel_id by {
            if a < n && b < n {
                assert(s[a].envelope.channel_id != s[b].envelope.channel_id);
            } else if a < n {
                assert(s[a] == t[a]);
            } else {
                assert(s[b] == t[b]);
            }
        }
    }
    let m = entries_map(s).insert(e.envelope.channel_id, e);
    assert forall|k: Seq<char>| #[trigger] entries_map(t).contains_key(k) <==> m.contains_key(k) by {
        if has_channel(s, k) {
            let j = channel_index(s, k);
            assert(t[j].envelope.channel_id == k);
        }
        if k == e.envelope.channel_id {
            assert(t[n].envelope.channel_id == k);
        }
        if has_channel(t, k) {
            let j = channel_index(t, k);
            if j < n {
                assert(s[j].envelope.channel_id == k);
            }
        }
    }
    assert forall|k: Seq<char>| #[trigger] entries_map(t).contains_key(k) implies entries_map(t)[k]
        == m[k] by {
        let j = channel_index(t, k);
        lemma_entries_map_at(t, j);
        if j < n {
            assert(s[j] == t[j]);
            lemma_entries_map_at(s, j);
        }
    }
    assert(entries_map(t) =~= m);
}

proof fn lemma_entries_map_remove(s: Seq<EntryModel>, i: int)
    requires
        unique_channels(s),
        0 <= i < s.len(),
    ensures
        unique_channels(s.remove(i)),
        entries_map(s.remove(i)) == entries_map(s).remove(s[i].envelope.channel_id),
{
    let t = s.remove(i);
    let key = s[i].envelope.channel_id;
    assert forall|a: int| 0 <= a < t.len() implies #[trigger] t[a] == s[if a < i { a } else { a + 1 }] by {
    }
    assert(unique_channels(t)) by {
        assert forall|a: int, b: int|
            0 <= a < t.len() && 0 <= b < t.len() && a != b implies (#[trigger] t[a]).envelope.channel_id
            != (#[trigger] t[b]).envelope.channel_id by {
            let a2 = if a < i { a } else { a + 1 };
            let b2 = if b < i { b } else { b + 1 };
            assert(s[a2].envelope.channel_id != s[b2].envelope.channel_id);
        }
    }
    let m = entries_map(s).remove(key);
    assert forall|k: Seq<char>| #[trigger] entries_map(t).contains_key(k) <==> m.contains_key(k) by {
        if has_channel(s, k) && k != key {
            let j = channel_index(s, k);
            assert(j != i);
            let j2 = if j < i { j } else { j - 1 };
            assert(t[j2].envelope.channel_id == k);
        }
        if has_channel(t, k) {
            let j = channel_index(t, k);
            let j2 = if j < i { j } else { j + 1 };
            assert(s[j2].envelope.channel_id == k);
            assert(j2 != i);
        }
    }
    assert forall|k: Seq<char>| #[trigger] entries_map(t).contains_key(k) implies entries_map(t)[k]
        == m[k] by {
        let j = channel_index(t, k);
        lemma_entries_map_at(t, j);
        let j2 = if j < i { j } else { j + 1 };
        lemma_entries_map_at(s, j2);
    }
    assert(entries_map(t) =~= m);
}

/// `std::time::Instant`, carried opaquely as the buffer's clock origin.
#[verifier::external_type_specification]
#[verifier::external_body]
pub struct ExInstant(Instant);

/// `Instant::now` (std). Trusted: nothing is promised of the reading.
#[verifier::external_body]
fn instant_now() -> (r: Instant) {
    Instant::now()
}

/// Milliseconds elapsed since `origin` (`Instant::elapsed`, std), kept to
/// 64 bits. Trusted: nothing is promised of the reading.
#[verifier::external_body]
fn elapsed_ms(origin: &Instant) -> (r: u64) {
    origin.elapsed().as_millis() as u64
}

/// Milliseconds since the Unix epoch (`SystemTime::now`, std), or 0 when the
/// clock reads before the epoch. Trusted: nothing is promised of the reading.
#[verifier::external_body]
pub(crate) fn unix_time_ms() -> (r: i64) {
    match SystemTime::now().duration_since(UNIX_EPOCH) {
        Ok(d) => d.as_millis() as i64,
        Err(_) => 0,
    }
}

/// The whole milliseconds of the duration `d` (`Duration::as_millis`), kept
/// to 64 bits.
pub uninterp spec fn duration_millis(d: Duration) -> u64;

/// The length of `d` in milliseconds (`Duration::as_millis`, std), kept to
/// 64 bits. Trusted: the result is `duration_millis` of `d`, a function of
/// the duration alone.
#[verifier::external_body]
fn duration_ms(d: &Duration) -> (r: u64)
    ensures
        r == duration_millis(*d),
{
    d.as_millis() as u64
}

/// `now` is a reading of the milliseconds elapsed since `origin`: a possible
/// result of `elapsed_ms(&origin)`, the buffer's clock.
pub closed spec fn elapsed_reading(origin: Instant, now: u64) -> bool {
    call_ensures(elapsed_ms, (&origin,), now)
}

/// `origin` is a reading of `Instant::now`: the buffer's clock starts when
/// the buffer is made.
pub closed spec fn started_now(origin: Instant) -> bool {
    call_ensures(instant_now, (), origin)
}

/// `at` is a reading of the wall clock (`unix_time_ms`).
pub closed spec fn wall_clock_reading(at: i64) -> bool {
    call_ensures(unix_time_ms, (), at)
}

/// The wall-clock time (ms since the Unix epoch) a publish is stamped with.
pub fn wall_clock_ms() -> (r: i64)
    ensures
        wall_clock_reading(r),
{
    unix_time_ms()
}

/// When an envelope published at `now` with time-to-live `ttl` expires
/// (saturating at the clock's end).
pub open spec fn expiry(now: u64, ttl: u64) -> u64 {
    if now + ttl > u64::MAX {
        u64::MAX
    } else {
        (now + ttl) as u64
    }
}

/// The envelope buffered for channel `k` if it has not expired at `now`.
pub open spec fn lookup_live(slots: Map<Seq<char>, EntryModel>, k: Seq<char>, now: u64) -> Option<StoredModel> {
    if slots.contains_key(k) && slots[k].expires_at_ms > now {
        Some(slots[k].envelope)
    } else {
        None
    }
}

/// What a read of channel `k` at `now` leaves behind: an expired envelope is cleared.
pub open spec fn after_read(slots: Map<Seq<char>, EntryModel>, k: Seq<char>, now: u64) -> Map<Seq<char>, EntryModel> {
    if slots.contains_key(k) && slots[k].expires_at_ms <= now {
        slots.remove(k)
    } else {
        slots
    }
}

/// An optional stored envelope seen through its view.
pub open spec fn opt_stored(r: Option<StoredEnvelope>) -> Option<StoredModel> {
    match r {
        Some(e) => Some(e@),
        None => None,
    }
}

/// The effect of a publish on `slots` at time `now` (published-at stamp `at`):
/// an oversized ciphertext or a bad channel id is refused and nothing
/// changes; otherwise the channel's envelope is replaced by the new one.
pub open spec fn publish_effect(
    slots: Map<Seq<char>, EntryModel>,
    ttl: u64,
    channel_id: Seq<char>,
    protocol_version: u8,
    nonce: Seq<u8>,
    ciphertext: Seq<u8>,
    now: u64,
    at: i64,
    r: Result<StoredEnvelope, PublishError>,
    new_slots: Map<Seq<char>, EntryModel>,
) -> bool {
    if ciphertext.len() > MAX_CIPHERTEXT_BYTES {
        r matches Err(PublishError::TooLarge) && new_slots == slots
    } else if !valid_channel_id(channel_id) {
        r matches Err(PublishError::BadChannel) && new_slots == slots
    } else {
        let stored = StoredModel { channel_id, ciphertext, nonce, protocol_version, published_at_ms: at };
        &&& r matches Ok(e) && e@ == stored
        &&& new_slots == slots.insert(channel_id, EntryModel { envelope: stored, expires_at_ms: expiry(now, ttl) })
    }
}

/// `r` answers a subscriber's snapshot request for channel `k` at `now`: the
/// live envelope, or an empty event naming the channel.
pub open spec fn snapshot_of(r: BufferEvent, slots: Map<Seq<char>, EntryModel>, k: Seq<char>, now: u64) -> bool {
    match lookup_live(slots, k, now) {
        Some(e) => r matches BufferEvent::Envelope(env) && env@ == e,
        None => r matches BufferEvent::Empty { channel_id } && channel_id@ == k,
    }
}

/// `r` holds exactly the envelopes live at `now`, one per channel (in no
/// particular order).
pub open spec fn lists_live(r: Seq<StoredModel>, slots: Map<Seq<char>, EntryModel>, now: u64) -> bool {
    &&& forall|j: int| 0 <= j < r.len() ==> lookup_live(slots, (#[trigger] r[j]).channel_id, now) == Some(r[j])
    &&& forall|k: Seq<char>| #[trigger] lookup_live(slots, k, now) is Some ==> exists|j: int| 0 <= j < r.len() && (#[trigger] r[j]).channel_id == k
    &&& forall|a: int, b: int| 0 <= a < r.len() && 0 <= b < r.len() && a != b ==> (#[trigger] r[a]).channel_id != (#[trigger] r[b]).channel_id
}

/// Envelopes seen through their views.
pub open spec fn stored_views(r: Seq<StoredEnvelope>) -> Seq<StoredModel> {
    r.map_values(|e: StoredEnvelope| e@)
}

/// A read of channel `k` at `now` returned `r` and left `new_slots` behind.
pub open spec fn read_effect(
    slots: Map<Seq<char>, EntryModel>,
    k: Seq<char>,
    now: u64,
    r: Option<StoredModel>,
    new_slots: Map<Seq<char>, EntryModel>,
) -> bool {
    r == lookup_live(slots, k, now) && new_slots == after_read(slots, k, now)
}

/// `r` holds the ciphertexts of `envs`, in the same order.
pub open spec fn ciphertexts_of(r: Seq<Vec<u8>>, envs: Seq<StoredModel>) -> bool {
    r.len() == envs.len() && forall|j: int| 0 <= j < r.len() ==> (#[trigger] r[j])@ == envs[j].ciphertext
}

/// `r` holds the ciphertexts of exactly the envelopes live at `now`, one per channel.
pub open spec fn lists_ciphertexts(r: Seq<Vec<u8>>, slots: Map<Seq<char>, EntryModel>, now: u64) -> bool {
    exists|envs: Seq<StoredModel>| #[trigger] lists_live(envs, slots, now) && ciphertexts_of(r, envs)
}

/// In-memory latest-only buffers keyed by channel id (lowercase hex): at most
/// one envelope per channel, each until its TTL runs out.
pub struct ChannelBuffer {
    entries: Vec<ChannelEntry>,
    ttl_ms: u64,
    origin: Instant,
}

impl ChannelBuffer {
    /// The entries seen through their views.
    closed spec fn entry_views(&self) -> Seq<EntryModel> {
        self.entries@.map_values(|e: ChannelEntry| e@)
    }

    #[verifier::type_invariant]
    closed spec fn channels_unique(&self) -> bool {
        unique_channels(self.entry_views())
    }

    /// The buffered envelope of each channel, with its expiry time.
    pub closed spec fn slots(&self) -> Map<Seq<char>, EntryModel> {
        entries_map(self.entry_views())
    }

    /// The time-to-live (ms) given to each published envelope.
    pub closed spec fn ttl(&self) -> u64 {
        self.ttl_ms
    }

    /// The instant the buffer's clock counts from.
    pub closed spec fn clock_origin(&self) -> Instant {
        self.origin
    }

    /// `now` is a reading of the buffer's clock.
    pub open spec fn clock_reads(&self, now: u64) -> bool {
        elapsed_reading(self.clock_origin(), now)
    }

    /// An empty buffer whose envelopes live `ttl` long (in whole milliseconds).
    pub fn new(ttl: Duration) -> (r: ChannelBuffer)
        ensures
            r.slots() == Map::<Seq<char>, EntryModel>::empty(),
            r.ttl() == duration_millis(ttl),
            started_now(r.clock_origin()),
    {
        Self::with_ttl_ms(duration_ms(&ttl))
    }

    /// An empty buffer whose envelopes live `ttl_ms` milliseconds.
    pub fn with_ttl_ms(ttl_ms: u64) -> (r: ChannelBuffer)
        ensures
            r.slots() == Map::<Seq<char>, EntryModel>::empty(),
            r.ttl() == ttl_ms,
            started_now(r.clock_origin()),
    {
        let r = ChannelBuffer { entries: Vec::new(), ttl_ms, origin: instant_now() };
        assert(r.slots() =~= Map::<Seq<char>, EntryModel>::empty());
        r
    }

    /// Position of channel `channel_id`'s entry, if any.
    fn find_channel(&self, channel_id: &str) -> (r: Option<usize>)
        ensures
            match r {
                Some(i) => i < self.entry_views().len() && self.entry_views()[i as int].envelope.channel_id
                    == channel_id@,
                None => !has_channel(self.entry_views(), channel_id@),
            },
    {
        let mut i: usize = 0;
        while i < self.entries.len()
            invariant
                i <= self.entries@.len(),
                forall|j: int| 0 <= j < i ==> (#[trigger] self.entry_views()[j]).envelope.channel_id != channel_id@,
            decreases self.entries@.len() - i,
        {
            if str_equal(self.entries[i].envelope.channel_id.as_str(), channel_id) {
                return Some(i);
            }
            i = i + 1;
        }
        None
    }

    /// The buffer's clock: milliseconds since the buffer was made.
    pub fn clock_ms(&self) -> (r: u64)
        ensures
            self.clock_reads(r),
    {
        elapsed_ms(&self.origin)
    }

    /// Replace the channel's envelope at time `now_ms` (ms on the buffer's
    /// clock), stamping it `published_at_ms`.
    pub fn publish_at(
        &mut self,
        channel_id: String,
        protocol_version: u8,
        nonce: Vec<u8>,
        ciphertext: Vec<u8>,
        now_ms: u64,
        published_at_ms: i64,
    ) -> (r: Result<StoredEnvelope, PublishError>)
        ensures
            publish_effect(
                old(self).slots(),
                old(self).ttl(),
                channel_id@,
                protocol_version,
                nonce@,
                ciphertext@,
                now_ms,
                published_at_ms,
                r,
                final(self).slots(),
            ),
            final(self).ttl() == old(self).ttl(),
            final(self).clock_origin() == old(self).clock_origin(),
    {
        if ciphertext.len() > MAX_CIPHERTEXT_BYTES {
            return Err(PublishError::TooLarge);
        }
        if !is_valid_channel_id(channel_id.as_str()) {
            return Err(PublishError::BadChannel);
        }
        proof {
            use_type_invariant(&*self);
        }
        let stored = StoredEnvelope {
            channel_id,
            ciphertext,
            nonce,
            protocol_version,
            published_at_ms,
        };
        let entry = ChannelEntry { envelope: stored.copied(), expires_at_ms: now_ms.saturating_add(self.ttl_ms) };
        let ghost old_views = self.entry_views();
        let found = self.find_channel(stored.channel_id.as_str());
        let mut entries: Vec<ChannelEntry> = Vec::new();
        std::mem::swap(&mut entries, &mut self.entries);
        match found {
            Some(i) => {
                proof {
                    lemma_entries_map_update(old_views, i as int, entry@);
                }
                entries.set(i, entry);
                assert(entries@.map_values(|e: ChannelEntry| e@) =~= old_views.update(i as int, entry@));
            },
            None => {
                proof {
                    lemma_entries_map_push(old_views, entry@);
                }
                entries.push(entry);
                assert(entries@.map_values(|e: ChannelEntry| e@) =~= old_views.push(entry@));
            },
        }
        self.entries = entries;
        Ok(stored)
    }

    /// The channel's unexpired envelope at time `now_ms`; an expired one is cleared.
    pub fn get_at(&mut self, channel_id: &str, now_ms: u64) -> (r: Option<StoredEnvelope>)
        ensures
            opt_stored(r) == lookup_live(old(self).slots(), channel_id@, now_ms),
            final(self).slots() == after_read(old(self).slots(), channel_id@, now_ms),
            final(self).ttl() == old(self).ttl(),
            final(self).clock_origin() == old(self).clock_origin(),
    {
        proof {
            use_type_invariant(&*self);
        }
        let ghost old_views = self.entry_views();
        match self.find_channel(channel_id) {
            Some(i) => {
                proof {
                    lemma_entries_map_at(old_views, i as int);
                }
                if self.entries[i].expires_at_ms > now_ms {
                    Some(self.entries[i].envelope.copied())
                } else {
                    proof {
                        lemma_entries_map_remove(old_views, i as int);
                    }
                    let mut entries: Vec<ChannelEntry> = Vec::new();
                    std::mem::swap(&mut entries, &mut self.entries);
                    let _removed = entries.remove(i);
                    assert(entries@.map_values(|e: ChannelEntry| e@) =~= old_views.remove(i as int));
                    self.entries = entries;
                    None
                }
            },
            None => {
                assert(!self.slots().contains_key(channel_id@));
                None
            },
        }
    }

    /// Snapshot for a new subscriber at time `now_ms`: the current envelope or empty.
    pub fn snapshot_event_at(&mut self, channel_id: &str, now_ms: u64) -> (r: BufferEvent)
        ensures
            snapshot_of(r, old(self).slots(), channel_id@, now_ms),
            final(self).slots() == after_read(old(self).slots(), channel_id@, now_ms),
            final(self).ttl() == old(self).ttl(),
            final(self).clock_origin() == old(self).clock_origin(),
    {
        match self.get_at(channel_id, now_ms) {
            Some(env) => BufferEvent::Envelope(env),
            None => BufferEvent::Empty { channel_id: channel_id.to_owned() },
        }
    }

    /// The ciphertexts of all envelopes live at time `now_ms`.
    pub fn debug_stored_ciphertexts_at(&self, now_ms: u64) -> (r: Vec<Vec<u8>>)
        ensures
            lists_ciphertexts(r@, self.slots(), now_ms),
    {
        let envs = self.debug_stored_envelopes_at(now_ms);
        let mut out: Vec<Vec<u8>> = Vec::new();
        let mut i: usize = 0;
        while i < envs.len()
            invariant
                i <= envs@.len(),
                out@.len() == i,
                forall|j: int| 0 <= j < i ==> (#[trigger] out@[j])@ == envs@[j]@.ciphertext,
            decreases envs@.len() - i,
        {
            out.push(copy_bytes(envs[i].ciphertext.as_slice()));
            i = i + 1;
        }
        assert(ciphertexts_of(out@, stored_views(envs@)));
        out
    }

    /// Replace the channel's envelope with a new one, read against the
    /// buffer's clock and stamped with the wall-clock time; the envelope is
    /// then live for the buffer's TTL.
    pub fn publish(
        &mut self,
        channel_id: String,
        protocol_version: u8,
        nonce: Vec<u8>,
        ciphertext: Vec<u8>,
    ) -> (r: Result<StoredEnvelope, PublishError>)
        ensures
            exists|now: u64, at: i64|
                #[trigger] publish_effect(
                    old(self).slots(),
                    old(self).ttl(),
                    channel_id@,
                    protocol_version,
                    nonce@,
                    ciphertext@,
                    now,
                    at,
                    r,
                    final(self).slots(),
                ) && old(self).clock_reads(now) && wall_clock_reading(at),
            final(self).ttl() == old(self).ttl(),
            final(self).clock_origin() == old(self).clock_origin(),
    {
        let now = elapsed_ms(&self.origin);
        let at = unix_time_ms();
        self.publish_at(channel_id, protocol_version, nonce, ciphertext, now, at)
    }

    /// The channel's unexpired envelope now; an expired one is cleared.
    pub fn get(&mut self, channel_id: &str) -> (r: Option<StoredEnvelope>)
        ensures
            exists|now: u64|
                #[trigger] read_effect(old(self).slots(), channel_id@, now, opt_stored(r), final(self).slots())
                    && old(self).clock_reads(now),
            final(self).ttl() == old(self).ttl(),
            final(self).clock_origin() == old(self).clock_origin(),
    {
        let now = elapsed_ms(&self.origin);
        let r = self.get_at(channel_id, now);
        assert(read_effect(old(self).slots(), channel_id@, now, opt_stored(r), self.slots()));
        r
    }

    /// Snapshot for a new subscriber: the current envelope or empty.
    pub fn snapshot_event(&mut self, channel_id: &str) -> (r: BufferEvent)
        ensures
            exists|now: u64|
                #[trigger] snapshot_of(r, old(self).slots(), channel_id@, now) && final(self).slots()
                    == after_read(old(self).slots(), channel_id@, now) && old(self).clock_reads(now),
            final(self).ttl() == old(self).ttl(),
            final(self).clock_origin() == old(self).clock_origin(),
    {
        let now = elapsed_ms(&self.origin);
        self.snapshot_event_at(channel_id, now)
    }

    /// All live stored envelopes (ciphertext fields only).
    pub fn debug_stored_envelopes(&self) -> (r: Vec<StoredEnvelope>)
        ensures
            exists|now: u64| #[trigger] lists_live(stored_views(r@), self.slots(), now) && self.clock_reads(now),
    {
        let now = elapsed_ms(&self.origin);
        self.debug_stored_envelopes_at(now)
    }

    /// The ciphertexts of all live stored envelopes.
    pub fn debug_stored_ciphertexts(&self) -> (r: Vec<Vec<u8>>)
        ensures
            exists|now: u64| #[trigger] lists_ciphertexts(r@, self.slots(), now) && self.clock_reads(now),
    {
        let now = elapsed_ms(&self.origin);
        self.debug_stored_ciphertexts_at(now)
    }

    /// All envelopes live at time `now_ms` (ciphertext fields only).
    pub fn debug_stored_envelopes_at(&self, now_ms: u64) -> (r: Vec<StoredEnvelope>)
        ensures
            lists_live(stored_views(r@), self.slots(), now_ms),
    {
        proof {
            use_type_invariant(self);
        }
        let ghost views = self.entry_views();
        let mut out: Vec<StoredEnvelope> = Vec::new();
        let ghost mut picked: Seq<int> = Seq::empty();
        let mut i: usize = 0;
        while i < self.entries.len()
            invariant
                views == self.entry_views(),
                unique_channels(views),
                i <= views.len(),
                picked.len() == out@.len(),
                forall|a: int, b: int| 0 <= a < b < picked.len() ==> picked[a] < picked[b],
                forall|j: int| 0 <= j < picked.len() ==> 0 <= #[trigger] picked[j] < i,
                forall|j: int|
                    0 <= j < picked.len() ==> (#[trigger] out@[j])@ == views[picked[j]].envelope
                        && views[picked[j]].expires_at_ms > now_ms,
                forall|x: int|
                    0 <= x < i && (#[trigger] views[x]).expires_at_ms > now_ms ==> exists|j: int|
                        0 <= j < picked.len() && picked[j] == x,
            decreases views.len() - i,
        {
            let ghost before = picked;
            if self.entries[i].expires_at_ms > now_ms {
                out.push(self.entries[i].envelope.copied());
                proof {
                    picked = picked.push(i as int);
                }
            }
            proof {
                assert forall|x: int|
                    0 <= x < i + 1 && (#[trigger] views[x]).expires_at_ms > now_ms implies exists|j: int|
                        0 <= j < picked.len() && picked[j] == x by {
                    if x < i {
                        let j0 = choose|j: int| 0 <= j < before.len() && before[j] == x;
                        assert(picked[j0] == x);
                    } else {
                        assert(picked[picked.len() - 1] == x);
                    }
                }
            }
            i = i + 1;
        }
        proof {
            let r = stored_views(out@);
            assert forall|j: int| 0 <= j < r.len() implies lookup_live(self.slots(), (#[trigger] r[j]).channel_id, now_ms) == Some(r[j]) by {
                lemma_entries_map_at(views, picked[j]);
            }
            assert forall|k: Seq<char>| #[trigger] lookup_live(self.slots(), k, now_ms) is Some implies exists|j: int| 0 <= j < r.len() && (#[trigger] r[j]).channel_id == k by {
                let x = channel_index(views, k);
                lemma_entries_map_at(views, x);
                let j = choose|j: int| 0 <= j < picked.len() && picked[j] == x;
                assert(r[j].channel_id == k);
            }
            assert forall|a: int, b: int| 0 <= a < r.len() && 0 <= b < r.len() && a != b implies (#[trigger] r[a]).channel_id != (#[trigger] r[b]).channel_id by {
                assert(picked[a] != picked[b]);
                assert(views[picked[a]].envelope.channel_id != views[picked[b]].envelope.channel_id);
            }
        }
        out
    }
}

/// Read after write: an accepted publish is what a read of that channel
/// returns until the envelope's TTL runs out.
pub proof fn lemma_read_after_publish(
    slots: Map<Seq<char>, EntryModel>,
    ttl: u64,
    channel_id: Seq<char>,
    protocol_version: u8,
    nonce: Seq<u8>,
    ciphertext: Seq<u8>,
    now: u64,
    at: i64,
    r: Result<StoredEnvelope, PublishError>,
    new_slots: Map<Seq<char>, EntryModel>,
    later: u64,
)
    requires
        publish_effect(slots, ttl, channel_id, protocol_version, nonce, ciphertext, now, at, r, new_slots),
        r is Ok,
        later < expiry(now, ttl),
    ensures
        lookup_live(new_slots, channel_id, later) == Some(
            StoredModel { channel_id, ciphertext, nonce, protocol_version, published_at_ms: at },
        ),
{
}

/// TTL expiry: once an accepted envelope's TTL has run out, a read of its
/// channel finds nothing and clears it.
pub proof fn lemma_expired_after_ttl(
    slots: Map<Seq<char>, EntryModel>,
    ttl: u64,
    channel_id: Seq<char>,
    protocol_version: u8,
    nonce: Seq<u8>,
    ciphertext: Seq<u8>,
    now: u64,
    at: i64,
    r: Result<StoredEnvelope, PublishError>,
    new_slots: Map<Seq<char>, EntryModel>,
    later: u64,
)
    requires
        publish_effect(slots, ttl, channel_id, protocol_version, nonce, ciphertext, now, at, r, new_slots),
        r is Ok,
        later >= expiry(now, ttl),
    ensures
        lookup_live(new_slots, channel_id, later) is None,
        !after_read(new_slots, channel_id, later).contains_key(channel_id),
{
}

/// Latest-only: after two accepted publishes to one channel, the buffer holds
/// the second envelope for it and nothing of the first.
pub proof fn lemma_latest_only(
    slots: Map<Seq<char>, EntryModel>,
    ttl: u64,
    channel_id: Seq<char>,
    v1: u8,
    nonce1: Seq<u8>,
    ct1: Seq<u8>,
    now1: u64,
    at1: i64,
    r1: Result<StoredEnvelope, PublishError>,
    mid: Map<Seq<char>, EntryModel>,
    v2: u8,
    nonce2: Seq<u8>,
    ct2: Seq<u8>,
    now2: u64,
    at2: i64,
    r2: Result<StoredEnvelope, PublishError>,
    new_slots: Map<Seq<char>, EntryModel>,
)
    requires
        publish_effect(slots, ttl, channel_id, v1, nonce1, ct1, now1, at1, r1, mid),
        publish_effect(mid, ttl, channel_id, v2, nonce2, ct2, now2, at2, r2, new_slots),
        r1 is Ok,
        r2 is Ok,
    ensures
        new_slots == slots.insert(
            channel_id,
            EntryModel {
                envelope: StoredModel {
                    channel_id,
                    ciphertext: ct2,
                    nonce: nonce2,
                    protocol_version: v2,
                    published_at_ms: at2,
                },
                expires_at_ms: expiry(now2, ttl),
            },
        ),
        new_slots.dom() == slots.dom().insert(channel_id),
{
    assert(new_slots.dom() =~= slots.dom().insert(channel_id));
}

/// Channels are isolated: a publish to one channel, accepted or refused,
/// changes no read of another channel.
pub proof fn lemma_other_channels_untouched(
    slots: Map<Seq<char>, EntryModel>,
    ttl: u64,
    channel_id: Seq<char>,
    protocol_version: u8,
    nonce: Seq<u8>,
    ciphertext: Seq<u8>,
    now: u64,
    at: i64,
    r: Result<StoredEnvelope, PublishError>,
    new_slots: Map<Seq<char>, EntryModel>,
    other: Seq<char>,
    later: u64,
)
    requires
        publish_effect(slots, ttl, channel_id, protocol_version, nonce, ciphertext, now, at, r, new_slots),
        other != channel_id,
    ensures
        lookup_live(new_slots, other, later) == lookup_live(slots, other, later),
{
}

/// A refused publish leaves the buffer as it was.
pub proof fn lemma_refused_publish_changes_nothing(
    slots: Map<Seq<char>, EntryModel>,
    ttl: u64,
    channel_id: Seq<char>,
    protocol_version: u8,
    nonce: Seq<u8>,
    ciphertext: Seq<u8>,
    now: u64,
    at: i64,
    r: Result<StoredEnvelope, PublishError>,
    new_slots: Map<Seq<char>, EntryModel>,
)
    requires
        publish_effect(slots, ttl, channel_id, protocol_version, nonce, ciphertext, now, at, r, new_slots),
        r is Err,
    ensures
        new_slots == slots,
{
}

} // verus!
