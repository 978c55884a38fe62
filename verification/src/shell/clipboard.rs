//! The Shell's view of the system clipboard: snapshots, the clipboard seam,
//! an in-memory clipboard, and change counting by content fingerprint.
use crate::bytes::copy_bytes;
use crate::ffi::AppliedClipFfi;
use crate::text::{decimal, push_decimal, push_str, string_push};
use vstd::prelude::*;

verus! {

/// Local clipboard snapshot captured by the Shell.
#[derive(Clone, Debug, Eq, PartialEq)]
pub struct LocalClipboardSnapshot {
    pub image_bytes: Option<Vec<u8>>,
    pub image_mime: Option<String>,
    pub text: Option<String>,
}

/// The fields of a clipboard snapshot.
pub struct SnapshotModel {
    pub image_bytes: Option<Seq<u8>>,
    pub image_mime: Option<Seq<char>>,
    pub text: Option<Seq<char>>,
}

/// Optional text seen as optional characters.
pub open spec fn opt_text(t: Option<String>) -> Option<Seq<char>> {
    match t {
        Some(s) => Some(s@),
        None => None,
    }
}

impl View for LocalClipboardSnapshot {
    type V = SnapshotModel;

    open spec fn view(&self) -> SnapshotModel {
        SnapshotModel {
            image_bytes: match self.image_bytes {
                Some(b) => Some(b@),
                None => None,
            },
            image_mime: opt_text(self.image_mime),
            text: opt_text(self.text),
        }
    }
}

/// Neither text nor image bytes to publish.
pub open spec fn snapshot_empty(s: SnapshotModel) -> bool {
    (s.text matches Some(t) ==> t.len() == 0) && (s.image_bytes matches Some(b) ==> b.len() == 0)
}

impl Default for LocalClipboardSnapshot {
    /// A snapshot of an empty clipboard.
    fn default() -> (r: LocalClipboardSnapshot)
        ensures
            r@ == (SnapshotModel { image_bytes: None, image_mime: None, text: None }),
    {
        LocalClipboardSnapshot { image_bytes: None, image_mime: None, text: None }
    }
}

impl LocalClipboardSnapshot {
    /// A text-only snapshot.
    pub fn text(text: &str) -> (r: LocalClipboardSnapshot)
        ensures
            r@.text == Some(text@),
            r@.image_bytes is None,
            r@.image_mime is None,
    {
        LocalClipboardSnapshot { image_bytes: None, image_mime: None, text: Some(text.to_owned()) }
    }

    /// Whether there is neither text nor image bytes.
    pub fn is_empty(&self) -> (r: bool)
        ensures
            r == snapshot_empty(self@),
    {
        let text_empty = match &self.text {
            Some(t) => t.as_str().is_empty(),
            None => true,
        };
        let image_empty = match &self.image_bytes {
            Some(b) => b.len() == 0,
            None => true,
        };
        text_empty && image_empty
    }

    /// A copy of this snapshot with the same fields.
    pub fn copied(&self) -> (r: LocalClipboardSnapshot)
        ensures
            r@ == self@,
    {
        LocalClipboardSnapshot {
            image_bytes: match &self.image_bytes {
                Some(b) => Some(copy_bytes(b.as_slice())),
                None => None,
            },
            image_mime: match &self.image_mime {
                Some(m) => Some(m.clone()),
                None => None,
            },
            text: match &self.text {
                Some(t) => Some(t.clone()),
                None => None,
            },
        }
    }
}

/// Platform pasteboard seam used by the sync controller.
pub trait SystemClipboard {
    /// Observe the OS clipboard and return a monotonic change counter.
    fn poll_change_count(&mut self) -> u64;

    fn read_snapshot(&mut self) -> LocalClipboardSnapshot;

    fn write_applied(&mut self, applied: &AppliedClipFfi);
}

/// In-memory clipboard.
#[derive(Debug)]
pub struct FakeClipboard {
    pub change_count: u64,
    pub snapshot: LocalClipboardSnapshot,
    pub written_texts: Vec<String>,
}

impl Default for FakeClipboard {
    /// An empty clipboard that has not changed.
    fn default() -> (r: FakeClipboard)
        ensures
            r.change_count == 0,
            r.snapshot@ == (SnapshotModel { image_bytes: None, image_mime: None, text: None }),
            r.written_texts@.len() == 0,
    {
        FakeClipboard {
            change_count: 0,
            snapshot: LocalClipboardSnapshot { image_bytes: None, image_mime: None, text: None },
            written_texts: Vec::new(),
        }
    }
}

impl SystemClipboard for FakeClipboard {
    fn poll_change_count(&mut self) -> (r: u64)
        ensures
            r == old(self).change_count,
            final(self).change_count == old(self).change_count,
            final(self).snapshot@ == old(self).snapshot@,
            final(self).written_texts@ == old(self).written_texts@,
    {
        self.change_count
    }

    fn read_snapshot(&mut self) -> (r: LocalClipboardSnapshot)
        ensures
            r@ == old(self).snapshot@,
            final(self).change_count == old(self).change_count,
            final(self).snapshot@ == old(self).snapshot@,
            final(self).written_texts@ == old(self).written_texts@,
    {
        self.snapshot.copied()
    }

    fn write_applied(&mut self, applied: &AppliedClipFfi)
        ensures
            final(self).written_texts@.len() == old(self).written_texts@.len() + 1,
            forall|i: int|
                0 <= i < old(self).written_texts@.len() ==> (#[trigger] final(self).written_texts@[i])@
                    == old(self).written_texts@[i]@,
            final(self).written_texts@[old(self).written_texts@.len() as int]@ == applied.text@,
            final(self).snapshot@ == (SnapshotModel {
                image_bytes: None,
                image_mime: None,
                text: Some(applied.text@),
            }),
            final(self).change_count == (if old(self).change_count == u64::MAX {
                u64::MAX
            } else {
                (old(self).change_count + 1) as u64
            }),
    {
        self.written_texts.push(applied.text.clone());
        self.snapshot = LocalClipboardSnapshot::text(applied.text.as_str());
        self.change_count = self.change_count.saturating_add(1);
    }
}

/// The fingerprint of a snapshot: its text (empty when none), `|`, and the
/// number of image bytes (0 when none).
pub open spec fn fingerprint_of(s: SnapshotModel) -> Seq<char> {
    let text = match s.text {
        Some(t) => t,
        None => Seq::empty(),
    };
    let len: nat = match s.image_bytes {
        Some(b) => b.len(),
        None => 0,
    };
    text.push('|') + decimal(len)
}

/// A snapshot's fingerprint, by which clipboard changes are detected.
pub fn fingerprint(snapshot: &LocalClipboardSnapshot) -> (r: String)
    ensures
        r@ == fingerprint_of(snapshot@),
{
    let mut r = String::new();
    match &snapshot.text {
        Some(t) => push_str(&mut r, t.as_str()),
        None => {},
    }
    string_push(&mut r, '|');
    let len: usize = match &snapshot.image_bytes {
        Some(b) => b.len(),
        None => 0,
    };
    push_decimal(&mut r, len as u64);
    proof {
        let text = match snapshot@.text {
            Some(t) => t,
            None => Seq::<char>::empty(),
        };
        assert(Seq::<char>::empty() + text =~= text);
    }
    r
}

/// Counts clipboard changes by content: the counter advances whenever the
/// observed fingerprint differs from the last one.
pub struct ClipboardChangeTracker {
    change_count: u64,
    last_fingerprint: String,
}

/// A change tracker's counter and last fingerprint.
pub struct TrackerModel {
    pub change_count: u64,
    pub last_fingerprint: Seq<char>,
}

impl View for ClipboardChangeTracker {
    type V = TrackerModel;

    closed spec fn view(&self) -> TrackerModel {
        TrackerModel { change_count: self.change_count, last_fingerprint: self.last_fingerprint@ }
    }
}

/// One more change, saturating.
pub open spec fn bumped(n: u64) -> u64 {
    if n == u64::MAX {
        u64::MAX
    } else {
        (n + 1) as u64
    }
}

/// The tracker after observing `snapshot`.
pub open spec fn after_observe(t: TrackerModel, snapshot: SnapshotModel) -> TrackerModel {
    if fingerprint_of(snapshot) != t.last_fingerprint {
        TrackerModel { change_count: bumped(t.change_count), last_fingerprint: fingerprint_of(snapshot) }
    } else {
        t
    }
}

impl ClipboardChangeTracker {
    /// A tracker that has seen no change and an empty fingerprint.
    pub fn new() -> (r: ClipboardChangeTracker)
        ensures
            r@ == (TrackerModel { change_count: 0, last_fingerprint: Seq::empty() }),
    {
        ClipboardChangeTracker { change_count: 0, last_fingerprint: String::new() }
    }

    /// Observe the clipboard's current content; returns the change counter.
    pub fn observe(&mut self, snapshot: &LocalClipboardSnapshot) -> (r: u64)
        ensures
            final(self)@ == after_observe(old(self)@, snapshot@),
            r == final(self)@.change_count,
    {
        let fp = fingerprint(snapshot);
        if !crate::text::str_equal(fp.as_str(), self.last_fingerprint.as_str()) {
            self.last_fingerprint = fp;
            self.change_count = self.change_count.saturating_add(1);
        }
        self.change_count
    }

    /// Record that the Shell itself wrote `snapshot` to the clipboard: it is
    /// the new fingerprint and counts as one change.
    pub fn record_write(&mut self, snapshot: &LocalClipboardSnapshot)
        ensures
            final(self)@ == (TrackerModel {
                change_count: bumped(old(self)@.change_count),
                last_fingerprint: fingerprint_of(snapshot@),
            }),
    {
        self.last_fingerprint = fingerprint(snapshot);
        self.change_count = self.change_count.saturating_add(1);
    }

    /// The change counter.
    pub fn change_count(&self) -> (r: u64)
        ensures
            r == self@.change_count,
    {
        self.change_count
    }
}

/// Observing the same content twice counts at most one change.
pub proof fn lemma_same_content_counts_once(t: TrackerModel, snapshot: SnapshotModel)
    ensures
        after_observe(after_observe(t, snapshot), snapshot) == after_observe(t, snapshot),
{
}

} // verus!
