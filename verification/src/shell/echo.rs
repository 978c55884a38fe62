//! Echo suppression for the Shell's own clipboard writes.
use crate::text::str_equal;
use vstd::prelude::*;

verus! {

/// The echo guard's state: how many clipboard changes are still to be
/// ignored, and the text of the last remote Clip written to the clipboard.
pub struct EchoModel {
    pub ignore_remaining: u32,
    pub last_applied_text: Option<Seq<char>>,
}

/// Suppresses echo when the Shell writes a remote Clip to the system clipboard.
#[derive(Debug)]
pub struct PasteboardEchoGuard {
    ignore_remaining: u32,
    last_applied_text: Option<String>,
}

impl View for PasteboardEchoGuard {
    type V = EchoModel;

    closed spec fn view(&self) -> EchoModel {
        EchoModel {
            ignore_remaining: self.ignore_remaining,
            last_applied_text: match self.last_applied_text {
                Some(t) => Some(t@),
                None => None,
            },
        }
    }
}

/// The guard after a remote write of `text`: one more change to ignore, and
/// `text` remembered.
pub open spec fn after_remote_write(e: EchoModel, text: Seq<char>) -> EchoModel {
    EchoModel {
        ignore_remaining: if e.ignore_remaining == u32::MAX {
            u32::MAX
        } else {
            (e.ignore_remaining + 1) as u32
        },
        last_applied_text: Some(text),
    }
}

/// Whether a clipboard change showing `current` is ignored: while changes
/// remain to be ignored, or when it shows the last remotely written text.
pub open spec fn ignores_change(e: EchoModel, current: Option<Seq<char>>) -> bool {
    e.ignore_remaining > 0 || (current matches Some(c) && e.last_applied_text == Some(c))
}

/// The guard after it judged a change: one fewer change left to ignore.
pub open spec fn after_change(e: EchoModel) -> EchoModel {
    if e.ignore_remaining > 0 {
        EchoModel { ignore_remaining: (e.ignore_remaining - 1) as u32, ..e }
    } else {
        e
    }
}

/// An optional string seen as optional characters.
pub open spec fn opt_chars(s: Option<&str>) -> Option<Seq<char>> {
    match s {
        Some(t) => Some(t@),
        None => None,
    }
}

impl Default for PasteboardEchoGuard {
    /// A guard that ignores nothing.
    fn default() -> (r: PasteboardEchoGuard)
        ensures
            r@ == (EchoModel { ignore_remaining: 0, last_applied_text: None }),
    {
        PasteboardEchoGuard::new()
    }
}

impl PasteboardEchoGuard {
    /// A guard that ignores nothing.
    pub fn new() -> (r: PasteboardEchoGuard)
        ensures
            r@ == (EchoModel { ignore_remaining: 0, last_applied_text: None }),
    {
        PasteboardEchoGuard { ignore_remaining: 0, last_applied_text: None }
    }

    /// Record that the Shell wrote the remote Clip `text` to the clipboard.
    pub fn mark_remote_write(&mut self, text: &str)
        ensures
            final(self)@ == after_remote_write(old(self)@, text@),
    {
        self.ignore_remaining = self.ignore_remaining.saturating_add(1);
        self.last_applied_text = Some(text.to_owned());
    }

    /// Whether a clipboard change showing `current_text` is the Shell's own
    /// write and must not be published.
    pub fn should_ignore_change(&mut self, current_text: Option<&str>) -> (r: bool)
        ensures
            r == ignores_change(old(self)@, opt_chars(current_text)),
            final(self)@ == after_change(old(self)@),
    {
        if self.ignore_remaining > 0 {
            self.ignore_remaining = self.ignore_remaining - 1;
            return true;
        }
        match (current_text, &self.last_applied_text) {
            (Some(current), Some(last)) => str_equal(current, last.as_str()),
            _ => false,
        }
    }

    /// Forget all remote writes.
    pub fn reset(&mut self)
        ensures
            final(self)@ == (EchoModel { ignore_remaining: 0, last_applied_text: None }),
    {
        self.ignore_remaining = 0;
        self.last_applied_text = None;
    }
}

/// The Shell's own write is never taken for a local copy: right after a
/// remote write of `text`, a change showing `text` is ignored, and so is any
/// later one while that write is the last.
pub proof fn lemma_remote_write_is_ignored(e: EchoModel, text: Seq<char>, current: Option<Seq<char>>)
    ensures
        ignores_change(after_remote_write(e, text), current),
        ignores_change(after_change(after_remote_write(e, text)), Some(text)),
{
}

/// After a reset, only a change is ignored that the guard has since been told of.
pub proof fn lemma_reset_ignores_nothing(current: Option<Seq<char>>)
    ensures
        !ignores_change(EchoModel { ignore_remaining: 0, last_applied_text: None }, current),
{
}

/// The guard after it judged `n` changes.
pub open spec fn after_changes(e: EchoModel, n: nat) -> EchoModel
    decreases n,
{
    if n == 0 {
        e
    } else {
        after_change(after_changes(e, (n - 1) as nat))
    }
}

proof fn lemma_after_changes(e: EchoModel, n: nat)
    ensures
        after_changes(e, n).last_applied_text == e.last_applied_text,
        after_changes(e, n).ignore_remaining == if n <= e.ignore_remaining {
            e.ignore_remaining - n
        } else {
            0
        },
    decreases n,
{
    if n > 0 {
        lemma_after_changes(e, (n - 1) as nat);
    }
}

/// After a remote write of `text` onto a guard that still had `k` changes to
/// ignore, the next `k + 1` changes are ignored whatever they show (saturating
/// at `u32::MAX`), and every later change showing `text` is ignored too, until
/// the next remote write or reset.
pub proof fn lemma_remote_write_ignores_next_changes(
    e: EchoModel,
    text: Seq<char>,
    n: nat,
    current: Option<Seq<char>>,
)
    ensures
        n < after_remote_write(e, text).ignore_remaining ==> ignores_change(
            after_changes(after_remote_write(e, text), n),
            current,
        ),
        after_remote_write(e, text).ignore_remaining == if e.ignore_remaining == u32::MAX {
            u32::MAX as int
        } else {
            e.ignore_remaining + 1
        },
        ignores_change(after_changes(after_remote_write(e, text), n), Some(text)),
{
    lemma_after_changes(after_remote_write(e, text), n);
}

} // verus!
