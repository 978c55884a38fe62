//! Couples the system clipboard with a Session: local copies are published
//! while Armed, remote Clips are written to the clipboard, and the Shell's own
//! writes are not echoed back.
use crate::ffi::{AppliedClipFfi, SessionError};
use crate::shell::clipboard::{snapshot_empty, LocalClipboardSnapshot, SnapshotModel, SystemClipboard};
use crate::shell::echo::{
    after_change, after_remote_write, ignores_change, opt_chars, EchoModel, PasteboardEchoGuard,
};
use crate::shell::session::ClipSession;
use crate::bytes::copy_bytes;
use vstd::prelude::*;

verus! {

/// What a local clipboard change leads to.
pub enum LocalAction {
    /// Nothing to publish.
    Nothing,
    /// Publish the text.
    PublishText(String),
    /// Publish the text together with an image.
    PublishTextAndImage { text: String, image_bytes: Vec<u8>, image_mime: String },
}

/// `a` publishes snapshot `s`: text and image when both image bytes and MIME
/// type are present, else the text when there is any, else nothing.
pub open spec fn plan_of(s: SnapshotModel, a: LocalAction) -> bool {
    let text = match s.text {
        Some(t) => t,
        None => Seq::empty(),
    };
    match (s.image_bytes, s.image_mime) {
        (Some(b), Some(m)) => a matches LocalAction::PublishTextAndImage {
            text: t,
            image_bytes,
            image_mime,
        } && t@ == text && image_bytes@ == b && image_mime@ == m,
        _ => if text.len() > 0 {
            a matches LocalAction::PublishText(t) && t@ == text
        } else {
            a is Nothing
        },
    }
}

/// What publishing `snapshot` sends.
pub fn publish_plan(snapshot: &LocalClipboardSnapshot) -> (r: LocalAction)
    ensures
        plan_of(snapshot@, r),
{
    let text = match &snapshot.text {
        Some(t) => t.clone(),
        None => String::new(),
    };
    match (&snapshot.image_bytes, &snapshot.image_mime) {
        (Some(b), Some(m)) => LocalAction::PublishTextAndImage {
            text,
            image_bytes: copy_bytes(b.as_slice()),
            image_mime: m.clone(),
        },
        _ => {
            if !text.as_str().is_empty() {
                LocalAction::PublishText(text)
            } else {
                LocalAction::Nothing
            }
        },
    }
}

/// `session` was handed action `a`: its text published with
/// `publish_text`, or its text, image bytes and MIME type with
/// `publish_text_and_image`, exactly as `a` carries them (nothing for
/// `Nothing`).
pub open spec fn sends<S: ClipSession>(session: S, a: LocalAction) -> bool {
    match a {
        LocalAction::Nothing => true,
        LocalAction::PublishText(text) => exists|res: Result<(), SessionError>|
            #[trigger] call_ensures(S::publish_text, (&session, text), res),
        LocalAction::PublishTextAndImage { text, image_bytes, image_mime } => exists|
            res: Result<(), SessionError>,
        | #[trigger] call_ensures(S::publish_text_and_image, (&session, text, image_bytes, image_mime), res),
    }
}

/// Hand a local action to the Session; a refused publish is dropped.
fn perform<S: ClipSession>(session: &S, action: LocalAction)
    ensures
        sends(*session, action),
{
    match action {
        LocalAction::Nothing => {},
        LocalAction::PublishText(text) => {
            let _ = session.publish_text(text);
        },
        LocalAction::PublishTextAndImage { text, image_bytes, image_mime } => {
            let _ = session.publish_text_and_image(text, image_bytes, image_mime);
        },
    }
}

/// The controller's own state: whether a Session is attached, the clipboard
/// change counter last seen, and the echo guard. The clipboard and the
/// Session are the caller's implementations of `SystemClipboard` and
/// `ClipSession`, which the controller only calls; what they hold is not part
/// of this model (`clipboard()` names the clipboard itself).
pub struct ControllerModel {
    pub has_session: bool,
    pub last_change_count: u64,
    pub echo: EchoModel,
}

/// Coordinates clipboard watch and Session publish/poll for the Shell.
pub struct ClipboardSyncController<C: SystemClipboard, S: ClipSession> {
    clipboard: C,
    echo: PasteboardEchoGuard,
    last_change_count: u64,
    session: Option<S>,
}

impl<C: SystemClipboard, S: ClipSession> View for ClipboardSyncController<C, S> {
    type V = ControllerModel;

    closed spec fn view(&self) -> ControllerModel {
        ControllerModel {
            has_session: self.session is Some,
            last_change_count: self.last_change_count,
            echo: self.echo@,
        }
    }
}

/// What a local poll leaves behind, whatever the clipboard and Session
/// answered: nothing changes, or a new change count was taken from an
/// attached Session's clipboard and the echo guard judged its snapshot.
pub open spec fn local_poll_effect(old: ControllerModel, new: ControllerModel) -> bool {
    new == old || (old.has_session && new.has_session && new.last_change_count != old.last_change_count
        && new.echo == after_change(old.echo))
}

/// What a remote poll leaves behind, whatever the Session answered: nothing
/// changes, or an attached Session's applied Clip was written and the echo
/// guard told of its text.
pub open spec fn remote_poll_effect(old: ControllerModel, new: ControllerModel) -> bool {
    new == old || (old.has_session && exists|t: Seq<char>, c: u64|
        new == #[trigger] remote_written(old, t, c))
}

/// The controller after a Session was attached while the clipboard showed
/// change count `c`: that count is taken as seen.
pub open spec fn attached(old: ControllerModel, c: u64) -> ControllerModel {
    ControllerModel { has_session: true, last_change_count: c, ..old }
}

/// The controller after a remote Clip with text `t` was written to the
/// clipboard, the echo guard told of `t`, and the count `c` read afterwards
/// recorded as seen.
pub open spec fn remote_written(old: ControllerModel, t: Seq<char>, c: u64) -> ControllerModel {
    ControllerModel { has_session: true, last_change_count: c, echo: after_remote_write(old.echo, t) }
}

impl<C: SystemClipboard, S: ClipSession> ClipboardSyncController<C, S> {
    /// The clipboard the controller watches.
    pub closed spec fn clipboard(&self) -> C {
        self.clipboard
    }

    /// The attached Session, if any.
    pub closed spec fn session(&self) -> Option<S> {
        self.session
    }

    /// A controller with no Session attached.
    pub fn new(clipboard: C) -> (r: Self)
        ensures
            r@ == (ControllerModel {
                has_session: false,
                last_change_count: 0,
                echo: EchoModel { ignore_remaining: 0, last_applied_text: None },
            }),
            r.clipboard() == clipboard,
            r.session() is None,
    {
        ClipboardSyncController {
            clipboard,
            echo: PasteboardEchoGuard::new(),
            last_change_count: 0,
            session: None,
        }
    }

    /// Whether a Session is attached.
    pub fn has_session(&self) -> (r: bool)
        ensures
            r == self@.has_session,
    {
        self.session.is_some()
    }

    /// Whether the attached Session is Armed (false without one).
    pub fn is_armed(&self) -> (r: bool)
        ensures
            !self@.has_session ==> !r,
            self.session() matches Some(s) ==> call_ensures(S::is_armed, (&s,), r),
    {
        match &self.session {
            Some(s) => s.is_armed(),
            None => false,
        }
    }

    /// Whether the attached Session is Sync Idle (false without one).
    pub fn is_sync_idle(&self) -> (r: bool)
        ensures
            !self@.has_session ==> !r,
            self.session() matches Some(s) ==> call_ensures(S::is_sync_idle, (&s,), r),
    {
        match &self.session {
            Some(s) => s.is_sync_idle(),
            None => false,
        }
    }

    /// Attach a Session; the clipboard's current change count is taken as
    /// seen, so content already on the clipboard is not published.
    pub fn attach(&mut self, session: S)
        ensures
            exists|c: u64| final(self)@ == #[trigger] attached(old(self)@, c),
            final(self).session() == Some(session),
    {
        let change_count = self.clipboard.poll_change_count();
        self.note_attached(session, change_count);
        assert(self@ == attached(old(self)@, change_count));
    }

    /// Record `session` as attached while the clipboard showed `change_count`.
    pub fn note_attached(&mut self, session: S, change_count: u64)
        ensures
            final(self)@ == attached(old(self)@, change_count),
            final(self).session() == Some(session),
    {
        self.last_change_count = change_count;
        self.session = Some(session);
    }

    /// Detach the Session, if any.
    pub fn detach(&mut self)
        ensures
            final(self)@ == (ControllerModel { has_session: false, ..old(self)@ }),
            final(self).session() is None,
    {
        self.session = None;
    }

    /// Mutable clipboard access for Shell loops.
    pub fn clipboard_mut(&mut self) -> (r: &mut C)
        ensures
            *r == old(self).clipboard(),
            final(self).clipboard() == *final(r),
            final(self)@ == old(self)@,
            final(self).session() == old(self).session(),
    {
        &mut self.clipboard
    }

    /// Set the attached Session Armed or Paused.
    pub fn set_armed(&self, armed: bool)
        ensures
            self.session() matches Some(s) ==> call_ensures(S::set_armed, (&s, armed), ()),
    {
        match &self.session {
            Some(s) => s.set_armed(armed),
            None => {},
        }
    }

    /// A clipboard change count was observed while the Session reported
    /// `armed`: whether the snapshot must be read (an attached, Armed Session
    /// and a count not seen yet), in which case the count is taken as seen.
    pub fn note_local_change(&mut self, change_count: u64, armed: bool) -> (r: bool)
        ensures
            final(self).session() == old(self).session(),
            final(self).clipboard() == old(self).clipboard(),
            r == (old(self)@.has_session && armed && change_count != old(self)@.last_change_count),
            final(self)@ == (if r {
                ControllerModel { last_change_count: change_count, ..old(self)@ }
            } else {
                old(self)@
            }),
    {
        if self.session.is_none() || !armed || change_count == self.last_change_count {
            return false;
        }
        self.last_change_count = change_count;
        true
    }

    /// Judge a freshly read local snapshot: nothing when the echo guard
    /// ignores it or it is empty, else what publishing it sends.
    pub fn judge_local_snapshot(&mut self, snapshot: &LocalClipboardSnapshot) -> (r: LocalAction)
        ensures
            final(self).session() == old(self).session(),
            final(self).clipboard() == old(self).clipboard(),
            final(self)@ == (ControllerModel { echo: after_change(old(self)@.echo), ..old(self)@ }),
            ignores_change(old(self)@.echo, snapshot@.text) || snapshot_empty(snapshot@) ==> r is Nothing,
            !ignores_change(old(self)@.echo, snapshot@.text) && !snapshot_empty(snapshot@) ==> plan_of(
                snapshot@,
                r,
            ),
    {
        let current: Option<&str> = match &snapshot.text {
            Some(t) => Some(t.as_str()),
            None => None,
        };
        assert(opt_chars(current) == snapshot@.text);
        if self.echo.should_ignore_change(current) {
            return LocalAction::Nothing;
        }
        if snapshot.is_empty() {
            return LocalAction::Nothing;
        }
        publish_plan(snapshot)
    }

    /// A remote Clip is about to be written to the clipboard: tell the echo guard.
    pub fn note_remote_applied(&mut self, applied: &AppliedClipFfi)
        ensures
            final(self).session() == old(self).session(),
            final(self).clipboard() == old(self).clipboard(),
            final(self)@ == (ControllerModel {
                echo: after_remote_write(old(self)@.echo, applied.text@),
                ..old(self)@
            }),
    {
        self.echo.mark_remote_write(applied.text.as_str());
    }

    /// The local watch without the publish: observe the clipboard and the
    /// Session, and return what is to be published (nothing without an
    /// attached, Armed Session and a new change, or for the Shell's own write
    /// or an empty snapshot).
    pub fn poll_local_action(&mut self) -> (r: LocalAction)
        ensures
            local_poll_effect(old(self)@, final(self)@),
            final(self).session() == old(self).session(),
            final(self)@ != old(self)@ ==> exists|cm: &mut C, snap: LocalClipboardSnapshot|
                #[trigger] call_ensures(C::read_snapshot, (cm,), snap) && (if ignores_change(
                    old(self)@.echo,
                    snap@.text,
                ) || snapshot_empty(snap@) {
                    r is Nothing
                } else {
                    plan_of(snap@, r)
                }),
            !old(self)@.has_session ==> r is Nothing,
            !(r is Nothing) ==> final(self)@.has_session && final(self)@.last_change_count
                != old(self)@.last_change_count && final(self)@.echo == after_change(old(self)@.echo)
                && exists|s: SnapshotModel|
                #![trigger plan_of(s, r)]
                plan_of(s, r) && !ignores_change(old(self)@.echo, s.text) && !snapshot_empty(s),
    {
        let change_count = self.clipboard.poll_change_count();
        let armed = match &self.session {
            Some(s) => s.is_armed(),
            None => false,
        };
        if !self.note_local_change(change_count, armed) {
            return LocalAction::Nothing;
        }
        let snapshot = self.clipboard.read_snapshot();
        let action = self.judge_local_snapshot(&snapshot);
        proof {
            if !(action is Nothing) {
                assert(plan_of(snapshot@, action));
            }
        }
        action
    }

    /// Single-step local watch: publish a new local copy while Armed, unless
    /// it is the Shell's own write or empty.
    pub fn poll_local_clipboard(&mut self)
        ensures
            local_poll_effect(old(self)@, final(self)@),
            final(self).session() == old(self).session(),
            old(self).session() matches Some(s) ==> (final(self)@ != old(self)@ ==> exists|
                cm: &mut C,
                snap: LocalClipboardSnapshot,
                a: LocalAction,
            |
                #![trigger call_ensures(C::read_snapshot, (cm,), snap), sends(s, a)]
                call_ensures(C::read_snapshot, (cm,), snap) && sends(s, a) && (if ignores_change(
                    old(self)@.echo,
                    snap@.text,
                ) || snapshot_empty(snap@) {
                    a is Nothing
                } else {
                    plan_of(snap@, a)
                })),
    {
        let action = self.poll_local_action();
        let ghost act = action;
        match &self.session {
            Some(s) => perform(s, action),
            None => {},
        }
        proof {
            if old(self).session() is Some && self@ != old(self)@ {
                let s = old(self).session()->0;
                assert(sends(s, act));
            }
        }
    }

    /// The Session reported `armed` and, when Armed, handed over `applied`:
    /// the Clip to write to the clipboard (only with an attached, Armed
    /// Session), with the echo guard told of its text first.
    pub fn remote_step(&mut self, armed: bool, applied: Option<AppliedClipFfi>) -> (r: Option<AppliedClipFfi>)
        ensures
            final(self).session() == old(self).session(),
            final(self).clipboard() == old(self).clipboard(),
            r == (if old(self)@.has_session && armed {
                applied
            } else {
                None
            }),
            r matches Some(a) ==> final(self)@ == (ControllerModel {
                echo: after_remote_write(old(self)@.echo, a.text@),
                ..old(self)@
            }),
            r is None ==> final(self)@ == old(self)@,
    {
        if self.session.is_none() || !armed {
            return None;
        }
        match applied {
            Some(a) => {
                self.note_remote_applied(&a);
                Some(a)
            },
            None => None,
        }
    }

    /// The clipboard showed `change_count` after the Shell's own write: take it as seen.
    pub fn note_written_count(&mut self, change_count: u64)
        ensures
            final(self).session() == old(self).session(),
            final(self).clipboard() == old(self).clipboard(),
            final(self)@ == (ControllerModel { last_change_count: change_count, ..old(self)@ }),
    {
        self.last_change_count = change_count;
    }

    /// Single-step remote poll: while Armed, write the next applied remote
    /// Clip to the clipboard, telling the echo guard first, and take the
    /// count read after the write as seen so the write is not published back.
    pub fn poll_remote_applied(&mut self)
        ensures
            remote_poll_effect(old(self)@, final(self)@),
            final(self).session() == old(self).session(),
            final(self)@ == old(self)@ || (old(self).session() matches Some(s) && exists|
                a: AppliedClipFfi,
                cm: &mut C,
                c: u64,
            |
                #![trigger call_ensures(C::write_applied, (cm, &a), ()), remote_written(old(self)@, a.text@, c)]
                call_ensures(S::poll_applied, (&s,), Some(a)) && call_ensures(C::write_applied, (cm, &a), ())
                    && *cm == old(self).clipboard() && final(self)@ == remote_written(old(self)@, a.text@, c)),
    {
        let armed = match &self.session {
            Some(s) => s.is_armed(),
            None => false,
        };
        let applied = if armed {
            match &self.session {
                Some(s) => s.poll_applied(),
                None => None,
            }
        } else {
            None
        };
        match self.remote_step(armed, applied) {
            Some(a) => {
                self.clipboard.write_applied(&a);
                let change_count = self.clipboard.poll_change_count();
                self.note_written_count(change_count);
                assert(self@ == remote_written(old(self)@, a.text@, change_count));
            },
            None => {},
        }
    }
}

/// The Shell never republishes a remote Clip it wrote: after a remote Clip
/// with text `t` is noted, a local snapshot showing `t` leads to nothing.
pub proof fn lemma_remote_write_not_republished(echo: EchoModel, t: Seq<char>, snapshot: SnapshotModel)
    requires
        snapshot.text == Some(t),
    ensures
        ignores_change(after_remote_write(echo, t), snapshot.text),
        ignores_change(after_change(after_remote_write(echo, t)), snapshot.text),
{
}

/// Content already on the clipboard when a Session is attached is not
/// published: a local observation of the count seen at attach reads nothing.
pub proof fn lemma_attached_content_not_published(m: ControllerModel, c: u64, armed: bool)
    ensures
        !(attached(m, c).has_session && armed && c != attached(m, c).last_change_count),
{
}

/// The Shell's own remote write is not published back: after it, a local
/// observation of the count read after the write reads nothing, and the
/// echo guard ignores a snapshot showing the written text.
pub proof fn lemma_written_clip_not_published(m: ControllerModel, t: Seq<char>, c: u64, armed: bool)
    ensures
        !(remote_written(m, t, c).has_session && armed && c != remote_written(m, t, c).last_change_count),
        ignores_change(remote_written(m, t, c).echo, Some(t)),
{
}


/// The text a snapshot publishes: its text, or empty when it has none.
pub open spec fn snapshot_text(s: SnapshotModel) -> Seq<char> {
    match s.text {
        Some(t) => t,
        None => Seq::empty(),
    }
}

/// A local copy with an image is published with its image: whenever a local
/// poll with an attached Session takes a new clipboard change and reads a
/// snapshot that carries image bytes and a MIME type, is not empty and is not
/// the Shell's own write, the Session is asked to `publish_text_and_image`
/// exactly that snapshot's text (empty when it has none), image bytes and MIME
/// type; a snapshot without an image but with text has its text published
/// with `publish_text`.
pub proof fn lemma_local_copy_is_published_whole<C: SystemClipboard, S: ClipSession>()
    ensures
        forall|ctl: &mut ClipboardSyncController<C, S>|
            #[trigger] call_ensures(ClipboardSyncController::<C, S>::poll_local_clipboard, (ctl,), ())
                ==> ((*ctl).session() matches Some(s) ==> ((*final(ctl))@ != (*ctl)@ ==> exists|
                cm: &mut C,
                snap: LocalClipboardSnapshot,
            |
                #[trigger] call_ensures(C::read_snapshot, (cm,), snap) && (!ignores_change((*ctl)@.echo, snap@.text)
                    && !snapshot_empty(snap@) ==> match (snap@.image_bytes, snap@.image_mime) {
                    (Some(b), Some(m)) => exists|
                        text: String,
                        image_bytes: Vec<u8>,
                        image_mime: String,
                        res: Result<(), SessionError>,
                    |
                        #[trigger] call_ensures(S::publish_text_and_image, (&s, text, image_bytes, image_mime), res)
                            && text@ == snapshot_text(snap@) && image_bytes@ == b && image_mime@ == m,
                    _ => snapshot_text(snap@).len() > 0 ==> exists|text: String, res: Result<(), SessionError>|
                        #[trigger] call_ensures(S::publish_text, (&s, text), res) && text@ == snapshot_text(snap@),
                }))),
{
    assert forall|ctl: &mut ClipboardSyncController<C, S>|
        #[trigger] call_ensures(ClipboardSyncController::<C, S>::poll_local_clipboard, (ctl,), ())
            implies ((*ctl).session() matches Some(s) ==> ((*final(ctl))@ != (*ctl)@ ==> exists|
            cm: &mut C,
            snap: LocalClipboardSnapshot,
        |
            #[trigger] call_ensures(C::read_snapshot, (cm,), snap) && (!ignores_change((*ctl)@.echo, snap@.text)
                && !snapshot_empty(snap@) ==> match (snap@.image_bytes, snap@.image_mime) {
                (Some(b), Some(m)) => exists|
                    text: String,
                    image_bytes: Vec<u8>,
                    image_mime: String,
                    res: Result<(), SessionError>,
                |
                    #[trigger] call_ensures(S::publish_text_and_image, (&s, text, image_bytes, image_mime), res)
                        && text@ == snapshot_text(snap@) && image_bytes@ == b && image_mime@ == m,
                _ => snapshot_text(snap@).len() > 0 ==> exists|text: String, res: Result<(), SessionError>|
                    #[trigger] call_ensures(S::publish_text, (&s, text), res) && text@ == snapshot_text(snap@),
            }))) by {
        if (*ctl).session() is Some && (*final(ctl))@ != (*ctl)@ {
            let s = (*ctl).session()->0;
            let (cm, snap, a) = choose|cm: &mut C, snap: LocalClipboardSnapshot, a: LocalAction|
                #![trigger call_ensures(C::read_snapshot, (cm,), snap), sends(s, a)]
                call_ensures(C::read_snapshot, (cm,), snap) && sends(s, a) && (if ignores_change(
                    (*ctl)@.echo,
                    snap@.text,
                ) || snapshot_empty(snap@) {
                    a is Nothing
                } else {
                    plan_of(snap@, a)
                });
            assert(call_ensures(C::read_snapshot, (cm,), snap));
            match a {
                LocalAction::PublishTextAndImage { text, image_bytes, image_mime } => {
                    let res = choose|res: Result<(), SessionError>|
                        #[trigger] call_ensures(S::publish_text_and_image, (&s, text, image_bytes, image_mime), res);
                    assert(call_ensures(S::publish_text_and_image, (&s, text, image_bytes, image_mime), res));
                },
                LocalAction::PublishText(text) => {
                    let res = choose|res: Result<(), SessionError>|
                        #[trigger] call_ensures(S::publish_text, (&s, text), res);
                    assert(call_ensures(S::publish_text, (&s, text), res));
                },
                LocalAction::Nothing => {},
            }
        }
    }
}

/// Arming or pausing from the Shell reaches the Session: after
/// `set_armed(armed)` on a controller with an attached Session, that Session
/// was told `armed`, and the controller's `is_armed` reports what the Session
/// answers.
pub proof fn lemma_set_armed_tells_the_session<C: SystemClipboard, S: ClipSession>()
    ensures
        forall|ctl: ClipboardSyncController<C, S>, armed: bool|
            #[trigger] call_ensures(ClipboardSyncController::<C, S>::set_armed, (&ctl, armed), ())
                ==> (ctl.session() matches Some(s) ==> call_ensures(S::set_armed, (&s, armed), ())),
        forall|ctl: ClipboardSyncController<C, S>, r: bool|
            #[trigger] call_ensures(ClipboardSyncController::<C, S>::is_armed, (&ctl,), r)
                ==> (ctl.session() matches Some(s) ==> call_ensures(S::is_armed, (&s,), r)),
{
}

/// A remote Clip reaches the clipboard whole: whenever a remote poll changes
/// the controller, the Clip handed to the clipboard's `write_applied` is
/// exactly a Clip the attached Session's `poll_applied` returned (same text,
/// creation time, id, image bytes and MIME type), written to the clipboard as
/// it was before the poll, and the echo guard is told of that Clip's text.
pub proof fn lemma_remote_clip_is_written_whole<C: SystemClipboard, S: ClipSession>()
    ensures
        forall|ctl: &mut ClipboardSyncController<C, S>|
            #[trigger] call_ensures(ClipboardSyncController::<C, S>::poll_remote_applied, (ctl,), ())
                ==> ((*final(ctl))@ != (*ctl)@ ==> ((*ctl).session() matches Some(s) && exists|
                a: AppliedClipFfi,
                cm: &mut C,
                c: u64,
            |
                #![trigger call_ensures(C::write_applied, (cm, &a), ()), remote_written((*ctl)@, a.text@, c)]
                call_ensures(S::poll_applied, (&s,), Some(a)) && call_ensures(C::write_applied, (cm, &a), ())
                    && *cm == (*ctl).clipboard() && (*final(ctl))@ == remote_written((*ctl)@, a.text@, c))),
{
}

} // verus!
