//! The Shell's tray: what it decides on each event and what it shows.
use crate::ffi::LifetimeSnapshotFfi;
use crate::lifetime::{auto_starts, LifetimeSnapshot};
use crate::text::push_str;
use vstd::prelude::*;

verus! {

/// The tray tooltip: "Sync Clip", the Local Nickname after a dot when set,
/// then the sync status.
pub open spec fn tooltip(nickname: Option<Seq<char>>, has_session: bool, armed: bool, sync_idle: bool) -> Seq<char> {
    let status = if !has_session {
        " — no Sync Group"@
    } else if sync_idle {
        " — Sync Idle"@
    } else if armed {
        " — Armed"@
    } else {
        " — Paused"@
    };
    tooltip_head(nickname) + status
}

/// "Sync Clip", with the Local Nickname after a dot when set.
pub open spec fn tooltip_head(nickname: Option<Seq<char>>) -> Seq<char> {
    match nickname {
        Some(n) => "Sync Clip · "@ + n,
        None => "Sync Clip"@,
    }
}

/// The tray tooltip for the Shell's state.
pub fn status_tooltip(nickname: Option<&str>, has_session: bool, armed: bool, sync_idle: bool) -> (r: String)
    ensures
        r@ == tooltip(
            match nickname {
                Some(n) => Some(n@),
                None => None,
            },
            has_session,
            armed,
            sync_idle,
        ),
{
    let mut tip = match nickname {
        Some(n) => {
            let mut t = "Sync Clip · ".to_owned();
            push_str(&mut t, n);
            t
        },
        None => "Sync Clip".to_owned(),
    };
    if !has_session {
        push_str(&mut tip, " — no Sync Group");
    } else if sync_idle {
        push_str(&mut tip, " — Sync Idle");
    } else if armed {
        push_str(&mut tip, " — Armed");
    } else {
        push_str(&mut tip, " — Paused");
    }
    tip
}

/// The Shell Lifetime snapshot of a Windows Device with saved credentials:
/// Windows needs no Elevated Clipboard Capture.
pub fn saved_link_key_snapshot(durable_armed: bool, quit_opted_out: bool) -> (r: LifetimeSnapshotFfi)
    ensures
        r == (LifetimeSnapshotFfi {
            durable_armed,
            elevated_capture_granted: true,
            has_link_key: true,
            quit_opted_out,
            requires_elevated_capture: false,
        }),
{
    LifetimeSnapshotFfi {
        durable_armed,
        elevated_capture_granted: true,
        has_link_key: true,
        quit_opted_out,
        requires_elevated_capture: false,
    }
}

/// What the tray Shell knows between events.
#[derive(Clone, Copy, Debug, PartialEq, Eq, Structural)]
pub struct TrayState {
    /// Durable Armed intent.
    pub armed: bool,
    /// The Quit opt-out from the next auto-start.
    pub quit_opted_out: bool,
    /// Credentials (a Link Key) are saved.
    pub has_link_key: bool,
    /// A join soft-failed and is retried (Sync Idle).
    pub pending_join: bool,
    /// A Session is attached.
    pub has_session: bool,
}

/// What happens to the tray Shell.
#[derive(Clone, Copy, Debug, PartialEq, Eq, Structural)]
pub enum TrayEvent {
    /// The Shell was opened.
    Opened,
    /// The user chose Quit.
    Quit,
    /// The user toggled Armed / Paused.
    ToggleArmed,
    /// The periodic tick.
    Tick,
    /// New credentials were saved (generated, or joined from the clipboard).
    LinkKeySaved,
    /// A join succeeded and its Session is attached.
    Joined,
    /// A join soft-failed.
    JoinFailed,
}

/// What the tray Shell asks its event loop to do, in order.
#[derive(Clone, Copy, Debug, PartialEq, Eq, Structural)]
pub enum TrayAction {
    /// Persist the Armed intent.
    PersistArmed(bool),
    /// Persist the Quit opt-out.
    PersistQuitOptOut(bool),
    /// Set the attached Session Armed or Paused.
    SetSessionArmed(bool),
    /// Join the Sync Group with the saved credentials and the Armed intent,
    /// then report `Joined` or `JoinFailed`.
    Join,
    /// Poll the clipboard and the Session, and refresh the tooltip.
    Poll,
    /// Detach the Session.
    Detach,
    /// Leave the event loop.
    Exit,
}

/// Whether the Shell joins its Sync Group when it is opened: whenever a Link
/// Key is saved. A Paused Device keeps its Sync Group membership (its
/// Session is joined Paused); the Armed intent gates only boot/login
/// auto-start.
pub open spec fn joins_on_open(s: TrayState) -> bool {
    s.has_link_key
}

/// The Shell Lifetime snapshot of a Windows Device in state `s`: it needs no
/// Elevated Clipboard Capture.
pub open spec fn tray_snapshot(s: TrayState) -> LifetimeSnapshot {
    LifetimeSnapshot {
        durable_armed: s.armed,
        elevated_capture_granted: true,
        has_link_key: s.has_link_key,
        quit_opted_out: s.quit_opted_out,
        requires_elevated_capture: false,
    }
}

/// The actions for toggling Armed / Paused in state `s`: persist the new
/// intent, then set the attached Session to it, or join (with the new
/// intent) when no Session is attached but a Link Key is saved.
pub open spec fn toggle_actions(s: TrayState) -> Seq<TrayAction> {
    if s.has_session {
        seq![TrayAction::PersistArmed(!s.armed), TrayAction::SetSessionArmed(!s.armed)]
    } else if s.has_link_key {
        seq![TrayAction::PersistArmed(!s.armed), TrayAction::Join]
    } else {
        seq![TrayAction::PersistArmed(!s.armed)]
    }
}

/// The tray Shell's decision for event `e` in state `s`: the next state and
/// the actions to carry out, in order.
pub open spec fn tray_next(s: TrayState, e: TrayEvent) -> (TrayState, Seq<TrayAction>) {
    match e {
        TrayEvent::Opened => (
            TrayState { quit_opted_out: false, ..s },
            if joins_on_open(s) {
                seq![TrayAction::PersistQuitOptOut(false), TrayAction::Join]
            } else {
                seq![TrayAction::PersistQuitOptOut(false)]
            },
        ),
        TrayEvent::Quit => (
            TrayState { quit_opted_out: true, has_session: false, ..s },
            seq![TrayAction::PersistQuitOptOut(true), TrayAction::Detach, TrayAction::Exit],
        ),
        TrayEvent::ToggleArmed => (TrayState { armed: !s.armed, ..s }, toggle_actions(s)),
        TrayEvent::Tick => (
            s,
            if s.pending_join && !s.has_session {
                seq![TrayAction::Join, TrayAction::Poll]
            } else {
                seq![TrayAction::Poll]
            },
        ),
        TrayEvent::LinkKeySaved => (TrayState { has_link_key: true, ..s }, seq![TrayAction::Join]),
        TrayEvent::Joined => (TrayState { pending_join: false, has_session: true, ..s }, seq![]),
        TrayEvent::JoinFailed => (TrayState { pending_join: true, ..s }, seq![]),
    }
}

proof fn lemma_no_join(t: Seq<TrayAction>)
    requires
        forall|i: int| 0 <= i < t.len() ==> t[i] != TrayAction::Join,
    ensures
        !t.contains(TrayAction::Join),
{
}

/// One step of the tray Shell: the next state and the actions for `e`.
pub fn tray_step(s: TrayState, e: TrayEvent) -> (r: (TrayState, Vec<TrayAction>))
    ensures
        r.0 == tray_next(s, e).0,
        r.1@ == tray_next(s, e).1,
        e is Quit ==> r.0 == (TrayState { quit_opted_out: true, has_session: false, ..s })
            && r.1@ == seq![TrayAction::PersistQuitOptOut(true), TrayAction::Detach, TrayAction::Exit],
        e is Opened ==> !r.0.quit_opted_out && r.0.armed == s.armed && (r.1@.contains(TrayAction::Join)
            <==> s.has_link_key),
        e is Opened ==> (auto_starts(tray_snapshot(r.0)) <==> s.has_link_key && s.armed),
        e is ToggleArmed ==> r.0 == (TrayState { armed: !s.armed, ..s }),
        e is ToggleArmed && !s.has_session && s.has_link_key ==> r.1@.contains(TrayAction::Join),
        e is ToggleArmed && s.has_session ==> r.1@.contains(TrayAction::SetSessionArmed(!s.armed)),
        e is Tick ==> (r.1@.contains(TrayAction::Join) <==> s.pending_join && !s.has_session),
{
    let mut actions: Vec<TrayAction> = Vec::new();
    let next = match e {
        TrayEvent::Opened => {
            actions.push(TrayAction::PersistQuitOptOut(false));
            if s.has_link_key {
                actions.push(TrayAction::Join);
            }
            TrayState { quit_opted_out: false, ..s }
        },
        TrayEvent::Quit => {
            actions.push(TrayAction::PersistQuitOptOut(true));
            actions.push(TrayAction::Detach);
            actions.push(TrayAction::Exit);
            TrayState { quit_opted_out: true, has_session: false, ..s }
        },
        TrayEvent::ToggleArmed => {
            actions.push(TrayAction::PersistArmed(!s.armed));
            if s.has_session {
                actions.push(TrayAction::SetSessionArmed(!s.armed));
            } else if s.has_link_key {
                actions.push(TrayAction::Join);
            }
            TrayState { armed: !s.armed, ..s }
        },
        TrayEvent::Tick => {
            if s.pending_join && !s.has_session {
                actions.push(TrayAction::Join);
            }
            actions.push(TrayAction::Poll);
            s
        },
        TrayEvent::LinkKeySaved => {
            actions.push(TrayAction::Join);
            TrayState { has_link_key: true, ..s }
        },
        TrayEvent::Joined => TrayState { pending_join: false, has_session: true, ..s },
        TrayEvent::JoinFailed => TrayState { pending_join: true, ..s },
    };
    proof {
        let expected = tray_next(s, e).1;
        assert(actions@ =~= expected);
        if e is Opened {
            if s.has_link_key {
                assert(expected[1] == TrayAction::Join);
            } else {
                lemma_no_join(expected);
            }
        }
        if e is ToggleArmed {
            if s.has_session {
                assert(expected[1] == TrayAction::SetSessionArmed(!s.armed));
            } else if s.has_link_key {
                assert(expected[1] == TrayAction::Join);
            }
        }
        if e is Tick {
            if s.pending_join && !s.has_session {
                assert(expected[0] == TrayAction::Join);
            } else {
                lemma_no_join(expected);
            }
        }
    }
    (next, actions)
}

/// Quitting keeps the Armed intent, opts out of the next auto-start and
/// leaves; opening the Shell again clears the opt-out, keeps the Armed intent
/// (so boot/login auto-start is re-enabled exactly when Armed) and rejoins
/// the Sync Group whenever a Link Key is saved, Armed or Paused.
pub proof fn lemma_quit_then_open(s: TrayState)
    ensures
        tray_next(s, TrayEvent::Quit).0.armed == s.armed,
        tray_next(s, TrayEvent::Quit).0.quit_opted_out,
        !auto_starts(tray_snapshot(tray_next(s, TrayEvent::Quit).0)),
        !tray_next(tray_next(s, TrayEvent::Quit).0, TrayEvent::Opened).0.quit_opted_out,
        tray_next(tray_next(s, TrayEvent::Quit).0, TrayEvent::Opened).0.armed == s.armed,
        auto_starts(tray_snapshot(tray_next(tray_next(s, TrayEvent::Quit).0, TrayEvent::Opened).0))
            <==> s.has_link_key && s.armed,
        s.has_link_key ==> tray_next(tray_next(s, TrayEvent::Quit).0, TrayEvent::Opened).1.contains(
            TrayAction::Join,
        ),
{
    let q = tray_next(s, TrayEvent::Quit).0;
    let o = tray_next(q, TrayEvent::Opened).1;
    if s.has_link_key {
        assert(o[1] == TrayAction::Join);
    }
}

/// A Paused Device keeps its Sync Group: opening it with a saved Link Key
/// joins (Paused), and arming it later sets the joined Session Armed; if the
/// join had not succeeded, arming joins again.
pub proof fn lemma_paused_device_keeps_sync_group(s: TrayState)
    requires
        s.has_link_key,
        !s.armed,
    ensures
        tray_next(s, TrayEvent::Opened).1.contains(TrayAction::Join),
        !tray_next(s, TrayEvent::Opened).0.armed,
        tray_next(tray_next(tray_next(s, TrayEvent::Opened).0, TrayEvent::Joined).0, TrayEvent::ToggleArmed).1.contains(
            TrayAction::SetSessionArmed(true),
        ),
        tray_next(tray_next(tray_next(s, TrayEvent::Opened).0, TrayEvent::Joined).0, TrayEvent::ToggleArmed).0.armed,
        !s.has_session ==> tray_next(s, TrayEvent::ToggleArmed).1.contains(TrayAction::Join),
{
    let o = tray_next(s, TrayEvent::Opened).1;
    assert(o[1] == TrayAction::Join);
    let j = tray_next(tray_next(s, TrayEvent::Opened).0, TrayEvent::Joined).0;
    let t = tray_next(j, TrayEvent::ToggleArmed).1;
    assert(t[1] == TrayAction::SetSessionArmed(true));
    if !s.has_session {
        assert(tray_next(s, TrayEvent::ToggleArmed).1[1] == TrayAction::Join);
    }
}

/// A soft-failed join is retried on every tick until a join succeeds.
pub proof fn lemma_failed_join_is_retried(s: TrayState)
    requires
        !s.has_session,
    ensures
        tray_next(tray_next(s, TrayEvent::JoinFailed).0, TrayEvent::Tick).1.contains(TrayAction::Join),
        tray_next(tray_next(s, TrayEvent::JoinFailed).0, TrayEvent::Tick).0 == tray_next(s, TrayEvent::JoinFailed).0,
        !tray_next(tray_next(s, TrayEvent::Joined).0, TrayEvent::Tick).1.contains(TrayAction::Join),
{
    let t = tray_next(tray_next(s, TrayEvent::JoinFailed).0, TrayEvent::Tick).1;
    assert(t[0] == TrayAction::Join);
    let u = tray_next(tray_next(s, TrayEvent::Joined).0, TrayEvent::Tick).1;
    assert forall|i: int| 0 <= i < u.len() implies u[i] != TrayAction::Join by {}
}

/// The tray tooltip for tray state `s`: a Shell whose join is still being
/// retried is in its Sync Group but Sync Idle; `session_sync_idle` is what
/// the attached Session reports.
pub open spec fn tray_tooltip_of(nickname: Option<Seq<char>>, s: TrayState, session_sync_idle: bool) -> Seq<char> {
    tooltip(
        nickname,
        s.has_session || s.pending_join,
        s.armed,
        session_sync_idle || (s.pending_join && !s.has_session),
    )
}

/// The tray tooltip for tray state `s`.
pub fn tray_tooltip(nickname: Option<&str>, s: TrayState, session_sync_idle: bool) -> (r: String)
    ensures
        r@ == tray_tooltip_of(
            match nickname {
                Some(n) => Some(n@),
                None => None,
            },
            s,
            session_sync_idle,
        ),
{
    status_tooltip(
        nickname,
        s.has_session || s.pending_join,
        s.armed,
        session_sync_idle || (s.pending_join && !s.has_session),
    )
}

/// Fail soft: while a join is being retried and no Session is attached, the
/// Shell shows Sync Idle (not Paused, not out of the Sync Group).
pub proof fn lemma_pending_join_shows_sync_idle(nickname: Option<Seq<char>>, s: TrayState, session_sync_idle: bool)
    requires
        s.pending_join,
        !s.has_session,
    ensures
        tray_tooltip_of(nickname, s, session_sync_idle) == tooltip_head(nickname) + " — Sync Idle"@,
{
}

} // verus!
