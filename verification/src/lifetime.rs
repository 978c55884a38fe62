//! Shell Lifetime policy: pure rules for resume-on-boot, Arm, and capture gates.
use vstd::prelude::*;

verus! {

/// Snapshot of durable Shell state used for lifetime decisions.
#[derive(Clone, Copy, Debug, PartialEq, Eq, Structural)]
pub struct LifetimeSnapshot {
    /// Durable Armed flag (persisted by the Shell).
    pub durable_armed: bool,
    /// Android Elevated Clipboard Capture granted; macOS passes `true`.
    pub elevated_capture_granted: bool,
    /// Whether a Link Key is currently saved on this Device.
    pub has_link_key: bool,
    /// User Quit opted out of the next boot/login auto-start until reopen.
    pub quit_opted_out: bool,
    /// Platform requires Elevated Clipboard Capture to Arm (Android: true).
    pub requires_elevated_capture: bool,
}

/// Boot/login auto-starts the Shell: a Link Key is saved, the Device is
/// Armed, and the user has not opted out by Quit.
pub open spec fn auto_starts(snapshot: LifetimeSnapshot) -> bool {
    snapshot.has_link_key && snapshot.durable_armed && !snapshot.quit_opted_out
}

/// Whether boot/login should auto-start the Shell.
pub fn may_auto_start(snapshot: &LifetimeSnapshot) -> (r: bool)
    ensures
        r == (snapshot.has_link_key && snapshot.durable_armed && !snapshot.quit_opted_out),
{
    snapshot.has_link_key && snapshot.durable_armed && !snapshot.quit_opted_out
}

/// Capture is required on this platform but has not been granted.
pub open spec fn capture_missing(requires_elevated_capture: bool, elevated_capture_granted: bool) -> bool {
    requires_elevated_capture && !elevated_capture_granted
}

/// Whether the Device may enter Armed (Clip publish/accept).
pub fn may_enter_armed(snapshot: &LifetimeSnapshot) -> (r: bool)
    ensures
        r == (snapshot.has_link_key && !capture_missing(
            snapshot.requires_elevated_capture,
            snapshot.elevated_capture_granted,
        )),
{
    if !snapshot.has_link_key {
        return false;
    }
    if snapshot.requires_elevated_capture && !snapshot.elevated_capture_granted {
        return false;
    }
    true
}

/// Boot auto-started with Armed intent but capture missing: persist Paused.
pub fn boot_should_force_paused(snapshot: &LifetimeSnapshot) -> (r: bool)
    ensures
        r == (snapshot.has_link_key && snapshot.durable_armed && capture_missing(
            snapshot.requires_elevated_capture,
            snapshot.elevated_capture_granted,
        )),
{
    snapshot.has_link_key && snapshot.durable_armed && snapshot.requires_elevated_capture
        && !snapshot.elevated_capture_granted
}

/// Capture denied/revoked while requiring it: persist Paused.
pub fn capture_missing_should_persist_paused(
    requires_elevated_capture: bool,
    elevated_capture_granted: bool,
) -> (r: bool)
    ensures
        r == capture_missing(requires_elevated_capture, elevated_capture_granted),
{
    requires_elevated_capture && !elevated_capture_granted
}

/// Shell Lifetime continues only while a Link Key is saved.
pub fn should_keep_lifetime(has_link_key: bool) -> (r: bool)
    ensures
        r == has_link_key,
{
    has_link_key
}

/// A boot that must force Paused never also auto-starts into Armed: whenever
/// boot forces Paused, the Device is not allowed to enter Armed.
pub proof fn lemma_forced_pause_blocks_arming(snapshot: LifetimeSnapshot)
    requires
        snapshot.has_link_key && snapshot.durable_armed && capture_missing(
            snapshot.requires_elevated_capture,
            snapshot.elevated_capture_granted,
        ),
    ensures
        !(snapshot.has_link_key && !capture_missing(
            snapshot.requires_elevated_capture,
            snapshot.elevated_capture_granted,
        )),
{
}

} // verus!
