//! Sync Clip: the Clip Engine (Clip model, end-to-end encryption, sync rules,
//! Armed/Paused and echo suppression), the encrypted relay's latest-only
//! buffer and message rules, the Shell-facing facade, and the Windows Shell
//! core, each with its contracts.

pub mod bytes;
pub mod cbor;
pub mod crypto;
pub mod device;
pub mod encoding;
pub mod envelope;
pub mod ffi;
pub mod lifetime;
pub mod messages;
pub mod relay;
pub mod relay_server;
pub mod shell;
pub mod text;

pub use device::{AppliedClip, ClipId, DeviceError, DeviceState, MAX_IMAGE_BYTES};
pub use envelope::{ClipImage, Envelope, EnvelopeError, LinkKey, SealedEnvelope, TextClip};
pub use lifetime::{
    boot_should_force_paused, capture_missing_should_persist_paused, may_auto_start,
    may_enter_armed, should_keep_lifetime, LifetimeSnapshot,
};
use vstd::prelude::*;

verus! {

/// Semantic version of the Clip Engine library.
pub fn version() -> (r: &'static str)
    ensures
        r@ == "0.1.0"@,
{
    "0.1.0"
}

/// Lightweight readiness probe for Shell wiring checks.
pub fn ping() -> (r: &'static str)
    ensures
        r@ == "pong"@,
{
    "pong"
}

} // verus!
