//! Windows Shell core: its stores, the clipboard seam, the echo guard and the
//! controller that couples the system clipboard with a Session. The tray UI
//! and the file-backed stores live with the Shell binary.
use vstd::prelude::*;

pub mod armed;
pub mod clipboard;
pub mod credentials;
pub mod echo;
pub mod nickname;
pub mod png;
pub mod session;
pub mod sync;
pub mod tray;

verus! {

/// Shell library version.
pub fn version() -> (r: &'static str)
    ensures
        r@ == "0.1.0"@,
{
    "0.1.0"
}

} // verus!
