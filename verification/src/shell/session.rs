//! The Session seam for Shell sync loops (a joined Session, or a stand-in).
use crate::ffi::{AppliedClipFfi, SessionError};
use vstd::prelude::*;

verus! {

/// What the Shell's sync loops need of a Session.
pub trait ClipSession {
    fn is_armed(&self) -> bool;

    fn is_sync_idle(&self) -> bool;

    fn poll_applied(&self) -> Option<AppliedClipFfi>;

    fn publish_text(&self, text: String) -> Result<(), SessionError>;

    fn publish_text_and_image(
        &self,
        text: String,
        image_bytes: Vec<u8>,
        image_mime: String,
    ) -> Result<(), SessionError>;

    fn set_armed(&self, armed: bool);
}

impl<T: ClipSession> ClipSession for Box<T> {
    fn is_armed(&self) -> bool {
        (**self).is_armed()
    }

    fn is_sync_idle(&self) -> bool {
        (**self).is_sync_idle()
    }

    fn poll_applied(&self) -> Option<AppliedClipFfi> {
        (**self).poll_applied()
    }

    fn publish_text(&self, text: String) -> Result<(), SessionError> {
        (**self).publish_text(text)
    }

    fn publish_text_and_image(
        &self,
        text: String,
        image_bytes: Vec<u8>,
        image_mime: String,
    ) -> Result<(), SessionError> {
        (**self).publish_text_and_image(text, image_bytes, image_mime)
    }

    fn set_armed(&self, armed: bool) {
        (**self).set_armed(armed)
    }
}

} // verus!
