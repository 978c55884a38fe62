//! Clipboard images as PNG: the system clipboard speaks RGBA pixels, Clips carry PNG.
use crate::encoding::opt_bytes;
use crate::ffi::AppliedClipFfi;
use crate::shell::clipboard::LocalClipboardSnapshot;
use ::image::ImageEncoder;
use vstd::prelude::*;
use vstd::string::StrSliceExecFns;

verus! {

/// The PNG encoding (default settings) of an 8-bit RGBA image, or `None`
/// when the encoder fails.
pub uninterp spec fn png_of_rgba(rgba: Seq<u8>, width: u32, height: u32) -> Option<Seq<u8>>;

/// The 8-bit RGBA pixels (width, height, bytes) of an encoded image, or
/// `None` when it does not decode.
pub uninterp spec fn rgba_of_image(encoded: Seq<u8>) -> Option<(u32, u32, Seq<u8>)>;

/// `PngEncoder::write_image` with `ExtendedColorType::Rgba8` (image). Trusted:
/// the result is the named PNG encoding of the pixels. The encoder asserts
/// that the buffer holds exactly `width * height` pixels of 4 bytes.
#[verifier::external_body]
fn rgba_to_png(rgba: &[u8], width: u32, height: u32) -> (r: Option<Vec<u8>>)
    requires
        rgba@.len() == width * height * 4,
    ensures
        opt_bytes(r) == png_of_rgba(rgba@, width, height),
{
    let mut out = Vec::new();
    let encoder = ::image::codecs::png::PngEncoder::new(&mut out);
    match encoder.write_image(rgba, width, height, ::image::ExtendedColorType::Rgba8) {
        Ok(()) => Some(out),
        Err(_) => None,
    }
}

/// `image::load_from_memory` then `to_rgba8` (image). Trusted: the result is
/// the named decoding into RGBA pixels with their width and height.
#[verifier::external_body]
fn image_to_rgba(encoded: &[u8]) -> (r: Option<(u32, u32, Vec<u8>)>)
    ensures
        match r {
            Some((w, h, px)) => rgba_of_image(encoded@) == Some((w, h, px@)),
            None => rgba_of_image(encoded@) is None,
        },
{
    match ::image::load_from_memory(encoded) {
        Ok(img) => {
            let rgba = img.to_rgba8();
            Some((rgba.width(), rgba.height(), rgba.into_raw()))
        },
        Err(_) => None,
    }
}

/// `needle` occurs in `s` at some position.
pub open spec fn contains_seq(s: Seq<char>, needle: Seq<char>) -> bool {
    exists|i: int| 0 <= i && i + needle.len() <= s.len() && #[trigger] s.subrange(i, i + needle.len()) == needle
}

/// Whether a MIME type names PNG: it contains `png`.
pub fn is_png_mime(mime: &str) -> (r: bool)
    ensures
        r == contains_seq(mime@, seq!['p', 'n', 'g']),
{
    let ghost needle = seq!['p', 'n', 'g'];
    let n = mime.unicode_len();
    if n < 3 {
        proof {
            assert forall|i: int| 0 <= i && i + needle.len() <= mime@.len() implies #[trigger] mime@.subrange(
                i,
                i + needle.len(),
            ) != needle by {}
        }
        return false;
    }
    let mut i: usize = 0;
    while i <= n - 3
        invariant
            needle == seq!['p', 'n', 'g'],
            n == mime@.len(),
            n >= 3,
            i <= n - 2,
            forall|k: int| 0 <= k < i ==> #[trigger] mime@.subrange(k, k + 3) != needle,
        decreases n - i,
    {
        if mime.get_char(i) == 'p' && mime.get_char(i + 1) == 'n' && mime.get_char(i + 2) == 'g' {
            proof {
                assert(mime@.subrange(i as int, i + 3) =~= needle);
            }
            return true;
        }
        proof {
            assert(mime@.subrange(i as int, i + 3)[0] == mime@[i as int]);
            assert(mime@.subrange(i as int, i + 3)[1] == mime@[i + 1]);
            assert(mime@.subrange(i as int, i + 3)[2] == mime@[i + 2]);
        }
        i = i + 1;
    }
    proof {
        assert forall|k: int| 0 <= k && k + needle.len() <= mime@.len() implies #[trigger] mime@.subrange(
            k,
            k + needle.len(),
        ) != needle by {
            assert(mime@.subrange(k, k + 3) != needle);
        }
    }
    false
}

/// The snapshot of what the system clipboard holds: its text, and its image
/// as PNG when there is one and it encodes.
pub open spec fn clipboard_snapshot(
    text: Option<Seq<char>>,
    image: Option<(Seq<u8>, usize, usize)>,
    s: crate::shell::clipboard::SnapshotModel,
) -> bool {
    &&& s.text == text
    &&& match image {
        Some((rgba, w, h)) => match png_of_rgba(rgba, w as u32, h as u32) {
            Some(png) => s.image_bytes == Some(png) && s.image_mime == Some("image/png"@),
            None => s.image_bytes is None && s.image_mime is None,
        },
        None => s.image_bytes is None && s.image_mime is None,
    }
}

/// Build the local snapshot from the clipboard's text and RGBA image
/// (`width` by `height` pixels).
pub fn snapshot_from_clipboard(text: Option<String>, image: Option<(Vec<u8>, usize, usize)>) -> (r: LocalClipboardSnapshot)
    requires
        image matches Some((rgba, w, h)) ==> rgba@.len() == (w as u32) * (h as u32) * 4,
    ensures
        clipboard_snapshot(
            match text {
                Some(t) => Some(t@),
                None => None,
            },
            match image {
                Some((rgba, w, h)) => Some((rgba@, w, h)),
                None => None,
            },
            r@,
        ),
{
    match image {
        Some((rgba, w, h)) => {
            match rgba_to_png(rgba.as_slice(), w as u32, h as u32) {
                Some(png) => LocalClipboardSnapshot {
                    image_bytes: Some(png),
                    image_mime: Some("image/png".to_owned()),
                    text,
                },
                None => LocalClipboardSnapshot { image_bytes: None, image_mime: None, text },
            }
        },
        None => LocalClipboardSnapshot { image_bytes: None, image_mime: None, text },
    }
}

/// The RGBA image to put on the system clipboard for an applied Clip: only
/// a PNG image (its MIME type contains `png`) that decodes.
pub fn image_to_write(applied: &AppliedClipFfi) -> (r: Option<(u32, u32, Vec<u8>)>)
    ensures
        match (applied.image_bytes, applied.image_mime) {
            (Some(b), Some(m)) => if contains_seq(m@, seq!['p', 'n', 'g']) {
                match r {
                    Some((w, h, px)) => rgba_of_image(b@) == Some((w, h, px@)),
                    None => rgba_of_image(b@) is None,
                }
            } else {
                r is None
            },
            _ => r is None,
        },
{
    match (&applied.image_bytes, &applied.image_mime) {
        (Some(bytes), Some(mime)) => {
            if is_png_mime(mime.as_str()) {
                image_to_rgba(bytes.as_slice())
            } else {
                None
            }
        },
        _ => None,
    }
}

} // verus!
