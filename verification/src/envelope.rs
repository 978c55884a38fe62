//! The Clip model, its AEAD envelope, and sealing/opening with the Link Key.
use crate::bytes::{bytes_equal, copy_bytes, vec_to_array};
use crate::cbor::{decode_clip_cbor, decode_outcome, encode_clip_cbor, encode_wire, WireClip};
use crate::encoding::opt_bytes;
use crate::text::{decimal, push_decimal, push_str};
use crate::crypto::{derive_aead_key, derive_channel_id, spec_aead_key, spec_channel_id};
use chacha20poly1305::aead::{Aead, KeyInit, Payload};
use chacha20poly1305::{XChaCha20Poly1305, XNonce};
use rand::RngCore;
use vstd::prelude::*;

verus! {

/// Shared Sync Group secret: 32 raw bytes (the Shell decodes its UX encoding).
#[derive(Clone, Copy, Debug, Eq, PartialEq)]
pub struct LinkKey(pub [u8; 32]);

/// Plain-text Clip before encryption.
#[derive(Clone, Debug, Eq, PartialEq)]
pub struct TextClip {
    pub created_at: i64,
    pub id: [u8; 16],
    pub image: Option<ClipImage>,
    pub schema_version: u8,
    pub sender_ephemeral_id: [u8; 16],
    pub text: String,
}

/// Optional image part of a Clip.
#[derive(Clone, Debug, Eq, PartialEq)]
pub struct ClipImage {
    pub bytes: Vec<u8>,
    pub mime: String,
}

/// Ciphertext envelope fields the relay may store and forward (no plaintext).
#[derive(Clone, Debug, Eq, PartialEq)]
pub struct SealedEnvelope {
    pub channel_id: [u8; 16],
    pub ciphertext: Vec<u8>,
    pub nonce: [u8; 24],
    pub protocol_version: u8,
}

/// Why sealing or opening an envelope failed.
#[derive(Debug)]
pub enum EnvelopeError {
    Decrypt,
    Cbor(String),
    Schema(u8),
    TooLarge,
}

/// An `EnvelopeError` without its message text.
pub enum ErrorKind {
    Decrypt,
    Cbor,
    Schema(u8),
    TooLarge,
}

/// The kind of an envelope error.
pub open spec fn error_kind(e: EnvelopeError) -> ErrorKind {
    match e {
        EnvelopeError::Decrypt => ErrorKind::Decrypt,
        EnvelopeError::Cbor(_) => ErrorKind::Cbor,
        EnvelopeError::Schema(v) => ErrorKind::Schema(v),
        EnvelopeError::TooLarge => ErrorKind::TooLarge,
    }
}

/// A Clip result seen through the Clip's view and the error's kind.
pub open spec fn clip_result_view(r: Result<TextClip, EnvelopeError>) -> Result<WireClip, ErrorKind> {
    match r {
        Ok(c) => Ok(c@),
        Err(e) => Err(error_kind(e)),
    }
}

/// The message text of an envelope error.
pub open spec fn error_message(e: EnvelopeError) -> Seq<char> {
    match e {
        EnvelopeError::Decrypt => "AEAD decrypt failed"@,
        EnvelopeError::Cbor(m) => "CBOR encode/decode failed: "@ + m@,
        EnvelopeError::Schema(v) => "invalid Clip schema_version: "@ + decimal(v as nat),
        EnvelopeError::TooLarge => "ciphertext exceeds 6 MiB soft cap"@,
    }
}

impl EnvelopeError {
    /// The error's message text.
    pub fn message(&self) -> (r: String)
        ensures
            r@ == error_message(*self),
    {
        match self {
            EnvelopeError::Decrypt => "AEAD decrypt failed".to_owned(),
            EnvelopeError::Cbor(m) => {
                let mut s = "CBOR encode/decode failed: ".to_owned();
                push_str(&mut s, m.as_str());
                s
            },
            EnvelopeError::Schema(v) => {
                let mut s = "invalid Clip schema_version: ".to_owned();
                push_decimal(&mut s, *v as u64);
                s
            },
            EnvelopeError::TooLarge => "ciphertext exceeds 6 MiB soft cap".to_owned(),
        }
    }
}

/// The image part as `(bytes, mime)`.
pub open spec fn image_view(image: Option<ClipImage>) -> Option<(Seq<u8>, Seq<char>)> {
    match image {
        Some(img) => Some((img.bytes@, img.mime@)),
        None => None,
    }
}

impl View for TextClip {
    type V = WireClip;

    open spec fn view(&self) -> WireClip {
        WireClip {
            created_at: self.created_at,
            id: self.id@,
            image: image_view(self.image),
            schema_version: self.schema_version,
            sender_ephemeral_id: self.sender_ephemeral_id@,
            text: self.text@,
        }
    }
}

/// Envelope fields as byte sequences.
pub struct SealedModel {
    pub channel_id: Seq<u8>,
    pub ciphertext: Seq<u8>,
    pub nonce: Seq<u8>,
    pub protocol_version: u8,
}

impl View for SealedEnvelope {
    type V = SealedModel;

    open spec fn view(&self) -> SealedModel {
        SealedModel {
            channel_id: self.channel_id@,
            ciphertext: self.ciphertext@,
            nonce: self.nonce@,
            protocol_version: self.protocol_version,
        }
    }
}

/// Ciphertexts above this many bytes are refused when sealing (6 MiB: room for
/// a ~5 MiB encoded image plus AEAD overhead).
pub const SEALED_CIPHERTEXT_CAP: usize = 6 * 1024 * 1024;

/// XChaCha20-Poly1305 processes at most this many 64-byte blocks per message.
pub const AEAD_MAX_BLOCKS: usize = 4294967295;

/// Whether a message of `len` bytes is within the cipher's block limit.
pub open spec fn aead_fits(len: int) -> bool {
    len / 64 < AEAD_MAX_BLOCKS
}

/// XChaCha20-Poly1305 ciphertext (with its 16-byte tag appended) of `msg`.
pub uninterp spec fn xchacha20poly1305_seal(key: Seq<u8>, nonce: Seq<u8>, aad: Seq<u8>, msg: Seq<u8>) -> Seq<u8>;

/// XChaCha20-Poly1305 decryption: the plaintext, or `None` when the tag does not verify.
pub uninterp spec fn xchacha20poly1305_open(key: Seq<u8>, nonce: Seq<u8>, aad: Seq<u8>, ct: Seq<u8>) -> Option<Seq<u8>>;

/// `XChaCha20Poly1305::encrypt` (chacha20poly1305). Trusted: it fails exactly
/// when the message exceeds the block limit; otherwise it returns the named
/// ciphertext, 16 bytes longer than the message (the tag is appended).
/// A message within 16 bytes of `usize::MAX` would overflow the buffer size;
/// no slice can be that long.
#[verifier::external_body]
fn aead_encrypt(key: &[u8; 32], nonce: &[u8; 24], aad: &[u8], msg: &[u8]) -> (r: Option<Vec<u8>>)
    ensures
        r is Some <==> aead_fits(msg@.len() as int),
        r matches Some(c) ==> c@ == xchacha20poly1305_seal(key@, nonce@, aad@, msg@) && c@.len()
            == msg@.len() + 16,
{
    let cipher = XChaCha20Poly1305::new_from_slice(key).expect("32-byte key");
    cipher.encrypt(XNonce::from_slice(nonce), Payload { msg, aad }).ok()
}

/// `XChaCha20Poly1305::decrypt` (chacha20poly1305). Trusted: the result is the
/// named decryption, and decrypting what `encrypt` produced under the same
/// key, nonce and associated data gives the message back.
#[verifier::external_body]
fn aead_decrypt(key: &[u8; 32], nonce: &[u8; 24], aad: &[u8], ct: &[u8]) -> (r: Option<Vec<u8>>)
    ensures
        opt_bytes(r) == xchacha20poly1305_open(key@, nonce@, aad@, ct@),
        forall|m: Seq<u8>|
            #![trigger xchacha20poly1305_seal(key@, nonce@, aad@, m)]
            xchacha20poly1305_seal(key@, nonce@, aad@, m) == ct@ && aead_fits(m.len() as int)
                ==> opt_bytes(r) == Some(m),
{
    let cipher = XChaCha20Poly1305::new_from_slice(key).expect("32-byte key");
    cipher.decrypt(XNonce::from_slice(nonce), Payload { msg: ct, aad }).ok()
}

/// `len` random bytes (`rand::thread_rng().fill_bytes`). Trusted: only the
/// length is promised; the contents are chance.
#[verifier::external_body]
pub(crate) fn random_bytes(len: usize) -> (r: Vec<u8>)
    ensures
        r@.len() == len,
{
    let mut v = vec![0u8; len];
    rand::thread_rng().fill_bytes(&mut v);
    v
}

/// `bytes` are what one draw of `len` bytes from the random source gave:
/// a possible result of `random_bytes(len)`.
pub closed spec fn random_draw(len: usize, bytes: Seq<u8>) -> bool {
    exists|v: Vec<u8>| #[trigger] call_ensures(random_bytes, (len,), v) && v@ == bytes
}

/// What a call of `random_bytes(len)` returned is a random draw of `len` bytes.
pub(crate) proof fn lemma_random_draw(len: usize, v: Vec<u8>)
    requires
        call_ensures(random_bytes, (len,), v),
    ensures
        random_draw(len, v@),
        v@.len() == len,
{
}

/// Sealing `clip` under `link_key` with `nonce`: the schema must be 1, the
/// CBOR plaintext must be within the cipher's limit, and the ciphertext
/// (plaintext plus 16-byte tag) within the 6 MiB cap.
pub open spec fn spec_seal(link_key: Seq<u8>, clip: WireClip, nonce: Seq<u8>) -> Result<SealedModel, ErrorKind> {
    let plaintext = encode_wire(clip);
    if clip.schema_version != 1 {
        Err(ErrorKind::Schema(clip.schema_version))
    } else if !aead_fits(plaintext.len() as int) {
        Err(ErrorKind::Decrypt)
    } else if plaintext.len() + 16 > SEALED_CIPHERTEXT_CAP {
        Err(ErrorKind::TooLarge)
    } else {
        Ok(
            SealedModel {
                channel_id: spec_channel_id(link_key),
                ciphertext: xchacha20poly1305_seal(
                    spec_aead_key(link_key),
                    nonce,
                    spec_channel_id(link_key),
                    plaintext,
                ),
                nonce,
                protocol_version: 1,
            },
        )
    }
}

/// Opening `sealed` under `link_key`: the channel id must be the Link Key's,
/// the tag must verify with the channel id as associated data, and the
/// plaintext must decode as a Clip.
pub open spec fn spec_open(link_key: Seq<u8>, sealed: SealedModel) -> Result<WireClip, ErrorKind> {
    if sealed.channel_id != spec_channel_id(link_key) {
        Err(ErrorKind::Decrypt)
    } else {
        match xchacha20poly1305_open(
            spec_aead_key(link_key),
            sealed.nonce,
            spec_channel_id(link_key),
            sealed.ciphertext,
        ) {
            Some(plaintext) => decode_outcome(plaintext),
            None => Err(ErrorKind::Decrypt),
        }
    }
}

/// A sealed result seen through the envelope's view and the error's kind.
pub open spec fn sealed_result_view(r: Result<SealedEnvelope, EnvelopeError>) -> Result<SealedModel, ErrorKind> {
    match r {
        Ok(s) => Ok(s@),
        Err(e) => Err(error_kind(e)),
    }
}

/// `result` is a sealed envelope with the channel id, ciphertext and nonce of
/// `sealed` (the protocol version plays no part in opening).
pub open spec fn seals_to(result: Result<SealedModel, ErrorKind>, sealed: SealedModel) -> bool {
    match result {
        Ok(s) => s.channel_id == sealed.channel_id && s.ciphertext == sealed.ciphertext && s.nonce
            == sealed.nonce,
        Err(_) => false,
    }
}

/// A Clip that seal accepts and whose ids are 16 bytes long.
pub open spec fn sealable(clip: WireClip) -> bool {
    &&& clip.schema_version == 1
    &&& clip.id.len() == 16
    &&& clip.sender_ephemeral_id.len() == 16
    &&& crate::cbor::wire_fits(clip)
}

impl TextClip {
    /// A copy of this Clip with the same fields.
    pub fn copied(&self) -> (r: TextClip)
        ensures
            r@ == self@,
    {
        let image = match &self.image {
            Some(img) => Some(ClipImage { bytes: copy_bytes(img.bytes.as_slice()), mime: img.mime.clone() }),
            None => None,
        };
        TextClip {
            created_at: self.created_at,
            id: self.id,
            image,
            schema_version: self.schema_version,
            sender_ephemeral_id: self.sender_ephemeral_id,
            text: self.text.clone(),
        }
    }
}

/// Public seal/open API: encrypts Clip plaintext to a wire envelope and back.
pub struct Envelope;

impl Envelope {
    /// Seal a Clip for the Sync Group channel with the given 24-byte nonce.
    pub fn seal_with_nonce(link_key: &LinkKey, clip: &TextClip, nonce: [u8; 24]) -> (r: Result<
        SealedEnvelope,
        EnvelopeError,
    >)
        ensures
            sealed_result_view(r) == spec_seal(link_key.0@, clip@, nonce@),
            r is Ok ==> crate::cbor::wire_fits(clip@),
            r matches Ok(s) ==> s.ciphertext@.len() == encode_wire(clip@).len() + 16,
    {
        let channel_id = derive_channel_id(link_key);
        let aead_key = derive_aead_key(link_key);
        let plaintext = match encode_clip_cbor(clip) {
            Ok(p) => p,
            Err(e) => return Err(e),
        };
        let plaintext_len = plaintext.len();
        proof {
            assert(plaintext@.len() == plaintext_len);
            crate::cbor::lemma_encoded_fits(clip@);
        }
        let ciphertext = match aead_encrypt(&aead_key, &nonce, channel_id.as_slice(), plaintext.as_slice()) {
            Some(c) => c,
            None => return Err(EnvelopeError::Decrypt),
        };
        if ciphertext.len() > SEALED_CIPHERTEXT_CAP {
            return Err(EnvelopeError::TooLarge);
        }
        Ok(SealedEnvelope { channel_id, ciphertext, nonce, protocol_version: 1 })
    }

    /// Seal a Clip for the Sync Group channel with a fresh random nonce.
    pub fn seal(link_key: &LinkKey, clip: &TextClip) -> (r: Result<SealedEnvelope, EnvelopeError>)
        ensures
            exists|nonce: Seq<u8>|
                nonce.len() == 24 && #[trigger] spec_seal(link_key.0@, clip@, nonce)
                    == sealed_result_view(r) && random_draw(24, nonce),
            r matches Ok(s) ==> s.ciphertext@.len() == encode_wire(clip@).len() + 16,
    {
        let nonce_bytes = random_bytes(24);
        proof {
            lemma_random_draw(24, nonce_bytes);
        }
        let nonce: [u8; 24] = vec_to_array(&nonce_bytes);
        Self::seal_with_nonce(link_key, clip, nonce)
    }

    /// Open a ciphertext envelope back to a Clip using the Link Key.
    pub fn open(link_key: &LinkKey, sealed: &SealedEnvelope) -> (r: Result<TextClip, EnvelopeError>)
        ensures
            clip_result_view(r) == spec_open(link_key.0@, sealed@),
            forall|clip: WireClip, nonce: Seq<u8>|
                #![trigger spec_seal(link_key.0@, clip, nonce)]
                sealable(clip) && seals_to(spec_seal(link_key.0@, clip, nonce), sealed@)
                    ==> clip_result_view(r) == Ok::<WireClip, ErrorKind>(clip),
    {
        let channel_id = derive_channel_id(link_key);
        if !bytes_equal(sealed.channel_id.as_slice(), channel_id.as_slice()) {
            return Err(EnvelopeError::Decrypt);
        }
        let aead_key = derive_aead_key(link_key);
        let plaintext = match aead_decrypt(&aead_key, &sealed.nonce, channel_id.as_slice(), sealed.ciphertext.as_slice()) {
            Some(p) => p,
            None => return Err(EnvelopeError::Decrypt),
        };
        let r = decode_clip_cbor(plaintext.as_slice());
        proof {
            assert forall|clip: WireClip, nonce: Seq<u8>|
                #![trigger spec_seal(link_key.0@, clip, nonce)]
                sealable(clip) && seals_to(spec_seal(link_key.0@, clip, nonce), sealed@)
                implies clip_result_view(r) == Ok::<WireClip, ErrorKind>(clip) by {
                let m = encode_wire(clip);
                assert(xchacha20poly1305_seal(spec_aead_key(link_key.0@), sealed.nonce@, channel_id@, m) == sealed.ciphertext@);
                crate::cbor::lemma_clip_cbor_roundtrip(clip);
            }
        }
        r
    }
}

} // verus!
