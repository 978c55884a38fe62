//! The Link Key, ephemeral id and relay URL a Shell joins its Sync Group with.
use crate::bytes::copy_bytes;
use crate::encoding::base32_encode_spec;
use crate::envelope::random_draw;
use crate::ffi::{
    default_relay_ws_url, generate_ephemeral_id, generate_link_key, link_key_to_base32,
    DEFAULT_RELAY_WS_URL,
};
use vstd::prelude::*;

verus! {

/// Link Key + ephemeral id + relay URL for joining a Sync Group.
#[derive(Clone, Debug, Eq, PartialEq)]
pub struct ShellCredentials {
    pub ephemeral_id: Vec<u8>,
    pub link_key: Vec<u8>,
    pub relay_ws_url: String,
}

/// The fields of saved credentials.
pub struct CredentialsModel {
    pub ephemeral_id: Seq<u8>,
    pub link_key: Seq<u8>,
    pub relay_ws_url: Seq<char>,
}

impl View for ShellCredentials {
    type V = CredentialsModel;

    open spec fn view(&self) -> CredentialsModel {
        CredentialsModel {
            ephemeral_id: self.ephemeral_id@,
            link_key: self.link_key@,
            relay_ws_url: self.relay_ws_url@,
        }
    }
}

impl ShellCredentials {
    /// A copy of these credentials with the same fields.
    pub fn copied(&self) -> (r: ShellCredentials)
        ensures
            r@ == self@,
    {
        ShellCredentials {
            ephemeral_id: copy_bytes(self.ephemeral_id.as_slice()),
            link_key: copy_bytes(self.link_key.as_slice()),
            relay_ws_url: self.relay_ws_url.clone(),
        }
    }
}

/// `std::io::Error`, carried opaquely in a store error.
#[verifier::external_type_specification]
#[verifier::external_body]
pub struct ExIoError(std::io::Error);

/// `serde_json::Error`, carried opaquely in a store error.
#[verifier::external_type_specification]
#[verifier::external_body]
pub struct ExJsonError(serde_json::Error);

/// Why a credential store failed.
#[derive(Debug)]
pub enum StoreError {
    Io(std::io::Error),
    Json(serde_json::Error),
}

impl From<std::io::Error> for StoreError {
    fn from(e: std::io::Error) -> (r: StoreError) {
        StoreError::Io(e)
    }
}

impl vstd::std_specs::convert::FromSpecImpl<std::io::Error> for StoreError {
    open spec fn obeys_from_spec() -> bool {
        true
    }

    open spec fn from_spec(e: std::io::Error) -> StoreError {
        StoreError::Io(e)
    }
}

impl From<serde_json::Error> for StoreError {
    fn from(e: serde_json::Error) -> (r: StoreError) {
        StoreError::Json(e)
    }
}

impl vstd::std_specs::convert::FromSpecImpl<serde_json::Error> for StoreError {
    open spec fn obeys_from_spec() -> bool {
        true
    }

    open spec fn from_spec(e: serde_json::Error) -> StoreError {
        StoreError::Json(e)
    }
}

/// Where a Shell keeps its credentials.
pub trait LinkKeyStoring {
    fn delete(&mut self) -> Result<(), StoreError>;

    fn load(&self) -> Result<Option<ShellCredentials>, StoreError>;

    fn save(&mut self, credentials: &ShellCredentials) -> Result<(), StoreError>;
}

/// In-memory credential store.
pub struct InMemoryCredentialStore {
    value: Option<ShellCredentials>,
}

impl InMemoryCredentialStore {
    /// The credentials held, if any.
    pub closed spec fn held(&self) -> Option<CredentialsModel> {
        match self.value {
            Some(c) => Some(c@),
            None => None,
        }
    }
}

impl Default for InMemoryCredentialStore {
    /// An empty store.
    fn default() -> (r: InMemoryCredentialStore)
        ensures
            r.held() is None,
    {
        InMemoryCredentialStore { value: None }
    }
}

impl LinkKeyStoring for InMemoryCredentialStore {
    fn save(&mut self, credentials: &ShellCredentials) -> (r: Result<(), StoreError>)
        ensures
            r is Ok,
            final(self).held() == Some(credentials@),
    {
        self.value = Some(credentials.copied());
        Ok(())
    }

    fn load(&self) -> (r: Result<Option<ShellCredentials>, StoreError>)
        ensures
            r matches Ok(v) && match v {
                Some(c) => self.held() == Some(c@),
                None => self.held() is None,
            },
    {
        match &self.value {
            Some(c) => Ok(Some(c.copied())),
            None => Ok(None),
        }
    }

    fn delete(&mut self) -> (r: Result<(), StoreError>)
        ensures
            r is Ok,
            final(self).held() is None,
    {
        self.value = None;
        Ok(())
    }
}

/// Credentials for joining with `link_key`: the saved ephemeral id and relay
/// URL are kept when there are saved credentials, else a fresh 16-byte
/// ephemeral id and the default relay URL are used.
pub fn join_credentials(link_key: Vec<u8>, saved: Option<ShellCredentials>) -> (r: ShellCredentials)
    ensures
        r@.link_key == link_key@,
        match saved {
            Some(c) => r@.ephemeral_id == c@.ephemeral_id && r@.relay_ws_url == c@.relay_ws_url,
            None => r@.ephemeral_id.len() == 16 && random_draw(16, r@.ephemeral_id) && r@.relay_ws_url
                == DEFAULT_RELAY_WS_URL@,
        },
{
    match saved {
        Some(c) => ShellCredentials { ephemeral_id: c.ephemeral_id, link_key, relay_ws_url: c.relay_ws_url },
        None => ShellCredentials {
            ephemeral_id: generate_ephemeral_id(),
            link_key,
            relay_ws_url: default_relay_ws_url(),
        },
    }
}

/// Fresh credentials for a new Sync Group: a new 32-byte Link Key, a new
/// 16-byte ephemeral id and the default relay URL, with the Link Key's
/// base32 text to hand to the other Devices.
pub fn fresh_credentials() -> (r: (ShellCredentials, String))
    ensures
        r.0@.link_key.len() == 32,
        r.0@.ephemeral_id.len() == 16,
        random_draw(32, r.0@.link_key),
        random_draw(16, r.0@.ephemeral_id),
        r.0@.relay_ws_url == DEFAULT_RELAY_WS_URL@,
        r.1@ == base32_encode_spec(r.0@.link_key),
{
    let key = generate_link_key();
    let encoded = link_key_to_base32(copy_bytes(key.as_slice()));
    let creds = ShellCredentials {
        ephemeral_id: generate_ephemeral_id(),
        link_key: key,
        relay_ws_url: default_relay_ws_url(),
    };
    (creds, encoded)
}

} // verus!
