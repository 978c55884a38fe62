//! WebSocket JSON message shapes exchanged between Devices and the relay.
use vstd::prelude::*;

verus! {

/// Messages a Device sends to the relay.
#[derive(Debug)]
pub enum ClientMessage {
    Publish { channel_id: String, ciphertext: String, nonce: String, protocol_version: u8 },
    Subscribe { channel_id: String },
    Unsubscribe { channel_id: String },
}

/// Messages the relay sends to a Device.
#[derive(Debug)]
pub enum ServerMessage {
    Empty { channel_id: String },
    Envelope {
        channel_id: String,
        ciphertext: String,
        nonce: String,
        protocol_version: u8,
        published_at: i64,
    },
    Error { code: String, message: String },
}

} // verus!
