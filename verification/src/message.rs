//! The inter-task message: what a client session task reports to the event
//! multiplexer. Connection identities are plain values; the outbound write
//! handle a `ClientConnected` hands over travels beside the message, outside
//! the library, indexed by the same identity.
use vstd::prelude::*;

verus! {

/// A message from a client session task to the event multiplexer.
pub enum PendingMessage {
    /// The connection authenticated; admit it to the registry.
    ClientConnected { id: u64 },
    /// The connection sent bytes destined for the serial device.
    ClientData { id: u64, bytes: Vec<u8> },
    /// The handshake failed; the connection was never admitted.
    ClientAuthFailed { id: u64 },
    /// The connection closed or its read failed; drop it from the registry.
    ClientClosed { id: u64 },
}

/// The mathematical view of a `PendingMessage`.
pub enum MessageModel {
    Connected { id: u64 },
    Data { id: u64, bytes: Seq<u8> },
    AuthFailed { id: u64 },
    Closed { id: u64 },
}

impl View for PendingMessage {
    type V = MessageModel;

    open spec fn view(&self) -> MessageModel {
        match self {
            PendingMessage::ClientConnected { id } => MessageModel::Connected { id: *id },
            PendingMessage::ClientData { id, bytes } => MessageModel::Data {
                id: *id,
                bytes: bytes@,
            },
            PendingMessage::ClientAuthFailed { id } => MessageModel::AuthFailed { id: *id },
            PendingMessage::ClientClosed { id } => MessageModel::Closed { id: *id },
        }
    }
}

} // verus!
