//! The client mode's decision core: connected to a remote bridge, relay
//! the local keyboard out and show what comes back. The first chunk the
//! server sends is its password prompt; it is answered with the
//! little-endian password bytes and not shown. The connection itself lives
//! outside the library.
use vstd::prelude::*;

use crate::handshake::le_bytes_of;
use crate::keys::key_bytes;
use crate::keys::translate;
use crate::mux::TermEvent;
use crate::mux::is_exit_stroke;

verus! {

/// One event on the client side: a terminal event, or an outcome of one
/// read from the server connection.
pub enum ClientEvent {
    Term(TermEvent),
    /// The server sent bytes (a read of at least one byte).
    ServerData(Vec<u8>),
    /// The server closed the connection (a zero-length read).
    ServerClosed,
    /// Reading from the server failed.
    ServerFailed,
}

/// The mathematical view of a client event.
pub enum ClientEventModel {
    Term(TermEvent),
    ServerData(Seq<u8>),
    ServerClosed,
    ServerFailed,
}

impl View for ClientEvent {
    type V = ClientEventModel;

    open spec fn view(&self) -> ClientEventModel {
        match self {
            ClientEvent::Term(t) => ClientEventModel::Term(*t),
            ClientEvent::ServerData(b) => ClientEventModel::ServerData(b@),
            ClientEvent::ServerClosed => ClientEventModel::ServerClosed,
            ClientEvent::ServerFailed => ClientEventModel::ServerFailed,
        }
    }
}

/// What the surrounding loop must do after one client step.
pub enum ClientAction {
    Idle,
    /// Write these bytes to the server connection.
    SendServer(Vec<u8>),
    /// Show these bytes locally and append them to the capture file.
    Display(Vec<u8>),
    /// The loop terminates.
    Stop,
}

/// The mathematical view of a client action.
pub enum ClientActionModel {
    Idle,
    SendServer(Seq<u8>),
    Display(Seq<u8>),
    Stop,
}

impl View for ClientAction {
    type V = ClientActionModel;

    open spec fn view(&self) -> ClientActionModel {
        match self {
            ClientAction::Idle => ClientActionModel::Idle,
            ClientAction::SendServer(b) => ClientActionModel::SendServer(b@),
            ClientAction::Display(b) => ClientActionModel::Display(b@),
            ClientAction::Stop => ClientActionModel::Stop,
        }
    }
}

/// The mathematical view of the client's state: whether the password was
/// already sent, and whether the loop is still running.
pub struct ClientModel {
    pub sent_password: bool,
    pub running: bool,
}

/// One step of the client: from the current state and one event to the
/// next state and the action the loop must perform. The first server
/// chunk — the prompt — is answered with the password's little-endian
/// bytes and swallowed; every later chunk is displayed verbatim. Ctrl+X,
/// a closed connection or a failed read stops the loop.
pub open spec fn client_step(m: ClientModel, password: u32, ev: ClientEventModel) -> (
    ClientModel,
    ClientActionModel,
) {
    match ev {
        ClientEventModel::Term(t) => match t {
            TermEvent::Key(k) => {
                if is_exit_stroke(k) {
                    (ClientModel { running: false, ..m }, ClientActionModel::Stop)
                } else {
                    match key_bytes(k.code, k.ctrl) {
                        Some(s) => (m, ClientActionModel::SendServer(s)),
                        None => (m, ClientActionModel::Idle),
                    }
                }
            },
            TermEvent::Resize => (m, ClientActionModel::Idle),
            TermEvent::Unknown => (m, ClientActionModel::Idle),
        },
        ClientEventModel::ServerData(b) => {
            if !m.sent_password {
                (
                    ClientModel { sent_password: true, ..m },
                    ClientActionModel::SendServer(le_bytes_of(password)),
                )
            } else {
                (m, ClientActionModel::Display(b))
            }
        },
        ClientEventModel::ServerClosed => (
            ClientModel { running: false, ..m },
            ClientActionModel::Stop,
        ),
        ClientEventModel::ServerFailed => (
            ClientModel { running: false, ..m },
            ClientActionModel::Stop,
        ),
    }
}

/// The client's state.
pub struct ClientLink {
    pub sent_password: bool,
    pub running: bool,
}

impl View for ClientLink {
    type V = ClientModel;

    open spec fn view(&self) -> ClientModel {
        ClientModel { sent_password: self.sent_password, running: self.running }
    }
}

impl ClientLink {
    /// A freshly connected client: no password sent yet, running.
    pub fn new() -> (c: ClientLink)
        ensures
            c@ == (ClientModel { sent_password: false, running: true }),
    {
        ClientLink { sent_password: false, running: true }
    }

    /// Process one event: advance the state as `client_step` says and
    /// return the action the loop must perform.
    pub fn step(&mut self, password: u32, ev: ClientEvent) -> (a: ClientAction)
        requires
            old(self)@.running,
        ensures
            final(self)@ == client_step(old(self)@, password, ev@).0,
            a@ == client_step(old(self)@, password, ev@).1,
    {
        match ev {
            ClientEvent::Term(t) => match t {
                TermEvent::Key(k) => {
                    if k.ctrl && matches!(k.code, crate::keys::KeyCode::Printable('x')) {
                        self.running = false;
                        ClientAction::Stop
                    } else {
                        match translate(k) {
                            Some(bytes) => ClientAction::SendServer(bytes),
                            None => ClientAction::Idle,
                        }
                    }
                },
                TermEvent::Resize => ClientAction::Idle,
                TermEvent::Unknown => ClientAction::Idle,
            },
            ClientEvent::ServerData(bytes) => {
                if !self.sent_password {
                    self.sent_password = true;
                    ClientAction::SendServer(crate::handshake::encode_le_u32(password))
                } else {
                    ClientAction::Display(bytes)
                }
            },
            ClientEvent::ServerClosed => {
                self.running = false;
                ClientAction::Stop
            },
            ClientEvent::ServerFailed => {
                self.running = false;
                ClientAction::Stop
            },
        }
    }
}

} // verus!
