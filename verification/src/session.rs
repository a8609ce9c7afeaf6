//! The client session task's decision core. Per connection: send the
//! password prompt, judge exactly one handshake response, then relay
//! inbound bytes until the peer closes or a read fails. The reads and
//! writes themselves happen outside the library; this state machine is fed
//! each read outcome and says what to report and what to send back.
use vstd::prelude::*;

use crate::handshake::AuthState;
use crate::handshake::check_response;
use crate::handshake::response_accepted;
use crate::message::MessageModel;
use crate::message::PendingMessage;

verus! {

use vstd::string::StringSliceAdditionalSpecFns;

/// Where one session task stands.
#[derive(Clone, Copy, PartialEq, Eq, Structural, Debug)]
pub enum SessionPhase {
    /// The prompt was sent; exactly one response is awaited.
    AwaitingPassword,
    /// Authenticated; inbound bytes are relayed to the multiplexer.
    Relaying,
    /// The task is done: rejected, closed by the peer, or failed.
    Finished,
}

/// The outcome of one read from the connection. A successful read of zero
/// bytes means the peer closed.
pub enum ReadOutcome {
    Data(Vec<u8>),
    Failed,
}

/// The mathematical view of a read outcome.
pub enum ReadModel {
    Data(Seq<u8>),
    Failed,
}

impl View for ReadOutcome {
    type V = ReadModel;

    open spec fn view(&self) -> ReadModel {
        match self {
            ReadOutcome::Data(b) => ReadModel::Data(b@),
            ReadOutcome::Failed => ReadModel::Failed,
        }
    }
}

/// What one step of the session asks of its surroundings: a message to
/// report to the multiplexer, and whether to send the authentication
/// failure notice to the peer before closing it.
pub struct SessionStep {
    pub message: PendingMessage,
    pub send_failure_notice: bool,
}

/// A read during the handshake authenticates exactly when it delivered an
/// accepted response: 4 bytes that decode, little-endian, to the password.
pub open spec fn read_authenticates(r: ReadModel, password: u32) -> bool {
    match r {
        ReadModel::Data(b) => response_accepted(b, password),
        ReadModel::Failed => false,
    }
}

/// A read during relay keeps the session alive exactly when it delivered
/// at least one byte.
pub open spec fn read_keeps_alive(r: ReadModel) -> bool {
    match r {
        ReadModel::Data(b) => b.len() > 0,
        ReadModel::Failed => false,
    }
}

/// One client session task's state.
pub struct Session {
    pub id: u64,
    pub phase: SessionPhase,
}

impl Session {
    /// A freshly accepted connection: the prompt goes out, one response is
    /// awaited.
    pub fn new(id: u64) -> (s: Session)
        ensures
            s.id == id,
            s.phase == SessionPhase::AwaitingPassword,
    {
        Session { id, phase: SessionPhase::AwaitingPassword }
    }

    /// Feed one read outcome to the session.
    ///
    /// Awaiting the password: an accepted response authenticates the
    /// session — it reports `ClientConnected` (handing its write handle to
    /// the registry) and starts relaying; anything else — wrong length,
    /// wrong value, peer closed early, read error — rejects it once and
    /// for all: it reports `ClientAuthFailed`, asks for the failure notice
    /// to be sent, and finishes. Relaying: a non-empty read reports the
    /// bytes as `ClientData`; an empty read or a read error reports
    /// `ClientClosed` and finishes.
    pub fn on_read(&mut self, password: u32, r: ReadOutcome) -> (out: SessionStep)
        requires
            old(self).phase != SessionPhase::Finished,
        ensures
            final(self).id == old(self).id,
            old(self).phase == SessionPhase::AwaitingPassword ==> {
                if read_authenticates(r@, password) {
                    &&& final(self).phase == SessionPhase::Relaying
                    &&& out.message@ == (MessageModel::Connected { id: old(self).id })
                    &&& !out.send_failure_notice
                } else {
                    &&& final(self).phase == SessionPhase::Finished
                    &&& out.message@ == (MessageModel::AuthFailed { id: old(self).id })
                    &&& out.send_failure_notice
                }
            },
            old(self).phase == SessionPhase::Relaying ==> {
                if read_keeps_alive(r@) {
                    &&& final(self).phase == SessionPhase::Relaying
                    &&& out.message@ == (MessageModel::Data {
                        id: old(self).id,
                        bytes: r@->Data_0,
                    })
                    &&& !out.send_failure_notice
                } else {
                    &&& final(self).phase == SessionPhase::Finished
                    &&& out.message@ == (MessageModel::Closed { id: old(self).id })
                    &&& !out.send_failure_notice
                }
            },
    {
        match self.phase {
            SessionPhase::AwaitingPassword => {
                let authenticated = match &r {
                    ReadOutcome::Data(b) => matches!(
                        check_response(b.as_slice(), password),
                        AuthState::Authenticated
                    ),
                    ReadOutcome::Failed => false,
                };
                if authenticated {
                    self.phase = SessionPhase::Relaying;
                    SessionStep {
                        message: PendingMessage::ClientConnected { id: self.id },
                        send_failure_notice: false,
                    }
                } else {
                    self.phase = SessionPhase::Finished;
                    SessionStep {
                        message: PendingMessage::ClientAuthFailed { id: self.id },
                        send_failure_notice: true,
                    }
                }
            },
            SessionPhase::Relaying => {
                match r {
                    ReadOutcome::Data(bytes) => {
                        if bytes.len() > 0 {
                            SessionStep {
                                message: PendingMessage::ClientData { id: self.id, bytes },
                                send_failure_notice: false,
                            }
                        } else {
                            self.phase = SessionPhase::Finished;
                            SessionStep {
                                message: PendingMessage::ClientClosed { id: self.id },
                                send_failure_notice: false,
                            }
                        }
                    },
                    ReadOutcome::Failed => {
                        self.phase = SessionPhase::Finished;
                        SessionStep {
                            message: PendingMessage::ClientClosed { id: self.id },
                            send_failure_notice: false,
                        }
                    },
                }
            },
            SessionPhase::Finished => vstd::pervasive::unreached(),
        }
    }
}

/// The bytes of the password prompt sent to a freshly accepted connection.
pub open spec fn prompt_bytes() -> Seq<u8> {
    "Please Enter password:".spec_bytes()
}

/// The bytes of the failure notice sent to a rejected connection.
pub open spec fn failure_notice_bytes() -> Seq<u8> {
    "\r\nPassword error, exited!!!\r\n".spec_bytes()
}

/// The password prompt, as bytes to write to a fresh connection.
pub fn password_prompt() -> (r: Vec<u8>)
    ensures
        r@ == prompt_bytes(),
{
    vstd::slice::slice_to_vec("Please Enter password:".as_bytes())
}

/// The failure notice, as bytes to write to a rejected connection.
pub fn failure_notice() -> (r: Vec<u8>)
    ensures
        r@ == failure_notice_bytes(),
{
    vstd::slice::slice_to_vec("\r\nPassword error, exited!!!\r\n".as_bytes())
}

} // verus!
