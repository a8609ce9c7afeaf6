//! The event multiplexer: the single control loop's decision core. Each
//! call of `step` takes one event from one of the four input sources and
//! returns the action the surrounding loop must perform; the multiplexer
//! alone mutates the session registry. The loop around it — the select
//! over terminal, serial device, listener and message queue — performs the
//! actions and lives outside the library.
use vstd::prelude::*;

use crate::keys::KeyCode;
use crate::keys::KeyStroke;
use crate::keys::key_bytes;
use crate::keys::translate;
use crate::message::MessageModel;
use crate::message::PendingMessage;
use crate::registry::Registry;

verus! {

/// One event from the local terminal.
#[derive(Clone, Copy, PartialEq, Eq, Structural, Debug)]
pub enum TermEvent {
    /// A keystroke.
    Key(KeyStroke),
    /// A window resize; ignored.
    Resize,
    /// Anything else the terminal driver may report; ignored.
    Unknown,
}

/// One read outcome from the serial device.
pub enum SerialInput {
    /// A chunk of bytes the device produced.
    Chunk(Vec<u8>),
    /// A read error or end of stream: fatal, the bridge shuts down.
    Failed,
}

/// One event handed to the multiplexer: a terminal event, a serial read
/// outcome, a listener outcome, or a message from a session task.
pub enum MuxEvent {
    Term(TermEvent),
    Serial(SerialInput),
    /// The listener accepted a new connection.
    Accepted,
    /// The listener failed: fatal.
    AcceptFailed,
    Message(PendingMessage),
}

/// What the surrounding loop must do after one step.
pub enum MuxAction {
    /// Nothing beyond what the loop already logs.
    Idle,
    /// Write these bytes to the serial device.
    WriteSerial(Vec<u8>),
    /// Write these bytes, unaltered, to every listed session's handle, and
    /// echo them locally. A write failure on one target must not keep the
    /// bytes from the others, and removes nothing from the registry.
    Broadcast { bytes: Vec<u8>, targets: Vec<u64> },
    /// Trace mode: show the chunk instead of broadcasting it.
    TraceChunk(Vec<u8>),
    /// Report the registry's size and each listed identity, changing nothing.
    ListSessions(Vec<u64>),
    /// Start a session task for the connection just accepted.
    SpawnSession,
    /// The loop terminates.
    Stop,
}

/// The mathematical view of a serial read outcome.
pub enum SerialModel {
    Chunk(Seq<u8>),
    Failed,
}

/// The mathematical view of a multiplexer event.
pub enum EventModel {
    Term(TermEvent),
    Serial(SerialModel),
    Accepted,
    AcceptFailed,
    Message(MessageModel),
}

/// The mathematical view of a multiplexer action.
pub enum ActionModel {
    Idle,
    WriteSerial(Seq<u8>),
    Broadcast { bytes: Seq<u8>, targets: Seq<u64> },
    TraceChunk(Seq<u8>),
    ListSessions(Seq<u64>),
    SpawnSession,
    Stop,
}

/// The mathematical view of the multiplexer's state: the registered
/// identities in registration order, the trace flag, and whether the loop
/// is still running.
pub struct MuxModel {
    pub ids: Seq<u64>,
    pub trace: bool,
    pub running: bool,
}

impl View for SerialInput {
    type V = SerialModel;

    open spec fn view(&self) -> SerialModel {
        match self {
            SerialInput::Chunk(b) => SerialModel::Chunk(b@),
            SerialInput::Failed => SerialModel::Failed,
        }
    }
}

impl View for MuxEvent {
    type V = EventModel;

    open spec fn view(&self) -> EventModel {
        match self {
            MuxEvent::Term(t) => EventModel::Term(*t),
            MuxEvent::Serial(s) => EventModel::Serial(s@),
            MuxEvent::Accepted => EventModel::Accepted,
            MuxEvent::AcceptFailed => EventModel::AcceptFailed,
            MuxEvent::Message(m) => EventModel::Message(m@),
        }
    }
}

impl View for MuxAction {
    type V = ActionModel;

    open spec fn view(&self) -> ActionModel {
        match self {
            MuxAction::Idle => ActionModel::Idle,
            MuxAction::WriteSerial(b) => ActionModel::WriteSerial(b@),
            MuxAction::Broadcast { bytes, targets } => ActionModel::Broadcast {
                bytes: bytes@,
                targets: targets@,
            },
            MuxAction::TraceChunk(b) => ActionModel::TraceChunk(b@),
            MuxAction::ListSessions(v) => ActionModel::ListSessions(v@),
            MuxAction::SpawnSession => ActionModel::SpawnSession,
            MuxAction::Stop => ActionModel::Stop,
        }
    }
}

/// The keystroke that terminates the bridge: Ctrl+X.
pub open spec fn is_exit_stroke(k: KeyStroke) -> bool {
    k.ctrl && k.code == KeyCode::Printable('x')
}

/// The keystroke that lists the sessions: Ctrl+Y.
pub open spec fn is_list_stroke(k: KeyStroke) -> bool {
    k.ctrl && k.code == KeyCode::Printable('y')
}

/// `m` with the loop stopped.
pub open spec fn stop_model(m: MuxModel) -> MuxModel {
    MuxModel { running: false, ..m }
}

/// `ids` with `id` registered: unchanged when already present, else
/// appended.
pub open spec fn ids_insert(ids: Seq<u64>, id: u64) -> Seq<u64> {
    if ids.contains(id) {
        ids
    } else {
        ids.push(id)
    }
}

/// One step of the multiplexer: from the current state and one event to
/// the next state and the action the loop must perform.
pub open spec fn mux_step(m: MuxModel, ev: EventModel) -> (MuxModel, ActionModel) {
    match ev {
        EventModel::Term(t) => match t {
            TermEvent::Key(k) => {
                if is_exit_stroke(k) {
                    (stop_model(m), ActionModel::Stop)
                } else if is_list_stroke(k) {
                    (m, ActionModel::ListSessions(m.ids))
                } else {
                    match key_bytes(k.code, k.ctrl) {
                        Some(s) => (m, ActionModel::WriteSerial(s)),
                        None => (m, ActionModel::Idle),
                    }
                }
            },
            TermEvent::Resize => (m, ActionModel::Idle),
            TermEvent::Unknown => (m, ActionModel::Idle),
        },
        EventModel::Serial(s) => match s {
            SerialModel::Chunk(b) => {
                if m.trace {
                    (m, ActionModel::TraceChunk(b))
                } else {
                    (m, ActionModel::Broadcast { bytes: b, targets: m.ids })
                }
            },
            SerialModel::Failed => (stop_model(m), ActionModel::Stop),
        },
        EventModel::Accepted => (m, ActionModel::SpawnSession),
        EventModel::AcceptFailed => (stop_model(m), ActionModel::Stop),
        EventModel::Message(msg) => match msg {
            MessageModel::Connected { id } => (
                MuxModel { ids: ids_insert(m.ids, id), ..m },
                ActionModel::Idle,
            ),
            MessageModel::Data { id, bytes } => (m, ActionModel::WriteSerial(bytes)),
            MessageModel::AuthFailed { id } => (m, ActionModel::Idle),
            MessageModel::Closed { id } => (
                MuxModel { ids: m.ids.remove_value(id), ..m },
                ActionModel::Idle,
            ),
        },
    }
}

/// The event multiplexer's state: the session registry, the trace flag,
/// and whether the loop is still running.
pub struct Mux {
    pub registry: Registry,
    pub trace: bool,
    pub running: bool,
}

impl View for Mux {
    type V = MuxModel;

    open spec fn view(&self) -> MuxModel {
        MuxModel { ids: self.registry@, trace: self.trace, running: self.running }
    }
}

impl Mux {
    /// The registry never holds the same identity twice.
    pub open spec fn wf(&self) -> bool {
        self.registry.wf()
    }

    /// A fresh multiplexer: no sessions, running.
    pub fn new(trace: bool) -> (m: Mux)
        ensures
            m@ == (MuxModel { ids: Seq::<u64>::empty(), trace, running: true }),
            m.wf(),
    {
        Mux { registry: Registry::new(), trace, running: true }
    }

    /// Process one event: advance the state as `mux_step` says and return
    /// the action the loop must perform.
    pub fn step(&mut self, ev: MuxEvent) -> (a: MuxAction)
        requires
            old(self).wf(),
            old(self)@.running,
        ensures
            final(self).wf(),
            final(self)@ == mux_step(old(self)@, ev@).0,
            a@ == mux_step(old(self)@, ev@).1,
    {
        match ev {
            MuxEvent::Term(t) => match t {
                TermEvent::Key(k) => {
                    if k.ctrl && matches!(k.code, KeyCode::Printable('x')) {
                        self.running = false;
                        MuxAction::Stop
                    } else if k.ctrl && matches!(k.code, KeyCode::Printable('y')) {
                        MuxAction::ListSessions(self.registry.ids())
                    } else {
                        match translate(k) {
                            Some(bytes) => MuxAction::WriteSerial(bytes),
                            None => MuxAction::Idle,
                        }
                    }
                },
                TermEvent::Resize => MuxAction::Idle,
                TermEvent::Unknown => MuxAction::Idle,
            },
            MuxEvent::Serial(s) => match s {
                SerialInput::Chunk(bytes) => {
                    if self.trace {
                        MuxAction::TraceChunk(bytes)
                    } else {
                        MuxAction::Broadcast { bytes, targets: self.registry.ids() }
                    }
                },
                SerialInput::Failed => {
                    self.running = false;
                    MuxAction::Stop
                },
            },
            MuxEvent::Accepted => MuxAction::SpawnSession,
            MuxEvent::AcceptFailed => {
                self.running = false;
                MuxAction::Stop
            },
            MuxEvent::Message(msg) => match msg {
                PendingMessage::ClientConnected { id } => {
                    self.registry.insert(id);
                    MuxAction::Idle
                },
                PendingMessage::ClientData { id: _, bytes } => MuxAction::WriteSerial(bytes),
                PendingMessage::ClientAuthFailed { id: _ } => MuxAction::Idle,
                PendingMessage::ClientClosed { id } => {
                    self.registry.remove(id);
                    MuxAction::Idle
                },
            },
        }
    }
}

} // verus!
