//! The laws of the bridge, stated over runs of the multiplexer model: what
//! holds of every event sequence, independent of any particular schedule.
use vstd::prelude::*;

use crate::handshake::response_accepted;
use crate::message::MessageModel;
use crate::mux::ActionModel;
use crate::mux::EventModel;
use crate::mux::MuxModel;
use crate::mux::SerialModel;
use crate::mux::ids_insert;
use crate::mux::mux_step;
use crate::mux::stop_model;
use crate::registry::distinct;

verus! {

/// The state after feeding the events of `evs`, in order, to the
/// multiplexer starting from `m`.
pub open spec fn run(m: MuxModel, evs: Seq<EventModel>) -> MuxModel
    decreases evs.len(),
{
    if evs.len() == 0 {
        m
    } else {
        run(mux_step(m, evs[0]).0, evs.drop_first())
    }
}

/// The action the multiplexer returns for the event at position `k` of a
/// run starting from `m`.
pub open spec fn action_at(m: MuxModel, evs: Seq<EventModel>, k: int) -> ActionModel
    recommends
        0 <= k < evs.len(),
{
    mux_step(run(m, evs.take(k)), evs[k]).1
}

/// Whether an action hands anything to the session `id`: a broadcast that
/// targets it, or a listing that names it.
pub open spec fn reaches(a: ActionModel, id: u64) -> bool {
    match a {
        ActionModel::Broadcast { bytes, targets } => targets.contains(id),
        ActionModel::ListSessions(ids) => ids.contains(id),
        _ => false,
    }
}

/// Whether an event is the `ClientConnected` report that admits `id`.
pub open spec fn connects(ev: EventModel, id: u64) -> bool {
    ev == EventModel::Message(MessageModel::Connected { id })
}

/// Whether an event is the `ClientClosed` report that evicts `id`.
pub open spec fn closes(ev: EventModel, id: u64) -> bool {
    ev == EventModel::Message(MessageModel::Closed { id })
}

/// Removing a value from a sequence introduces no value that was absent.
proof fn lemma_remove_value_no_new(s: Seq<u64>, v: u64, x: u64)
    requires
        !s.contains(x),
    ensures
        !s.remove_value(v).contains(x),
{
    s.index_of_first_ensures(v);
    match s.index_of_first(v) {
        Some(i) => {
            s.remove_ensures(i);
            if s.remove(i).contains(x) {
                let k = choose|k: int| 0 <= k < s.remove(i).len() && s.remove(i)[k] == x;
                if k < i {
                    assert(s[k] == x);
                } else {
                    assert(s[k + 1] == x);
                }
            }
        },
        None => {},
    }
}

/// Removing the value `v` from a duplicate-free sequence leaves no
/// occurrence of `v`.
proof fn lemma_remove_value_gone(s: Seq<u64>, v: u64)
    requires
        distinct(s),
    ensures
        !s.remove_value(v).contains(v),
{
    s.index_of_first_ensures(v);
    match s.index_of_first(v) {
        Some(i) => {
            s.remove_ensures(i);
            if s.remove(i).contains(v) {
                let k = choose|k: int| 0 <= k < s.remove(i).len() && s.remove(i)[k] == v;
                if k < i {
                    assert(s[k] == v);
                } else {
                    assert(s[k + 1] == v);
                    assert(s[i] == v);
                }
            }
        },
        None => {},
    }
}

/// Removing a value from a duplicate-free sequence keeps it duplicate-free.
proof fn lemma_remove_value_distinct(s: Seq<u64>, v: u64)
    requires
        distinct(s),
    ensures
        distinct(s.remove_value(v)),
{
    s.index_of_first_ensures(v);
    match s.index_of_first(v) {
        Some(i) => {
            s.remove_ensures(i);
            let t = s.remove(i);
            assert forall|a: int, b: int| 0 <= a < b < t.len() implies t[a] != t[b] by {
                let pa: int = if a < i {
                    a
                } else {
                    a + 1
                };
                let pb: int = if b < i {
                    b
                } else {
                    b + 1
                };
                assert(t[a] == s[pa]);
                assert(t[b] == s[pb]);
            }
        },
        None => {},
    }
}

/// One multiplexer step keeps the registered identities duplicate-free.
pub proof fn lemma_step_distinct(m: MuxModel, ev: EventModel)
    requires
        distinct(m.ids),
    ensures
        distinct(mux_step(m, ev).0.ids),
{
    match ev {
        EventModel::Message(msg) => match msg {
            MessageModel::Connected { id } => {
                let t = ids_insert(m.ids, id);
                if !m.ids.contains(id) {
                    assert forall|a: int, b: int| 0 <= a < b < t.len() implies t[a] != t[b] by {
                        if b == t.len() - 1 {
                            assert(t[a] == m.ids[a]);
                            assert(t[b] == id);
                            assert(m.ids[a] != id);
                        } else {
                            assert(t[a] == m.ids[a]);
                            assert(t[b] == m.ids[b]);
                        }
                    }
                }
            },
            MessageModel::Closed { id } => {
                lemma_remove_value_distinct(m.ids, id);
            },
            _ => {},
        },
        _ => {},
    }
}

/// A run keeps the registered identities duplicate-free.
pub proof fn lemma_run_distinct(m: MuxModel, evs: Seq<EventModel>)
    requires
        distinct(m.ids),
    ensures
        distinct(run(m, evs).ids),
    decreases evs.len(),
{
    if evs.len() > 0 {
        lemma_step_distinct(m, evs[0]);
        lemma_run_distinct(mux_step(m, evs[0]).0, evs.drop_first());
    }
}

/// One step neither delivers to an unregistered identity nor registers it,
/// unless the event is that identity's own `ClientConnected` report.
pub proof fn lemma_step_unregistered(m: MuxModel, ev: EventModel, id: u64)
    requires
        !m.ids.contains(id),
    ensures
        !reaches(mux_step(m, ev).1, id),
        !connects(ev, id) ==> !mux_step(m, ev).0.ids.contains(id),
{
    match ev {
        EventModel::Message(msg) => match msg {
            MessageModel::Connected { id: other } => {
                if other != id {
                    let t = ids_insert(m.ids, other);
                    if !m.ids.contains(other) && t.contains(id) {
                        let k = choose|k: int| 0 <= k < t.len() && t[k] == id;
                        if k < m.ids.len() {
                            assert(m.ids[k] == id);
                        } else {
                            assert(t[k] == other);
                        }
                    }
                }
            },
            MessageModel::Closed { id: other } => {
                lemma_remove_value_no_new(m.ids, other, id);
            },
            _ => {},
        },
        _ => {},
    }
}

/// Feeding a concatenation of event sequences is feeding one after the
/// other.
pub proof fn lemma_run_concat(m: MuxModel, a: Seq<EventModel>, b: Seq<EventModel>)
    ensures
        run(m, a + b) == run(run(m, a), b),
    decreases a.len(),
{
    if a.len() == 0 {
        assert(a + b =~= b);
    } else {
        assert((a + b)[0] == a[0]);
        assert((a + b).drop_first() =~= a.drop_first() + b);
        lemma_run_concat(mux_step(m, a[0]).0, a.drop_first(), b);
    }
}

/// While no `ClientConnected` report for `id` arrives, an unregistered
/// `id` stays unregistered.
pub proof fn lemma_run_unregistered(m: MuxModel, evs: Seq<EventModel>, id: u64)
    requires
        !m.ids.contains(id),
        forall|j: int| 0 <= j < evs.len() ==> !connects(#[trigger] evs[j], id),
    ensures
        !run(m, evs).ids.contains(id),
    decreases evs.len(),
{
    if evs.len() > 0 {
        lemma_step_unregistered(m, evs[0], id);
        let m1 = mux_step(m, evs[0]).0;
        assert forall|j: int| 0 <= j < evs.drop_first().len() implies !connects(
            #[trigger] evs.drop_first()[j],
            id,
        ) by {
            assert(evs.drop_first()[j] == evs[j + 1]);
        }
        lemma_run_unregistered(m1, evs.drop_first(), id);
    }
}

/// No broadcast serial data is ever delivered to a connection before its
/// authentication succeeds: starting with `id` unregistered, as long as no
/// `ClientConnected{id}` report has arrived — and the session task sends
/// one only once the handshake response was accepted — no broadcast
/// targets `id` and no session listing names it.
pub proof fn lemma_no_delivery_before_admission(
    m: MuxModel,
    evs: Seq<EventModel>,
    id: u64,
    k: int,
)
    requires
        !m.ids.contains(id),
        0 <= k < evs.len(),
        forall|j: int| 0 <= j < k ==> !connects(#[trigger] evs[j], id),
    ensures
        !reaches(action_at(m, evs, k), id),
{
    assert forall|j: int| 0 <= j < evs.take(k).len() implies !connects(
        #[trigger] evs.take(k)[j],
        id,
    ) by {
        assert(evs.take(k)[j] == evs[j]);
    }
    lemma_run_unregistered(m, evs.take(k), id);
    lemma_step_unregistered(run(m, evs.take(k)), evs[k], id);
}

/// A `ClientAuthFailed` report never touches the registry: a rejected
/// connection is never admitted, and the step asks nothing of the loop.
pub proof fn lemma_auth_failure_not_admitted(m: MuxModel, id: u64)
    ensures
        mux_step(m, EventModel::Message(MessageModel::AuthFailed { id })).0 == m,
        mux_step(m, EventModel::Message(MessageModel::AuthFailed { id })).1 == ActionModel::Idle,
{
}

/// A handshake response that is not exactly 4 bytes, or whose decoded
/// value differs from the configured password, never admits the
/// connection: the session reports `ClientAuthFailed` for it (its
/// `on_read` contract), and that report leaves an unregistered identity
/// unregistered — the registry never saw it.
pub proof fn lemma_rejected_never_admitted(m: MuxModel, id: u64, resp: Seq<u8>, password: u32)
    requires
        !response_accepted(resp, password),
        !m.ids.contains(id),
    ensures
        !mux_step(m, EventModel::Message(MessageModel::AuthFailed { id })).0.ids.contains(id),
        mux_step(m, EventModel::Message(MessageModel::AuthFailed { id })).0 == m,
{
}

/// A serial chunk, outside trace mode, is broadcast byte-for-byte to
/// exactly the registered sessions, and the step changes no state: in
/// particular a write failure on one target — absorbed by the loop —
/// removes nothing from the registry and cannot keep the bytes from the
/// other targets.
pub proof fn lemma_broadcast_exact(m: MuxModel, chunk: Seq<u8>)
    requires
        !m.trace,
    ensures
        mux_step(m, EventModel::Serial(SerialModel::Chunk(chunk))).0 == m,
        mux_step(m, EventModel::Serial(SerialModel::Chunk(chunk))).1 == (ActionModel::Broadcast {
            bytes: chunk,
            targets: m.ids,
        }),
{
}

/// A fatal serial failure stops the loop: the step demands `Stop`, the
/// state is no longer running, and `Mux::step` requires a running state —
/// after this, no event is processed and nothing more is read from or
/// written to the serial device.
pub proof fn lemma_fatal_serial_stops(m: MuxModel)
    ensures
        mux_step(m, EventModel::Serial(SerialModel::Failed)).0 == stop_model(m),
        !mux_step(m, EventModel::Serial(SerialModel::Failed)).0.running,
        mux_step(m, EventModel::Serial(SerialModel::Failed)).1 == ActionModel::Stop,
{
}

/// After a session reports `ClientClosed`, and as long as it does not
/// connect afresh, no broadcast reaches it and no session listing names
/// it.
pub proof fn lemma_closed_session_gone(
    m: MuxModel,
    evs: Seq<EventModel>,
    id: u64,
    c: int,
    k: int,
)
    requires
        distinct(m.ids),
        0 <= c < k < evs.len(),
        closes(evs[c], id),
        forall|j: int| c < j < k ==> !connects(#[trigger] evs[j], id),
    ensures
        !reaches(action_at(m, evs, k), id),
{
    let before = evs.take(c);
    let upto = evs.take(c + 1);
    let middle = evs.subrange(c + 1, k);
    lemma_run_distinct(m, before);
    let mc = run(m, before);
    assert(upto =~= before + seq![evs[c]]);
    lemma_run_concat(m, before, seq![evs[c]]);
    let m1 = run(m, upto);
    assert(m1 == run(mc, seq![evs[c]]));
    let s1 = seq![evs[c]];
    assert(s1.drop_first() =~= Seq::<EventModel>::empty());
    assert(run(mc, s1) == run(mux_step(mc, s1[0]).0, s1.drop_first()));
    assert(run(mux_step(mc, evs[c]).0, Seq::<EventModel>::empty()) == mux_step(mc, evs[c]).0);
    assert(m1 == mux_step(mc, evs[c]).0);
    lemma_remove_value_gone(mc.ids, id);
    assert(!m1.ids.contains(id));
    assert(evs.take(k) =~= upto + middle);
    lemma_run_concat(m, upto, middle);
    assert forall|j: int| 0 <= j < middle.len() implies !connects(#[trigger] middle[j], id) by {
        assert(middle[j] == evs[c + 1 + j]);
    }
    lemma_run_unregistered(m1, middle, id);
    lemma_step_unregistered(run(m, evs.take(k)), evs[k], id);
}

} // verus!
