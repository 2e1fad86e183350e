//! The event relay: what to do with each event of a server's output stream.
//! The caller drains the stream, hands each event to a step function here,
//! and carries out the action it returns.
use vstd::prelude::*;
use crate::gate::{ReadinessGate, set_result};
use crate::status::{parse_ready_line, readiness, status_of};

verus! {

/// One event of a spawned process's output stream.
pub enum OutputEvent {
    /// A line written to standard output.
    Stdout(Vec<u8>),
    /// A line written to standard error.
    Stderr(Vec<u8>),
    /// The process ended.
    Terminated,
    /// Any other event of the stream.
    Other,
}

pub enum EventView {
    Stdout(Seq<u8>),
    Stderr(Seq<u8>),
    Terminated,
    Other,
}

impl View for OutputEvent {
    type V = EventView;

    open spec fn view(&self) -> EventView {
        match self {
            OutputEvent::Stdout(line) => EventView::Stdout(line@),
            OutputEvent::Stderr(line) => EventView::Stderr(line@),
            OutputEvent::Terminated => EventView::Terminated,
            OutputEvent::Other => EventView::Other,
        }
    }
}

/// What the caller does after an event.
pub enum RelayAction {
    /// Notify subscribers that the server listens on this port.
    Ready(u16),
    /// Notify subscribers of a line of installation progress.
    Progress(String),
    /// Write a line to the operator's diagnostic output.
    Diagnostic(String),
    /// Nothing to do; go on with the next event.
    Ignore,
    /// The stream is over; stop draining it.
    Stop,
}

pub enum ActionView {
    Ready(u16),
    Progress(Seq<char>),
    Diagnostic(Seq<char>),
    Ignore,
    Stop,
}

impl View for RelayAction {
    type V = ActionView;

    open spec fn view(&self) -> ActionView {
        match self {
            RelayAction::Ready(p) => ActionView::Ready(*p),
            RelayAction::Progress(s) => ActionView::Progress(s@),
            RelayAction::Diagnostic(s) => ActionView::Diagnostic(s@),
            RelayAction::Ignore => ActionView::Ignore,
            RelayAction::Stop => ActionView::Stop,
        }
    }
}

/// The text of a line of output, with invalid UTF-8 replaced by U+FFFD.
pub uninterp spec fn lossy_text(line: Seq<u8>) -> Seq<char>;

/// Relies on `String::from_utf8_lossy`: the bytes as text, each invalid
/// sequence replaced by the replacement character.
#[verifier::external_body]
fn decode_lossy(line: &[u8]) -> (r: String)
    ensures
        r@ == lossy_text(line@),
{
    String::from_utf8_lossy(line).into_owned()
}

/// The server's relay on readiness cell state `s` and one event: the next readiness cell state
/// and the action. The first readiness signal sets the readiness cell and notifies;
/// every later one is ignored.
pub open spec fn server_transition(s: Option<u16>, e: EventView) -> (Option<u16>, ActionView) {
    match e {
        EventView::Stdout(line) => match readiness(status_of(line)) {
            Some(p) => if s is None {
                (set_result(s, p), ActionView::Ready(p))
            } else {
                (s, ActionView::Ignore)
            },
            None => (s, ActionView::Ignore),
        },
        EventView::Stderr(line) => (s, ActionView::Diagnostic(lossy_text(line))),
        EventView::Terminated => (s, ActionView::Stop),
        EventView::Other => (s, ActionView::Stop),
    }
}

/// The installation run's relay on one event: every line of standard output
/// is progress; no readiness signal is looked for.
pub open spec fn install_transition(e: EventView) -> ActionView {
    match e {
        EventView::Stdout(line) => ActionView::Progress(lossy_text(line)),
        EventView::Stderr(line) => ActionView::Diagnostic(lossy_text(line)),
        EventView::Terminated => ActionView::Stop,
        EventView::Other => ActionView::Stop,
    }
}

/// The actions of the server's relay over a stream, from readiness cell state `s`, up to
/// and including the first `Stop`.
pub open spec fn server_actions(s: Option<u16>, events: Seq<EventView>) -> Seq<ActionView>
    decreases events.len(),
{
    if events.len() == 0 {
        Seq::empty()
    } else {
        let (next, a) = server_transition(s, events[0]);
        if a is Stop {
            seq![a]
        } else {
            seq![a] + server_actions(next, events.drop_first())
        }
    }
}

/// The readiness cell state after the server's relay has drained a stream from state `s`.
pub open spec fn server_state(s: Option<u16>, events: Seq<EventView>) -> Option<u16>
    decreases events.len(),
{
    if events.len() == 0 {
        s
    } else {
        let (next, a) = server_transition(s, events[0]);
        if a is Stop {
            next
        } else {
            server_state(next, events.drop_first())
        }
    }
}

/// How many readiness notifications a series of actions holds.
pub open spec fn ready_count(actions: Seq<ActionView>) -> nat
    decreases actions.len(),
{
    if actions.len() == 0 {
        0
    } else {
        (if actions[0] is Ready { 1nat } else { 0nat }) + ready_count(actions.drop_first())
    }
}

/// Handles one event of the server's output stream: a readiness signal sets
/// the readiness cell, and is announced only by the call that set it.
pub fn server_step(gate: &mut ReadinessGate, event: &OutputEvent) -> (r: RelayAction)
    ensures
        (final(gate)@, r@) == server_transition(old(gate)@, event@),
{
    match event {
        OutputEvent::Stdout(line) => match parse_ready_line(line.as_slice()) {
            Some(p) => if gate.set(p) {
                RelayAction::Ready(p)
            } else {
                RelayAction::Ignore
            },
            None => RelayAction::Ignore,
        },
        OutputEvent::Stderr(line) => RelayAction::Diagnostic(decode_lossy(line.as_slice())),
        OutputEvent::Terminated => RelayAction::Stop,
        OutputEvent::Other => RelayAction::Stop,
    }
}

/// Handles one event of an installation run's output stream.
pub fn install_step(event: &OutputEvent) -> (r: RelayAction)
    ensures
        r@ == install_transition(event@),
{
    match event {
        OutputEvent::Stdout(line) => RelayAction::Progress(decode_lossy(line.as_slice())),
        OutputEvent::Stderr(line) => RelayAction::Diagnostic(decode_lossy(line.as_slice())),
        OutputEvent::Terminated => RelayAction::Stop,
        OutputEvent::Other => RelayAction::Stop,
    }
}

/// The readiness notification goes out at most once per readiness cell: draining any
/// stream announces readiness exactly once if it took the readiness cell from unset to
/// set, and never otherwise; a readiness cell once set keeps its port; and each
/// announced port is the one the readiness cell holds afterwards.
pub proof fn lemma_ready_announced_once(s: Option<u16>, events: Seq<EventView>)
    ensures
        ready_count(server_actions(s, events)) == (if s is None && server_state(s, events) is Some {
            1nat
        } else {
            0nat
        }),
        s is Some ==> server_state(s, events) == s,
        forall|i: int|
            0 <= i < server_actions(s, events).len() && #[trigger] server_actions(s, events)[i] is Ready
                ==> server_state(s, events) == Some(server_actions(s, events)[i]->Ready_0),
    decreases events.len(),
{
    if events.len() > 0 {
        let (next, a) = server_transition(s, events[0]);
        let rest = events.drop_first();
        lemma_ready_announced_once(next, rest);
        let acts = server_actions(s, events);
        if a is Stop {
            assert(acts == seq![a]);
            assert(seq![a].drop_first() =~= Seq::<ActionView>::empty());
            assert(ready_count(Seq::<ActionView>::empty()) == 0);
            assert(ready_count(acts) == 0);
        } else {
            let tail = server_actions(next, rest);
            assert(acts == seq![a] + tail);
            assert((seq![a] + tail).drop_first() =~= tail);
            if a is Ready {
                assert(next is Some);
                assert(next == Some(a->Ready_0));
            }
            assert forall|i: int|
                0 <= i < acts.len() && #[trigger] acts[i] is Ready implies server_state(s, events)
                    == Some(acts[i]->Ready_0) by {
                if i > 0 {
                    assert(acts[i] == tail[i - 1]);
                }
            }
        }
    }
}

} // verus!
