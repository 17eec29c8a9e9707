//! One viewer's attachment to the shared session.
//!
//! A bridge adapts one viewer connection to the hub and the process. On
//! attach it subscribes and obtains the history snapshot, which the caller
//! sends to the viewer oldest first, before any live message. Two relay
//! loops then run for the life of the connection: the outbound loop asks
//! [`next_outbound`] what to deliver next, and the inbound loop hands each
//! input unit the viewer sent to [`on_viewer_input`]. The connection ends
//! as soon as either loop finishes; [`detach`] then releases the
//! subscription.

use crate::hub::publish_effect;
use crate::hub::Hub;
use crate::hub::RecvOutcome;
use crate::supervisor::InputWriter;
use vstd::prelude::*;

verus! {

/// One connected viewer's handle: its subscription in the hub.
pub struct Bridge {
    pub sub_id: usize,
}

/// Attach a viewer: subscribe to the hub and return the new bridge with
/// the history snapshot to send to the viewer, oldest first, before any
/// live delivery. The subscription starts exactly at the end of the log,
/// so no message is missed or duplicated between snapshot and live stream.
pub fn attach(hub: &mut Hub) -> (r: (Bridge, Vec<String>))
    requires
        old(hub).wf(),
    ensures
        final(hub).wf(),
        final(hub).log@ == old(hub).log@,
        final(hub).history == old(hub).history,
        final(hub).sub_cap == old(hub).sub_cap,
        final(hub).subs@.len() == old(hub).subs@.len() + 1,
        forall|k: int|
            #![trigger final(hub).subs@[k]]
            0 <= k < old(hub).subs@.len() ==> final(hub).subs@[k] == old(hub).subs@[k],
        r.0.sub_id == old(hub).subs@.len(),
        r.1@.map_values(|m: String| m@) == old(hub).history.contents(),
        ({
            let s = final(hub).subs@[r.0.sub_id as int];
            &&& s.joined@ == old(hub).log@.len()
            &&& s.taken@ == 0
            &&& s.pending@.len() == 0
            &&& !s.broken
            &&& s.live
            &&& r.1@.map_values(|m: String| m@) == s.snap_window(final(hub).log@)
        }),
{
    let (sub_id, snapshot) = hub.subscribe();
    (Bridge { sub_id }, snapshot)
}

/// Input loopback: one input unit from the viewer is published to the hub
/// exactly once — so every live subscriber, the sender included, has it
/// fanned out to it exactly once, in the shared order — and enqueued for
/// the process's input stream exactly once.
pub fn on_viewer_input(hub: &mut Hub, writer: &mut InputWriter, input: String)
    requires
        old(hub).wf(),
        old(writer).wf(),
    ensures
        final(hub).wf(),
        final(writer).wf(),
        final(hub).log@ == old(hub).log@.push(input@),
        final(hub).sub_cap == old(hub).sub_cap,
        final(hub).history.cap == old(hub).history.cap,
        final(hub).subs@.len() == old(hub).subs@.len(),
        forall|i: int|
            #![trigger final(hub).subs@[i]]
            0 <= i < old(hub).subs@.len() ==> publish_effect(
                old(hub).subs@[i],
                final(hub).subs@[i],
                input@,
                old(hub).sub_cap as nat,
            ),
        final(writer).submitted@ == old(writer).submitted@.push(input@),
        final(writer).written@ == old(writer).written@,
        final(writer).failed == old(writer).failed,
{
    let echo = input.clone();
    hub.publish(echo);
    writer.enqueue_line(input);
}

/// What the outbound relay does next for this viewer.
pub enum OutboundStep {
    /// Send this message to the viewer connection, in order.
    Deliver(String),
    /// Nothing pending; wait for the next hub delivery.
    Wait,
    /// The subscription is broken or closed: the relay loop terminates and
    /// the connection is dropped.
    Finish,
}

/// One step of the outbound relay: take the next live message for this
/// viewer, in publish order; terminate once the subscription is broken
/// (slow-consumer fail-fast) or closed.
pub fn next_outbound(hub: &mut Hub, bridge: &Bridge) -> (step: OutboundStep)
    requires
        old(hub).wf(),
        bridge.sub_id < old(hub).subs@.len(),
    ensures
        final(hub).wf(),
        final(hub).log@ == old(hub).log@,
        final(hub).history == old(hub).history,
        final(hub).sub_cap == old(hub).sub_cap,
        final(hub).subs@.len() == old(hub).subs@.len(),
        forall|k: int|
            #![trigger final(hub).subs@[k]]
            0 <= k < old(hub).subs@.len() && k != bridge.sub_id ==> final(hub).subs@[k] == old(
                hub,
            ).subs@[k],
        ({
            let s0 = old(hub).subs@[bridge.sub_id as int];
            let s1 = final(hub).subs@[bridge.sub_id as int];
            if s0.broken || !s0.live {
                step is Finish
            } else if s0.pending@.len() == 0 {
                &&& step is Wait
                &&& s1.pending@ == s0.pending@
                &&& s1.taken@ == s0.taken@
            } else {
                &&& step matches OutboundStep::Deliver(m) && m@ == old(hub).log@[s0.cursor()]
                &&& s1.taken@ == s0.taken@ + 1
                &&& s1.pending_view() == s0.pending_view().drop_first()
                &&& s1.joined@ == s0.joined@
            }
        }),
{
    match hub.recv(bridge.sub_id) {
        RecvOutcome::Received(m) => OutboundStep::Deliver(m),
        RecvOutcome::Empty => OutboundStep::Wait,
        RecvOutcome::Closed => OutboundStep::Finish,
    }
}

/// The connection has ended (either relay loop finished): release the
/// viewer's subscription and free its delivery buffer. Other viewers are
/// untouched.
pub fn detach(hub: &mut Hub, bridge: Bridge)
    requires
        old(hub).wf(),
        bridge.sub_id < old(hub).subs@.len(),
    ensures
        final(hub).wf(),
        final(hub).log@ == old(hub).log@,
        final(hub).history == old(hub).history,
        final(hub).sub_cap == old(hub).sub_cap,
        final(hub).subs@.len() == old(hub).subs@.len(),
        forall|k: int|
            #![trigger final(hub).subs@[k]]
            0 <= k < old(hub).subs@.len() && k != bridge.sub_id ==> final(hub).subs@[k] == old(
                hub,
            ).subs@[k],
        !final(hub).subs@[bridge.sub_id as int].live,
        final(hub).subs@[bridge.sub_id as int].pending@.len() == 0,
{
    hub.unsubscribe(bridge.sub_id);
}

} // verus!
