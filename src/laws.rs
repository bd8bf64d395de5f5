use vstd::prelude::*;
use crate::frame::{Reason, CANCEL};
use crate::proto::Error;
use crate::state::{Cause, Inner, OpenPeer, Peer};

verus! {

/// One event that drives a stream's state.
pub enum Event {
    SendOpen(bool),
    RecvOpen(bool),
    ReserveRemote,
    RecvClose,
    RecvReset(Reason),
    RecvErr(Error),
    SendClose,
    SetReset(Reason),
    SetCanceled,
}

impl Event {
    /// Whether the caller may issue the event: the send direction must be
    /// open to be closed, and only a stream that is not closed may be
    /// canceled.
    pub open spec fn allowed_in(self, s: Inner) -> bool {
        match self {
            Event::SendClose => s.can_send_close(),
            Event::SetCanceled => !s.is_closed(),
            _ => true,
        }
    }

    /// Whether the event is checked against the protocol, and may be refused
    /// with a protocol error.
    pub open spec fn is_checked(self) -> bool {
        self is SendOpen || self is RecvOpen || self is ReserveRemote || self is RecvClose
    }
}

/// The shape after an event, or `None` where the event is refused with a
/// protocol error and the shape stays as it was.
pub open spec fn step(s: Inner, e: Event) -> Option<Inner> {
    match e {
        Event::SendOpen(eos) => s.after_send_open(eos),
        Event::RecvOpen(eos) => s.after_recv_open(eos),
        Event::ReserveRemote => s.after_reserve_remote(),
        Event::RecvClose => s.after_recv_close(),
        Event::RecvReset(reason) => Some(s.after_recv_reset(reason)),
        Event::RecvErr(err) => Some(s.after_recv_err(err)),
        Event::SendClose => Some(s.after_send_close()),
        Event::SetReset(reason) => Some(Inner::Closed(Cause::Proto(Peer::Local, reason))),
        Event::SetCanceled => Some(Inner::Closed(Cause::Canceled)),
    }
}

/// The shape reached from `s` through `events`, a refused event leaving the
/// shape as it was.
pub open spec fn run(s: Inner, events: Seq<Event>) -> Inner
    decreases events.len(),
{
    if events.len() == 0 {
        s
    } else {
        let next = match step(s, events[0]) {
            Some(n) => n,
            None => s,
        };
        run(next, events.drop_first())
    }
}

/// Whether every event of `events` is allowed in the shape that it meets when
/// they are applied in turn from `s`.
pub open spec fn all_allowed(s: Inner, events: Seq<Event>) -> bool
    decreases events.len(),
{
    if events.len() == 0 {
        true
    } else {
        let next = match step(s, events[0]) {
            Some(n) => n,
            None => s,
        };
        events[0].allowed_in(s) && all_allowed(next, events.drop_first())
    }
}

/// Only events checked against the protocol are ever refused: every other
/// event that the caller may issue moves the stream to a defined shape.
pub proof fn lemma_only_checked_events_refused(s: Inner, e: Event)
    requires
        e.allowed_in(s),
    ensures
        step(s, e) is None ==> e.is_checked(),
{
}

/// On any run of allowed events from an idle stream, each event is either
/// applied or, when checked against the protocol, refused; once closed, the
/// stream stays closed.
pub proof fn lemma_run_from_idle(events: Seq<Event>, i: int)
    requires
        all_allowed(Inner::Idle, events),
        0 <= i < events.len(),
    ensures
        events[i].allowed_in(run(Inner::Idle, events.take(i))),
        step(run(Inner::Idle, events.take(i)), events[i]) is None ==> events[i].is_checked(),
        run(Inner::Idle, events.take(i)).is_closed() ==> run(Inner::Idle, events).is_closed(),
{
    lemma_run_prefix(Inner::Idle, events, i);
}

proof fn lemma_run_prefix(s: Inner, events: Seq<Event>, i: int)
    requires
        all_allowed(s, events),
        0 <= i < events.len(),
    ensures
        events[i].allowed_in(run(s, events.take(i))),
        step(run(s, events.take(i)), events[i]) is None ==> events[i].is_checked(),
        run(s, events.take(i)).is_closed() ==> run(s, events).is_closed(),
    decreases i,
{
    let next = match step(s, events[0]) {
        Some(n) => n,
        None => s,
    };
    if i == 0 {
        assert(events.take(0) =~= Seq::<Event>::empty());
        if s.is_closed() {
            lemma_closed_run_stays_closed(s, events);
        }
    } else {
        lemma_run_prefix(next, events.drop_first(), i - 1);
        assert(events.take(i).drop_first() =~= events.drop_first().take(i - 1));
        assert(events.drop_first()[i - 1] == events[i]);
    }
    lemma_only_checked_events_refused(run(s, events.take(i)), events[i]);
}

proof fn lemma_closed_run_stays_closed(s: Inner, events: Seq<Event>)
    requires
        s.is_closed(),
        all_allowed(s, events),
    ensures
        run(s, events).is_closed(),
    decreases events.len(),
{
    if events.len() > 0 {
        let next = match step(s, events[0]) {
            Some(n) => n,
            None => s,
        };
        lemma_closed_run_stays_closed(next, events.drop_first());
    }
}

/// Once closed, a stream keeps its cause under every event the caller may
/// issue but a local reset: the event is refused or changes nothing.
pub proof fn lemma_closed_cause_kept(s: Inner, e: Event)
    requires
        s.is_closed(),
        e.allowed_in(s),
        !(e is SetReset),
    ensures
        step(s, e) is None || step(s, e) == Some(s),
{
}

/// A second reset from the remote changes nothing: the first cause stays.
pub proof fn lemma_recv_reset_first_wins(s: Inner, first: Reason, second: Reason)
    ensures
        s.after_recv_reset(first).after_recv_reset(second) == s.after_recv_reset(first),
        !s.is_closed() ==> s.after_recv_reset(first) == Inner::Closed(
            Cause::Proto(Peer::Remote, first),
        ),
{
}

/// From an open stream, closing the send side and then the receive side ends
/// the stream cleanly, and so does the other order.
pub proof fn lemma_half_closes_commute(local: OpenPeer, remote: OpenPeer)
    ensures
        ({
            let s = Inner::Open { local, remote };
            &&& s.can_send_close()
            &&& s.after_send_close().after_recv_close() == Some(Inner::Closed(Cause::EndStream))
            &&& s.after_recv_close() is Some
            &&& s.after_recv_close()->Some_0.can_send_close()
            &&& s.after_recv_close()->Some_0.after_send_close() == Inner::Closed(Cause::EndStream)
        }),
{
}

/// A canceled stream is canceled and counts as reset locally.
pub proof fn lemma_canceled_is_local_reset(s: Inner)
    requires
        Event::SetCanceled.allowed_in(s),
    ensures
        step(s, Event::SetCanceled) == Some(Inner::Closed(Cause::Canceled)),
        Inner::Closed(Cause::Canceled).is_canceled(),
        Inner::Closed(Cause::Canceled).is_local_reset(),
{
}

/// On a closed stream, receiving is over: cleanly after both ends of stream,
/// with the reset's own reason code after a reset, with a transport error
/// after a transport failure, and with `CANCEL` after a cancellation.
pub proof fn lemma_recv_open_outcome_of_closed(peer: Peer, reason: Reason)
    ensures
        Inner::Closed(Cause::EndStream).recv_open_outcome() == Ok::<bool, Error>(false),
        Inner::Closed(Cause::Proto(peer, reason)).recv_open_outcome() == Err::<bool, Error>(
            Error::Proto(reason),
        ),
        Inner::Closed(Cause::Io).recv_open_outcome() == Err::<bool, Error>(Error::Io),
        Inner::Closed(Cause::Canceled).recv_open_outcome() == Err::<bool, Error>(
            Error::Proto(Reason { code: CANCEL }),
        ),
{
}

/// The reason code of a local reset comes back unchanged from the receive
/// check, and the reset counts as local.
pub proof fn lemma_set_reset_reason_kept(s: Inner, reason: Reason)
    ensures
        ({
            let t = step(s, Event::SetReset(reason))->Some_0;
            &&& t.recv_open_outcome() == Err::<bool, Error>(Error::Proto(reason))
            &&& t.is_local_reset()
            &&& t.is_reset()
        }),
{
}

} // verus!
