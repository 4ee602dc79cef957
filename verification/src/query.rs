//! The order of one intersection query.
//!
//! A query pins the first support closure, then the second, enters the
//! foreign routine once, and releases the closures in reverse order once the
//! routine is over. The work itself (boxing a closure, calling into the
//! foreign library, dropping a box) is done by a driver. The driver does
//! what [`Query::action`] asks for and reports what happened to
//! [`Query::step`]; an abnormal exit at any point is reported as
//! [`Event::Aborted`], after which the query asks for the release of exactly
//! the closures that are pinned.

use crate::outcome::{decode_result, decoded, QueryError};
use libc::c_int;
use vstd::prelude::*;

verus! {

/// One of the two shapes of a query.
#[derive(Clone, Copy, Debug, PartialEq, Eq, Structural)]
pub enum Shape {
    First,
    Second,
}

/// How far a query has come.
#[derive(Clone, Copy, Debug, PartialEq, Eq)]
pub enum Query {
    /// Nothing is pinned.
    Idle,
    /// The first closure is pinned.
    FirstPinned,
    /// Both closures are pinned; the foreign routine has not been entered.
    Armed,
    /// The foreign routine is running and may invoke either closure.
    InCall,
    /// The foreign call is over or was given up; both closures are pinned.
    Settled(Result<bool, QueryError>),
    /// Only the first closure is still pinned.
    Unwinding(Result<bool, QueryError>),
    /// Nothing is pinned any more, and the answer stands.
    Closed(Result<bool, QueryError>),
}

/// What the driver is to do next.
#[derive(Clone, Copy, Debug, PartialEq, Eq)]
pub enum Action {
    /// Move the closure of this shape to its stable place.
    Pin(Shape),
    /// Report `Entered`, then call the foreign routine.
    Invoke,
    /// Nothing: the foreign routine is running.
    Await,
    /// Destroy the pinned closure of this shape.
    Release(Shape),
    /// Hand the answer to the caller.
    Finish(Result<bool, QueryError>),
}

/// What the driver reports.
#[derive(Clone, Copy, Debug, PartialEq, Eq)]
pub enum Event {
    /// The closure of this shape was pinned.
    Pinned(Shape),
    /// The foreign routine is about to be called.
    Entered,
    /// The foreign routine invoked the trampoline of this shape.
    Invoked(Shape),
    /// The foreign routine returned this code.
    Returned(c_int),
    /// The current step failed, or the foreign call path was left abnormally.
    Aborted,
    /// The pinned closure of this shape was destroyed.
    Released(Shape),
}

/// An event that the query does not accept where it stands.
#[derive(Clone, Copy, Debug, PartialEq, Eq)]
pub struct OutOfOrder {
    pub event: Event,
    /// What the query was asking for.
    pub pending: Action,
}

impl Query {
    /// Whether the closure of `shape` is pinned.
    pub open spec fn holds(self, shape: Shape) -> bool {
        match self {
            Query::Idle | Query::Closed(_) => false,
            Query::FirstPinned | Query::Unwinding(_) => shape is First,
            Query::Armed | Query::InCall | Query::Settled(_) => true,
        }
    }

    /// The number of pinned closures.
    pub open spec fn outstanding(self) -> nat {
        (if self.holds(Shape::First) {
            1nat
        } else {
            0nat
        }) + (if self.holds(Shape::Second) {
            1nat
        } else {
            0nat
        })
    }

    /// What the query asks of the driver.
    pub open spec fn pending(self) -> Action {
        match self {
            Query::Idle => Action::Pin(Shape::First),
            Query::FirstPinned => Action::Pin(Shape::Second),
            Query::Armed => Action::Invoke,
            Query::InCall => Action::Await,
            Query::Settled(_) => Action::Release(Shape::Second),
            Query::Unwinding(_) => Action::Release(Shape::First),
            Query::Closed(answer) => Action::Finish(answer),
        }
    }

    /// The state after `event`, or `None` where the event is out of order.
    pub open spec fn next(self, event: Event) -> Option<Query> {
        match (self, event) {
            (Query::Idle, Event::Pinned(Shape::First)) => Some(Query::FirstPinned),
            (Query::Idle, Event::Aborted) => Some(Query::Closed(Err(QueryError::Aborted))),
            (Query::FirstPinned, Event::Pinned(Shape::Second)) => Some(Query::Armed),
            (Query::FirstPinned, Event::Aborted) => Some(
                Query::Unwinding(Err(QueryError::Aborted)),
            ),
            (Query::Armed, Event::Entered) => Some(Query::InCall),
            (Query::Armed, Event::Aborted) => Some(Query::Settled(Err(QueryError::Aborted))),
            (Query::InCall, Event::Invoked(_)) => Some(Query::InCall),
            (Query::InCall, Event::Returned(code)) => Some(Query::Settled(decoded(code))),
            (Query::InCall, Event::Aborted) => Some(Query::Settled(Err(QueryError::Aborted))),
            (Query::Settled(answer), Event::Released(Shape::Second)) => Some(
                Query::Unwinding(answer),
            ),
            (Query::Unwinding(answer), Event::Released(Shape::First)) => Some(
                Query::Closed(answer),
            ),
            _ => None,
        }
    }

    /// The state after the events of `trace`, in order, or `None` where one
    /// of them is out of order.
    pub open spec fn run(self, trace: Seq<Event>) -> Option<Query>
        decreases trace.len(),
    {
        if trace.len() == 0 {
            Some(self)
        } else {
            match self.run(trace.drop_last()) {
                Some(q) => q.next(trace.last()),
                None => None,
            }
        }
    }

    /// A query that has done nothing yet.
    pub fn new() -> (q: Query)
        ensures
            q == Query::Idle,
    {
        Query::Idle
    }

    /// What the driver is to do next.
    pub fn action(&self) -> (a: Action)
        ensures
            a == self.pending(),
    {
        match *self {
            Query::Idle => Action::Pin(Shape::First),
            Query::FirstPinned => Action::Pin(Shape::Second),
            Query::Armed => Action::Invoke,
            Query::InCall => Action::Await,
            Query::Settled(_) => Action::Release(Shape::Second),
            Query::Unwinding(_) => Action::Release(Shape::First),
            Query::Closed(answer) => Action::Finish(answer),
        }
    }

    /// Takes in one event. An event in order moves the query on, and the
    /// next action comes back; any other leaves the query as it was and
    /// comes back with the action that was pending.
    pub fn step(&mut self, event: Event) -> (r: Result<Action, OutOfOrder>)
        ensures
            match old(self).next(event) {
                Some(q) => *final(self) == q && r == Ok::<Action, OutOfOrder>(q.pending()),
                None => *final(self) == *old(self) && r == Err::<Action, OutOfOrder>(
                    OutOfOrder { event, pending: old(self).pending() },
                ),
            },
    {
        let moved = match (*self, event) {
            (Query::Idle, Event::Pinned(Shape::First)) => Some(Query::FirstPinned),
            (Query::Idle, Event::Aborted) => Some(Query::Closed(Err(QueryError::Aborted))),
            (Query::FirstPinned, Event::Pinned(Shape::Second)) => Some(Query::Armed),
            (Query::FirstPinned, Event::Aborted) => Some(
                Query::Unwinding(Err(QueryError::Aborted)),
            ),
            (Query::Armed, Event::Entered) => Some(Query::InCall),
            (Query::Armed, Event::Aborted) => Some(Query::Settled(Err(QueryError::Aborted))),
            (Query::InCall, Event::Invoked(_)) => Some(Query::InCall),
            (Query::InCall, Event::Returned(code)) => Some(Query::Settled(decode_result(code))),
            (Query::InCall, Event::Aborted) => Some(Query::Settled(Err(QueryError::Aborted))),
            (Query::Settled(answer), Event::Released(Shape::Second)) => Some(
                Query::Unwinding(answer),
            ),
            (Query::Unwinding(answer), Event::Released(Shape::First)) => Some(
                Query::Closed(answer),
            ),
            _ => None,
        };
        match moved {
            Some(q) => {
                *self = q;
                Ok(q.action())
            },
            None => Err(OutOfOrder { event, pending: self.action() }),
        }
    }
}

/// Whether `answer` says that the query was given up.
pub open spec fn aborted(answer: Result<bool, QueryError>) -> bool {
    answer matches Err(QueryError::Aborted)
}

/// Whether `event` answers `action`: it reports that the action was done,
/// that something happened while it was being done, or that it failed.
pub open spec fn answers(event: Event, action: Action) -> bool {
    match action {
        Action::Pin(shape) => event == Event::Pinned(shape) || event is Aborted,
        Action::Invoke => event is Entered || event is Aborted,
        Action::Await => event is Invoked || event is Returned || event is Aborted,
        Action::Release(shape) => event == Event::Released(shape),
        Action::Finish(_) => false,
    }
}

/// The number of events, other than invocations, that a query can still take.
pub open spec fn remaining(q: Query) -> nat {
    match q {
        Query::Idle => 6,
        Query::FirstPinned => 5,
        Query::Armed => 4,
        Query::InCall => 3,
        Query::Settled(_) => 2,
        Query::Unwinding(_) => 1,
        Query::Closed(_) => 0,
    }
}

/// The number of times that `event` occurs in `trace`.
pub open spec fn occurrences(trace: Seq<Event>, event: Event) -> nat
    decreases trace.len(),
{
    if trace.len() == 0 {
        0
    } else {
        occurrences(trace.drop_last(), event) + if trace.last() == event {
            1nat
        } else {
            0nat
        }
    }
}

/// The events by which the foreign routine invokes the trampolines of
/// `shapes`, in order.
pub open spec fn invocations(shapes: Seq<Shape>) -> Seq<Event> {
    Seq::new(shapes.len(), |i: int| Event::Invoked(shapes[i]))
}

/// The events of a query in which nothing fails: both closures are pinned,
/// the foreign routine is entered, invokes the trampolines of `shapes` and
/// returns `code`, and both closures are released.
pub open spec fn full_trace(shapes: Seq<Shape>, code: c_int) -> Seq<Event> {
    seq![Event::Pinned(Shape::First), Event::Pinned(Shape::Second), Event::Entered] + invocations(
        shapes,
    ) + seq![
        Event::Returned(code),
        Event::Released(Shape::Second),
        Event::Released(Shape::First),
    ]
}

/// A query accepts exactly the events that answer its pending action.
pub proof fn lemma_accepts_answers(q: Query, event: Event)
    ensures
        q.next(event) is Some <==> answers(event, q.pending()),
{
}

/// Every accepted event but an invocation brings the query one step or more
/// closer to its end, and an invocation changes nothing: a query takes at
/// most six events besides the invocations.
pub proof fn lemma_progress(q: Query, event: Event)
    requires
        q.next(event) is Some,
    ensures
        event is Invoked ==> q.next(event) == Some(q),
        !(event is Invoked) ==> remaining(q.next(event).unwrap()) < remaining(q),
        remaining(q) == 0 <==> q is Closed,
{
}

/// The answer is handed out only when nothing is pinned.
pub proof fn lemma_finish_owns_nothing(q: Query)
    ensures
        q.pending() is Finish <==> q is Closed,
        q is Closed ==> q.outstanding() == 0,
        q.pending() is Release <==> (q is Settled || q is Unwinding),
        q.outstanding() > 0 ==> !(q is Idle) && !(q is Closed),
{
}

/// A trampoline is invoked only while the foreign routine runs, and then the
/// closure it reaches is pinned.
pub proof fn lemma_invoked_closure_is_pinned(q: Query, shape: Shape)
    ensures
        q.next(Event::Invoked(shape)) is Some <==> q is InCall,
        q is InCall ==> q.holds(shape),
{
}

/// An abnormal exit pins and releases nothing: the closures that were pinned
/// stay pinned until the query asks for their release, and the answer is
/// `Aborted`.
pub proof fn lemma_abort_keeps_ownership(q: Query)
    requires
        q.next(Event::Aborted) is Some,
    ensures
        ({
            let after = q.next(Event::Aborted).unwrap();
            &&& after.holds(Shape::First) == q.holds(Shape::First)
            &&& after.holds(Shape::Second) == q.holds(Shape::Second)
            &&& after is Settled || after is Unwinding || after is Closed
            &&& after.outstanding() == 2 ==> after == Query::Settled(Err(QueryError::Aborted))
            &&& after.outstanding() == 1 ==> after == Query::Unwinding(Err(QueryError::Aborted))
            &&& after.outstanding() == 0 ==> after == Query::Closed(Err(QueryError::Aborted))
        }),
{
}

/// Running a trace in two parts is running it whole.
pub proof fn lemma_run_concat(q: Query, head: Seq<Event>, tail: Seq<Event>)
    ensures
        q.run(head + tail) == match q.run(head) {
            Some(middle) => middle.run(tail),
            None => None,
        },
    decreases tail.len(),
{
    if tail.len() == 0 {
        assert(head + tail =~= head);
    } else {
        assert((head + tail).drop_last() =~= head + tail.drop_last());
        assert((head + tail).last() == tail.last());
        lemma_run_concat(q, head, tail.drop_last());
    }
}

/// Every beginning of an accepted trace is accepted.
pub proof fn lemma_prefix_accepted(q: Query, trace: Seq<Event>, n: int)
    requires
        q.run(trace) is Some,
        0 <= n <= trace.len(),
    ensures
        q.run(trace.take(n)) is Some,
{
    assert(trace =~= trace.take(n) + trace.skip(n));
    lemma_run_concat(q, trace.take(n), trace.skip(n));
}

/// While the foreign routine runs, any number of invocations leaves the
/// query where it is.
pub proof fn lemma_invocations_change_nothing(shapes: Seq<Shape>)
    ensures
        Query::InCall.run(invocations(shapes)) == Some(Query::InCall),
    decreases shapes.len(),
{
    if shapes.len() > 0 {
        assert(invocations(shapes).drop_last() =~= invocations(shapes.drop_last()));
        lemma_invocations_change_nothing(shapes.drop_last());
    }
}

/// Release after any number of invocations: however often, and in whatever
/// order, the foreign routine invoked the two trampolines, the query that
/// pins both closures, makes the call and releases each closure once ends
/// with nothing pinned and with the answer that the return code stands for.
pub proof fn lemma_release_after_any_invocations(shapes: Seq<Shape>, code: c_int)
    ensures
        Query::Idle.run(full_trace(shapes, code)) == Some(Query::Closed(decoded(code))),
        Query::Closed(decoded(code)).outstanding() == 0,
{
    let opening = seq![Event::Pinned(Shape::First), Event::Pinned(Shape::Second), Event::Entered];
    let closing = seq![
        Event::Returned(code),
        Event::Released(Shape::Second),
        Event::Released(Shape::First),
    ];
    lemma_run_three(Query::Idle, opening);
    lemma_run_three(Query::InCall, closing);
    lemma_invocations_change_nothing(shapes);
    lemma_run_concat(Query::Idle, opening, invocations(shapes));
    lemma_run_concat(Query::Idle, opening + invocations(shapes), closing);
}

/// A trace of three events, run one by one.
proof fn lemma_run_three(q: Query, trace: Seq<Event>)
    requires
        trace.len() == 3,
    ensures
        q.run(trace) == match q.next(trace[0]) {
            Some(a) => match a.next(trace[1]) {
                Some(b) => b.next(trace[2]),
                None => None,
            },
            None => None,
        },
{
    reveal_with_fuel(Query::run, 4);
    let two = trace.drop_last();
    let one = two.drop_last();
    assert(one.drop_last().len() == 0);
    assert(one.last() == trace[0]);
    assert(two.last() == trace[1]);
}

/// The events that end a query from where it stands: it is given up unless
/// the foreign call is over, and then each pinned closure is released.
pub open spec fn wind_down(q: Query) -> Seq<Event> {
    match q {
        Query::Idle => seq![Event::Aborted],
        Query::FirstPinned => seq![Event::Aborted, Event::Released(Shape::First)],
        Query::Armed | Query::InCall => seq![
            Event::Aborted,
            Event::Released(Shape::Second),
            Event::Released(Shape::First),
        ],
        Query::Settled(_) => seq![Event::Released(Shape::Second), Event::Released(Shape::First)],
        Query::Unwinding(_) => seq![Event::Released(Shape::First)],
        Query::Closed(_) => Seq::empty(),
    }
}

/// Release on every exit path. Wherever a query stands, it can be brought
/// to its end; on the way each closure that is pinned is released once and
/// no other; an answer that was there is kept, and a query that had none
/// ends with `Aborted`.
pub proof fn lemma_every_exit_releases(q: Query, shape: Shape)
    ensures
        q.run(wind_down(q)) == Some(
            Query::Closed(
                match q {
                    Query::Settled(answer) | Query::Unwinding(answer) | Query::Closed(
                        answer,
                    ) => answer,
                    _ => Err(QueryError::Aborted),
                },
            ),
        ),
        occurrences(wind_down(q), Event::Released(shape)) == if q.holds(shape) {
            1nat
        } else {
            0nat
        },
        occurrences(wind_down(q), Event::Pinned(shape)) == 0,
{
    reveal_with_fuel(Query::run, 4);
    reveal_with_fuel(occurrences, 4);
    let events = wind_down(q);
    if events.len() == 3 {
        assert(events.drop_last() =~= seq![events[0], events[1]]);
        assert(events.drop_last().drop_last() =~= seq![events[0]]);
    } else if events.len() == 2 {
        assert(events.drop_last() =~= seq![events[0]]);
    }
}

/// What the events of an accepted trace say of the state it leads to.
spec fn accounted(q: Query, trace: Seq<Event>) -> bool {
    let pinned_first = occurrences(trace, Event::Pinned(Shape::First));
    let pinned_second = occurrences(trace, Event::Pinned(Shape::Second));
    let released_first = occurrences(trace, Event::Released(Shape::First));
    let released_second = occurrences(trace, Event::Released(Shape::Second));
    let entered = occurrences(trace, Event::Entered);
    let answered = match q {
        Query::Settled(answer) | Query::Unwinding(answer) | Query::Closed(answer) => !aborted(
            answer,
        ),
        _ => false,
    };
    &&& pinned_first == released_first + if q.holds(Shape::First) {
        1nat
    } else {
        0nat
    }
    &&& pinned_second == released_second + if q.holds(Shape::Second) {
        1nat
    } else {
        0nat
    }
    &&& pinned_second <= pinned_first <= 1
    &&& entered <= pinned_second
    &&& q is InCall ==> entered == 1
    &&& (q is Idle || q is FirstPinned || q is Armed) ==> entered == 0 && released_first == 0
        && released_second == 0
    &&& (q is InCall || q is Settled) ==> released_first == 0 && released_second == 0
    &&& q is Unwinding ==> released_first == 0
    &&& answered ==> entered == 1
}

proof fn lemma_accounted(trace: Seq<Event>)
    requires
        Query::Idle.run(trace) is Some,
    ensures
        accounted(Query::Idle.run(trace).unwrap(), trace),
    decreases trace.len(),
{
    if trace.len() > 0 {
        lemma_accounted(trace.drop_last());
    }
}

/// One pin, one release, one call. In every trace that a query accepts from
/// its start, each closure is pinned at most once, is released as often as
/// it was pinned but for the one that is still pinned, and the foreign
/// routine is entered at most once. When the query has ended, each closure
/// was released exactly as often as it was pinned; and when it has ended
/// with anything but `Aborted`, each was pinned once and released once, and
/// the foreign routine was entered once.
pub proof fn lemma_pins_balance_releases(trace: Seq<Event>, shape: Shape)
    requires
        Query::Idle.run(trace) is Some,
    ensures
        ({
            let q = Query::Idle.run(trace).unwrap();
            let pinned = occurrences(trace, Event::Pinned(shape));
            let released = occurrences(trace, Event::Released(shape));
            let entered = occurrences(trace, Event::Entered);
            &&& pinned <= 1
            &&& entered <= 1
            &&& pinned == released + if q.holds(shape) {
                1nat
            } else {
                0nat
            }
            &&& q is Closed ==> pinned == released
            &&& q matches Query::Closed(answer) ==> !aborted(answer) ==> pinned == 1 && released
                == 1 && entered == 1
        }),
{
    lemma_accounted(trace);
}

/// No invocation after release: where an accepted trace holds an invocation,
/// the events before it lead into the foreign call, in which both closures
/// are pinned.
pub proof fn lemma_no_invocation_after_release(trace: Seq<Event>, at: int)
    requires
        Query::Idle.run(trace) is Some,
        0 <= at < trace.len(),
        trace[at] is Invoked,
    ensures
        Query::Idle.run(trace.take(at)) == Some(Query::InCall),
        Query::InCall.holds(Shape::First) && Query::InCall.holds(Shape::Second),
{
    lemma_prefix_accepted(Query::Idle, trace, at + 1);
    let upto = trace.take(at + 1);
    assert(upto.drop_last() =~= trace.take(at));
    assert(upto.last() == trace[at]);
}

} // verus!
