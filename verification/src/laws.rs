//! What holds of every session, whatever it is told and in whatever order.
//!
//! The laws speak of [`run`]: the state a session reaches and the actions it
//! asks for along a sequence of events. Each is proved for all states that a
//! session can be in and all sequences of events.
//!
//! - [`candidates`]: remote candidates reach an engine in the order of their
//!   arrival, and never before its remote description.
//! - [`single_flight`]: of each connection at most one exchange is under way, and
//!   at most one request is with the server.
//! - [`convergence`]: the two connections negotiate independently of each
//!   other, and an exchange in which nothing fails ends stable.
//! - [`failures`]: a failure ends the session only during `join`; later it
//!   costs one exchange.

pub mod candidates;
pub mod convergence;
pub mod failures;
pub mod single_flight;

use crate::event::{ActionView, EventView};
use crate::model::{run, step, ClientModel};
use vstd::prelude::*;

verus! {

/// A step of a well-formed session leaves it well-formed, and never closes it.
pub proof fn law_step_keeps_wf(c: ClientModel, event: EventView)
    requires
        c.wf(),
    ensures
        step(c, event).next.wf(),
        step(c, event).next.phase is Closed == c.phase is Closed,
{
}

/// A run of a well-formed session leaves it well-formed, and never closes it.
pub proof fn law_run_keeps_wf(c: ClientModel, events: Seq<EventView>)
    requires
        c.wf(),
    ensures
        run(c, events).next.wf(),
        run(c, events).next.phase is Closed == c.phase is Closed,
    decreases events.len(),
{
    if events.len() > 0 {
        law_run_keeps_wf(c, events.drop_last());
        law_step_keeps_wf(run(c, events.drop_last()).next, events.last());
    }
}

pub proof fn lemma_run_push(c: ClientModel, events: Seq<EventView>, event: EventView)
    ensures
        run(c, events.push(event)).next == step(run(c, events).next, event).next,
        run(c, events.push(event)).actions == run(c, events).actions + step(
            run(c, events).next,
            event,
        ).actions,
{
    assert(events.push(event).drop_last() =~= events);
}

pub proof fn lemma_run_concat(c: ClientModel, first: Seq<EventView>, second: Seq<EventView>)
    ensures
        run(c, first + second).next == run(run(c, first).next, second).next,
        run(c, first + second).actions == run(c, first).actions + run(
            run(c, first).next,
            second,
        ).actions,
    decreases second.len(),
{
    if second.len() == 0 {
        assert(first + second =~= first);
        assert(run(c, first).actions + Seq::<ActionView>::empty() =~= run(c, first).actions);
    } else {
        lemma_run_concat(c, first, second.drop_last());
        assert((first + second).drop_last() =~= first + second.drop_last());
        assert((first + second).last() == second.last());
        let middle = run(c, first);
        let before = run(middle.next, second.drop_last());
        let last = step(before.next, second.last());
        assert(run(c, first + second).actions =~= middle.actions + (before.actions
            + last.actions));
    }
}

} // verus!
