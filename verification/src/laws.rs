//! What holds of every run of the adapter, whatever the application does.

use vstd::prelude::*;
use crate::application::{
    Application, ApplicationResumed, ApplicationSuspended, ApplicationUninitialized, State,
};
use crate::delivery::{delivered, stepped, Fallible, Trigger};
use crate::phase::{next_phase, Phase, Signal};

verus! {

/// No signal leads anywhere from `Exited`, and none leads back to `Uninitialized`.
pub proof fn lemma_first_and_last_phase(phase: Phase, signal: Signal)
    ensures
        next_phase(Phase::Exited, signal) is None,
        next_phase(phase, signal) != Some(Phase::Uninitialized),
{
}

/// The only way out of `Uninitialized` is the start of the loop, and it leads to `Resumed`.
pub proof fn lemma_start_comes_first(signal: Signal)
    ensures
        next_phase(Phase::Uninitialized, signal) is Some <==> signal is Start,
        next_phase(Phase::Uninitialized, Signal::Start) == Some(Phase::Resumed),
{
}

/// One delivery follows the transition table: it has an outcome only where the table has a
/// row for the phase and the signal, and an outcome that is not an error is in the phase
/// that the row names.
pub proof fn lemma_step_follows_table<A: Application<T>, T: 'static>(
    state: State<A, T>,
    event_loop: &A::EventLoop,
    trigger: Trigger<T>,
    after: Fallible<A, T>,
) where
    A::Uninitialized: ApplicationUninitialized<T, Application = A>,
    A::Resumed: ApplicationResumed<T, Application = A>,
    A::Suspended: ApplicationSuspended<T, Application = A>,

    requires
        stepped(state, event_loop, trigger, after),
    ensures
        next_phase(state.phase(), trigger.signal()) is Some,
        after matches Ok(next) ==> next_phase(state.phase(), trigger.signal()) == Some(
            next.phase(),
        ),
{
}

/// A run of the adapter on `triggers`: `records[i]` is what the adapter holds when
/// `triggers[i]` is delivered, and `records[i + 1]` is what it holds after that.
pub open spec fn is_run<A: Application<T>, T: 'static>(
    event_loop: &A::EventLoop,
    records: Seq<Fallible<A, T>>,
    triggers: Seq<Trigger<T>>,
) -> bool where
    A::Uninitialized: ApplicationUninitialized<T, Application = A>,
    A::Resumed: ApplicationResumed<T, Application = A>,
    A::Suspended: ApplicationSuspended<T, Application = A>,
 {
    &&& records.len() == triggers.len() + 1
    &&& forall|i: int|
        #![trigger triggers[i]]
        0 <= i < triggers.len() ==> delivered(
            records[i],
            event_loop,
            triggers[i],
            records[i + 1],
        )
}

/// Every step of a run follows the transition table: while no operation has failed, each
/// trigger has a row in the table for the phase it meets, and the phase after it is the one
/// that the row names.
pub proof fn lemma_run_follows_table<A: Application<T>, T: 'static>(
    event_loop: &A::EventLoop,
    records: Seq<Fallible<A, T>>,
    triggers: Seq<Trigger<T>>,
) where
    A::Uninitialized: ApplicationUninitialized<T, Application = A>,
    A::Resumed: ApplicationResumed<T, Application = A>,
    A::Suspended: ApplicationSuspended<T, Application = A>,

    requires
        is_run(event_loop, records, triggers),
    ensures
        forall|i: int|
            #![trigger triggers[i]]
            0 <= i < triggers.len() && records[i] is Ok ==> {
                let row = next_phase(records[i]->Ok_0.phase(), triggers[i].signal());
                &&& row is Some
                &&& records[i + 1] matches Ok(next) ==> row == Some(next.phase())
            },
{
    assert forall|i: int|
        #![trigger triggers[i]]
        0 <= i < triggers.len() && records[i] is Ok implies {
        let row = next_phase(records[i]->Ok_0.phase(), triggers[i].signal());
        &&& row is Some
        &&& records[i + 1] matches Ok(next) ==> row == Some(next.phase())
    } by {
        lemma_step_follows_table(records[i]->Ok_0, event_loop, triggers[i], records[i + 1]);
    }
}

/// The first error of a run is its result: once an operation has failed, the adapter holds
/// that error to the end of the run.
pub proof fn lemma_error_ends_run<A: Application<T>, T: 'static>(
    event_loop: &A::EventLoop,
    records: Seq<Fallible<A, T>>,
    triggers: Seq<Trigger<T>>,
    failed: int,
    later: int,
) where
    A::Uninitialized: ApplicationUninitialized<T, Application = A>,
    A::Resumed: ApplicationResumed<T, Application = A>,
    A::Suspended: ApplicationSuspended<T, Application = A>,

    requires
        is_run(event_loop, records, triggers),
        0 <= failed <= later < records.len(),
        records[failed] is Err,
    ensures
        records[later] == records[failed],
    decreases later - failed,
{
    if failed < later {
        lemma_error_ends_run(event_loop, records, triggers, failed, later - 1);
        assert(delivered(records[later - 1], event_loop, triggers[later - 1], records[later]));
    }
}

/// A run starts or ends where the phases say: an application that has been started is never
/// found `Uninitialized` again, and one that is `Exited` gets no further trigger.
pub proof fn lemma_run_keeps_order<A: Application<T>, T: 'static>(
    event_loop: &A::EventLoop,
    records: Seq<Fallible<A, T>>,
    triggers: Seq<Trigger<T>>,
    at: int,
) where
    A::Uninitialized: ApplicationUninitialized<T, Application = A>,
    A::Resumed: ApplicationResumed<T, Application = A>,
    A::Suspended: ApplicationSuspended<T, Application = A>,

    requires
        is_run(event_loop, records, triggers),
        0 <= at < records.len(),
        records[at] is Ok,
    ensures
        records[at]->Ok_0 is Uninitialized ==> at == 0,
        records[at]->Ok_0 is Exited ==> at == triggers.len(),
{
    if at > 0 {
        assert(delivered(records[at - 1], event_loop, triggers[at - 1], records[at]));
        if records[at - 1] is Ok {
            lemma_step_follows_table(
                records[at - 1]->Ok_0,
                event_loop,
                triggers[at - 1],
                records[at],
            );
        }
    }
    if at < triggers.len() {
        assert(delivered(records[at], event_loop, triggers[at], records[at + 1]));
    }
}

} // verus!
