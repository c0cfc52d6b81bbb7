//! What holds of every run of the orchestrator: the events of a job are
//! bracketed by one `JobStarted` and one `Completed`, and no job starts
//! while another one runs.
//!
//! A run is a sequence of steps. The steps are those of normal operation,
//! of a format that is given up from outside, and of every failure of the
//! disk service but one: a cancellation that
//! the disk service refuses is answered by `Orchestrator::cancel_finished`
//! with `JobStarted` once more for the job that still runs, and such a
//! report stands outside of what is stated here.

use vstd::prelude::*;

use crate::backends::{JobEventView, ProgressEventView};
use crate::orchestrator::{emitted, forwarded, is_terminal, next_state, StateView, Step};

verus! {

/// The state after a run.
pub open spec fn run_state(s: StateView, steps: Seq<Step>) -> StateView
    decreases steps.len(),
{
    if steps.len() == 0 {
        s
    } else {
        next_state(run_state(s, steps.drop_last()), steps.last())
    }
}

/// The events that a run reports, in order.
pub open spec fn run_events(s: StateView, steps: Seq<Step>) -> Seq<ProgressEventView>
    decreases steps.len(),
{
    if steps.len() == 0 {
        Seq::empty()
    } else {
        run_events(s, steps.drop_last()) + emitted(run_state(s, steps.drop_last()), steps.last())
    }
}

/// The steps that forward the items of an event stream, one by one.
pub open spec fn forwards(items: Seq<Option<JobEventView>>) -> Seq<Step> {
    Seq::new(items.len(), |i: int| Step::Forward(items[i]))
}

/// Whether a stream holds an item that ends the job.
pub open spec fn ends(items: Seq<Option<JobEventView>>) -> bool {
    exists|i: int| 0 <= i < items.len() && is_terminal(#[trigger] items[i])
}

/// The events of one whole job: `JobStarted` with the job's identifier
/// first, `Completed` last, and neither of the two in between.
pub open spec fn one_job(events: Seq<ProgressEventView>, job_id: Seq<char>) -> bool {
    &&& events.len() >= 2
    &&& events[0] == ProgressEventView::JobStarted(job_id)
    &&& events.last() is Completed
    &&& forall|i: int|
        0 < i < events.len() - 1 ==> !((#[trigger] events[i]) is JobStarted) && !(events[i]
            is Completed)
}

/// A request to format and a request to cancel report nothing by
/// themselves, whatever the state, and a request to cancel changes
/// nothing: where no job runs, it is as if nothing had been asked.
pub proof fn lemma_requests_are_silent(s: StateView, req: crate::backends::FormatOptionsView)
    ensures
        emitted(s, Step::Start(req)).len() == 0,
        emitted(s, Step::Cancel).len() == 0,
        next_state(s, Step::Cancel) == s,
        !(s is Idle) ==> next_state(s, Step::Start(req)) == s,
{
}

/// What is reported for one item is no `JobStarted`, and a `Completed`
/// exactly where the item ends the job. A percentage that is reported lies
/// between 0 and 100.
pub proof fn lemma_forwarded_event(item: Option<JobEventView>)
    ensures
        !(forwarded(item) is JobStarted),
        forwarded(item) is Completed <==> is_terminal(item),
        forwarded(item) matches ProgressEventView::Percent(p) ==> 0 <= p <= 100,
{
}

/// While a job runs, its stream is forwarded item by item up to the first
/// item that ends the job, and what follows that item is dropped.
pub proof fn lemma_forwarding(job_id: Seq<char>, items: Seq<Option<JobEventView>>)
    ensures
        ({
            let s = StateView::Formatting { job_id };
            let events = run_events(s, forwards(items));
            let end = run_state(s, forwards(items));
            &&& forall|i: int|
                0 <= i < events.len() ==> !((#[trigger] events[i]) is JobStarted)
            &&& forall|i: int|
                0 <= i < events.len() - 1 ==> !((#[trigger] events[i]) is Completed)
            &&& forall|i: int|
                0 <= i < events.len() ==> ((#[trigger] events[i]) matches ProgressEventView::Percent(
                    p,
                ) ==> 0 <= p <= 100)
            &&& ends(items) ==> end is Idle && events.len() > 0 && events.last() is Completed
            &&& !ends(items) ==> end == s && events.len() == items.len() && (events.len() > 0
                ==> !(events.last() is Completed))
        }),
    decreases items.len(),
{
    let s = StateView::Formatting { job_id };
    if items.len() > 0 {
        let rest = items.drop_last();
        let last = items.last();
        lemma_forwarding(job_id, rest);
        assert(forwards(items).drop_last() =~= forwards(rest));
        lemma_forwarded_event(last);
        if ends(rest) {
            let i = choose|i: int| 0 <= i < rest.len() && is_terminal(#[trigger] rest[i]);
            assert(is_terminal(items[i]));
        } else if is_terminal(last) {
            assert(is_terminal(items[items.len() - 1]));
        } else {
            assert forall|i: int| 0 <= i < items.len() implies !is_terminal(
                #[trigger] items[i],
            ) by {
                if i < rest.len() {
                    assert(rest[i] == items[i]);
                }
            }
        }
    }
}

/// The steps of one job, from the disk service's answer to the format call
/// on: the job's start, then its stream.
pub open spec fn job_steps(
    whole_disk: bool,
    job_id: Seq<char>,
    items: Seq<Option<JobEventView>>,
) -> Seq<Step> {
    seq![Step::Started { whole_disk, reply: Ok(job_id) }] + forwards(items)
}

proof fn lemma_run_after_first(s: StateView, first: Step, rest: Seq<Step>)
    ensures
        run_state(s, seq![first] + rest) == run_state(next_state(s, first), rest),
        run_events(s, seq![first] + rest) == emitted(s, first) + run_events(
            next_state(s, first),
            rest,
        ),
    decreases rest.len(),
{
    let all = seq![first] + rest;
    if rest.len() == 0 {
        assert(run_events(s, all.drop_last()) =~= Seq::<ProgressEventView>::empty());
    } else {
        lemma_run_after_first(s, first, rest.drop_last());
        assert(all.drop_last() =~= seq![first] + rest.drop_last());
    }
}

/// Every job that starts and whose stream ends is reported by exactly one
/// `JobStarted`, then whatever its stream brings, then exactly one
/// `Completed`, and leaves the orchestrator idle. Where the job is on a
/// whole disk, the notice that the new partition is being formatted comes
/// before all of these.
pub proof fn lemma_job_lifecycle(
    whole_disk: bool,
    job_id: Seq<char>,
    items: Seq<Option<JobEventView>>,
)
    requires
        ends(items),
    ensures
        ({
            let steps = job_steps(whole_disk, job_id, items);
            let events = run_events(StateView::Starting, steps);
            &&& run_state(StateView::Starting, steps) is Idle
            &&& if whole_disk {
                events.len() > 0 && events[0] is Message && one_job(events.skip(1), job_id)
            } else {
                one_job(events, job_id)
            }
        }),
{
    let first = Step::Started { whole_disk, reply: Ok(job_id) };
    let running = StateView::Formatting { job_id };
    lemma_run_after_first(StateView::Starting, first, forwards(items));
    lemma_forwarding(job_id, items);
    let tail = run_events(running, forwards(items));
    let events = run_events(StateView::Starting, job_steps(whole_disk, job_id, items));
    let job = seq![ProgressEventView::JobStarted(job_id)] + tail;
    assert(one_job(job, job_id)) by {
        assert forall|i: int| 0 < i < job.len() - 1 implies !((#[trigger] job[i]) is JobStarted)
            && !(job[i] is Completed) by {
            assert(job[i] == tail[i - 1]);
        }
    }
    if whole_disk {
        assert(events.skip(1) =~= job);
    } else {
        assert(events =~= job);
    }
}

/// The items that a job's event stream hands over: its events, and then
/// its end.
pub open spec fn stream_items(events: Seq<JobEventView>) -> Seq<Option<JobEventView>> {
    Seq::new(
        events.len() + 1,
        |i: int|
            if i < events.len() {
                Some(events[i])
            } else {
                None
            },
    )
}

/// Every event stream comes to its end, so every job that starts is
/// reported from its one `JobStarted` to its one `Completed`, whatever the
/// disk service reports of it and whether or not it reports the end of the
/// job itself.
pub proof fn lemma_every_job_completes(
    whole_disk: bool,
    job_id: Seq<char>,
    events: Seq<JobEventView>,
)
    ensures
        ({
            let steps = job_steps(whole_disk, job_id, stream_items(events));
            let reported = run_events(StateView::Starting, steps);
            &&& run_state(StateView::Starting, steps) is Idle
            &&& if whole_disk {
                reported.len() > 0 && reported[0] is Message && one_job(reported.skip(1), job_id)
            } else {
                one_job(reported, job_id)
            }
        }),
{
    let items = stream_items(events);
    lemma_job_lifecycle(whole_disk, job_id, items);
}

/// Whether a job is open at the end of `events`: the last of the events
/// that start or end a job starts one.
pub open spec fn job_open(events: Seq<ProgressEventView>) -> bool
    decreases events.len(),
{
    if events.len() == 0 {
        false
    } else if events.last() is JobStarted {
        true
    } else if events.last() is Completed {
        false
    } else {
        job_open(events.drop_last())
    }
}

/// Whether no job starts in `events` while another one is open.
pub open spec fn one_at_a_time(events: Seq<ProgressEventView>) -> bool
    decreases events.len(),
{
    if events.len() == 0 {
        true
    } else {
        one_at_a_time(events.drop_last()) && (events.last() is JobStarted ==> !job_open(
            events.drop_last(),
        ))
    }
}

proof fn lemma_push_event(events: Seq<ProgressEventView>, e: ProgressEventView)
    ensures
        job_open(events.push(e)) == (e is JobStarted || (!(e is Completed) && job_open(events))),
        one_at_a_time(events.push(e)) == (one_at_a_time(events) && (e is JobStarted ==> !job_open(
            events,
        ))),
{
    assert(events.push(e).drop_last() =~= events);
}

/// In every run from the idle state, no job starts while another one is
/// open, and a job is open exactly while the orchestrator is `Formatting`.
pub proof fn lemma_one_job_at_a_time(steps: Seq<Step>)
    ensures
        one_at_a_time(run_events(StateView::Idle, steps)),
        job_open(run_events(StateView::Idle, steps)) <==> run_state(StateView::Idle, steps)
            is Formatting,
    decreases steps.len(),
{
    if steps.len() > 0 {
        let rest = steps.drop_last();
        let step = steps.last();
        lemma_one_job_at_a_time(rest);
        let s = run_state(StateView::Idle, rest);
        let before = run_events(StateView::Idle, rest);
        let out = emitted(s, step);
        if out.len() == 1 {
            assert(before + out =~= before.push(out[0]));
            lemma_push_event(before, out[0]);
            match step {
                Step::Forward(item) => {
                    lemma_forwarded_event(item);
                },
                _ => {},
            }
        } else if out.len() == 2 {
            assert(before + out =~= before.push(out[0]).push(out[1]));
            lemma_push_event(before, out[0]);
            lemma_push_event(before.push(out[0]), out[1]);
        } else {
            assert(before + out =~= before);
        }
    }
}

/// Between two starts of jobs there is the end of a job: where no job
/// starts while another one is open, every two `JobStarted` have a
/// `Completed` between them.
pub proof fn lemma_completed_between_starts(events: Seq<ProgressEventView>, i: int, j: int)
    requires
        one_at_a_time(events),
        0 <= i < j < events.len(),
        events[i] is JobStarted,
        events[j] is JobStarted,
    ensures
        exists|k: int| i < k < j && (#[trigger] events[k]) is Completed,
    decreases events.len(),
{
    let rest = events.drop_last();
    if j == events.len() - 1 {
        lemma_closed_after(rest, i);
        let k = choose|k: int| i < k < rest.len() && (#[trigger] rest[k]) is Completed;
        assert(events[k] is Completed);
    } else {
        lemma_completed_between_starts(rest, i, j);
        let k = choose|k: int| i < k < j && (#[trigger] rest[k]) is Completed;
        assert(events[k] is Completed);
    }
}

proof fn lemma_closed_after(events: Seq<ProgressEventView>, i: int)
    requires
        !job_open(events),
        0 <= i < events.len(),
        events[i] is JobStarted,
    ensures
        exists|k: int| i < k < events.len() && (#[trigger] events[k]) is Completed,
    decreases events.len(),
{
    let rest = events.drop_last();
    if events.last() is Completed {
        assert(events[events.len() - 1] is Completed);
    } else {
        lemma_closed_after(rest, i);
        let k = choose|k: int| i < k < rest.len() && (#[trigger] rest[k]) is Completed;
        assert(events[k] is Completed);
    }
}

/// Every percentage that a run reports lies between 0 and 100.
pub proof fn lemma_percent_in_range(s: StateView, steps: Seq<Step>, i: int)
    requires
        0 <= i < run_events(s, steps).len(),
    ensures
        run_events(s, steps)[i] matches ProgressEventView::Percent(p) ==> 0 <= p <= 100,
    decreases steps.len(),
{
    if steps.len() > 0 {
        let rest = steps.drop_last();
        let before = run_events(s, rest);
        if i < before.len() {
            lemma_percent_in_range(s, rest, i);
        } else {
            match steps.last() {
                Step::Forward(item) => {
                    lemma_forwarded_event(item);
                },
                _ => {},
            }
        }
    }
}

/// Where the job stands for one who has seen `events` one by one.
pub open spec fn observed(s: StateView, events: Seq<ProgressEventView>) -> StateView
    decreases events.len(),
{
    if events.len() == 0 {
        s
    } else {
        observed(s, events.drop_last()).after(events.last())
    }
}

proof fn lemma_observed_push(s: StateView, events: Seq<ProgressEventView>, e: ProgressEventView)
    ensures
        observed(s, events.push(e)) == observed(s, events).after(e),
{
    assert(events.push(e).drop_last() =~= events);
}

/// An observer who derives the state from the events alone is never wrong
/// about a running job: in every run from the idle state, the observer
/// sees the job that the orchestrator runs, and sees none while the
/// orchestrator runs none.
pub proof fn lemma_observer_agrees(steps: Seq<Step>)
    ensures
        ({
            let seen = observed(StateView::Idle, run_events(StateView::Idle, steps));
            match run_state(StateView::Idle, steps) {
                StateView::Formatting { job_id } => seen == StateView::Formatting { job_id },
                _ => seen is Idle,
            }
        }),
    decreases steps.len(),
{
    if steps.len() > 0 {
        let rest = steps.drop_last();
        let step = steps.last();
        lemma_observer_agrees(rest);
        let s = run_state(StateView::Idle, rest);
        let before = run_events(StateView::Idle, rest);
        let out = emitted(s, step);
        if out.len() == 1 {
            assert(before + out =~= before.push(out[0]));
            lemma_observed_push(StateView::Idle, before, out[0]);
            match step {
                Step::Forward(item) => {
                    lemma_forwarded_event(item);
                },
                _ => {},
            }
        } else if out.len() == 2 {
            assert(before + out =~= before.push(out[0]).push(out[1]));
            lemma_observed_push(StateView::Idle, before, out[0]);
            lemma_observed_push(StateView::Idle, before.push(out[0]), out[1]);
        } else {
            assert(before + out =~= before);
        }
    }
}

} // verus!
