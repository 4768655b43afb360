//! What holds of whole runs of the driver, over the events it is handed.
use vstd::prelude::*;
use crate::source::is_url_line;
use crate::driver::{
    Action, DriverState, Event, Limit, RunError, allowed, apply, dispatched, has_room, initial,
    limit_cap, limit_valid, next_action_of, state_wf,
};

verus! {

/// The state after the events `evs`, in order, starting from `s`.
pub open spec fn after(s: DriverState, evs: Seq<Event>) -> DriverState
    decreases evs.len(),
{
    if evs.len() == 0 {
        s
    } else {
        apply(after(s, evs.drop_last()), evs.last())
    }
}

/// Each event of `evs` is one the driver accepts when it comes.
pub open spec fn run_allowed(s: DriverState, evs: Seq<Event>) -> bool
    decreases evs.len(),
{
    if evs.len() == 0 {
        true
    } else {
        run_allowed(s, evs.drop_last()) && allowed(after(s, evs.drop_last()), evs.last())
    }
}

/// The URLs whose fetch the events start, in order.
pub open spec fn dispatches(evs: Seq<Event>) -> Seq<Seq<char>>
    decreases evs.len(),
{
    if evs.len() == 0 {
        Seq::empty()
    } else {
        match dispatched(evs.last()) {
            Some(u) => dispatches(evs.drop_last()).push(u),
            None => dispatches(evs.drop_last()),
        }
    }
}

/// The lines of the input that the events report, in order.
pub open spec fn line_texts(evs: Seq<Event>) -> Seq<Seq<char>>
    decreases evs.len(),
{
    if evs.len() == 0 {
        Seq::empty()
    } else {
        match evs.last() {
            Event::Line(l) => line_texts(evs.drop_last()).push(l@),
            _ => line_texts(evs.drop_last()),
        }
    }
}

/// The events that report `lines`, one each, in order.
pub open spec fn line_events(lines: Seq<String>) -> Seq<Event> {
    lines.map_values(|l: String| Event::Line(l))
}

/// A sequential run and a run capped at one are the same run: they start in
/// the same state, so the same events lead them through the same states and
/// actions.
pub proof fn lemma_sequential_is_cap_one(evs: Seq<Event>)
    ensures
        initial(Limit::Sequential) == initial(Limit::Bounded(1)),
        after(initial(Limit::Sequential), evs) == after(initial(Limit::Bounded(1)), evs),
        run_allowed(initial(Limit::Sequential), evs) == run_allowed(
            initial(Limit::Bounded(1)),
            evs,
        ),
        next_action_of(after(initial(Limit::Sequential), evs)) == next_action_of(
            after(initial(Limit::Bounded(1)), evs),
        ),
{
}

/// Under a cap of one a fetch starts only when no other is in flight, so
/// fetches run one after the other, in the order of the input.
pub proof fn lemma_cap_one_is_one_at_a_time(s: DriverState, line: String)
    requires
        state_wf(s),
        s.cap == Some(1nat),
        allowed(s, Event::Line(line)),
    ensures
        s.in_flight == 0,
{
}

/// The fetches started are exactly the lines of the input that are neither
/// empty nor comments, in input order.
pub proof fn lemma_only_url_lines_fetched(evs: Seq<Event>)
    ensures
        dispatches(evs) == line_texts(evs).filter(|l: Seq<char>| is_url_line(l)),
    decreases evs.len(),
{
    reveal(Seq::filter);
    if evs.len() > 0 {
        lemma_only_url_lines_fetched(evs.drop_last());
        let pre = line_texts(evs.drop_last());
        match evs.last() {
            Event::Line(l) => {
                assert(line_texts(evs).drop_last() == pre);
            },
            _ => {},
        }
    }
}

/// Once a run has failed it starts no fetch, keeps its first failure, and
/// reports it as its outcome.
pub proof fn lemma_fail_fast(s: DriverState, evs: Seq<Event>)
    requires
        state_wf(s),
        s.failure is Some,
        run_allowed(s, evs),
    ensures
        dispatches(evs).len() == 0,
        after(s, evs).failure == s.failure,
        next_action_of(after(s, evs)) == Action::Finished(Err(s.failure->Some_0)),
    decreases evs.len(),
{
    if evs.len() > 0 {
        lemma_fail_fast(s, evs.drop_last());
    }
}

/// A run reports success only when its input has ended, every fetch it
/// started has finished, and nothing failed.
pub proof fn lemma_success_is_complete(s: DriverState)
    requires
        state_wf(s),
        next_action_of(s) == Action::Finished(Ok(())),
    ensures
        s.failure is None,
        s.exhausted,
        s.in_flight == 0,
{
}

/// A failed fetch ends a run that had not failed yet, with that failure.
pub proof fn lemma_fetch_failure_ends_run(s: DriverState, msg: String)
    requires
        state_wf(s),
        s.failure is None,
        allowed(s, Event::FetchErr(msg)),
    ensures
        next_action_of(apply(s, Event::FetchErr(msg))) == Action::Finished(
            Err(RunError::Fetch(msg)),
        ),
{
}

/// Through any run the number of fetches in flight stays within the cap.
pub proof fn lemma_cap_respected(s: DriverState, evs: Seq<Event>)
    requires
        state_wf(s),
        run_allowed(s, evs),
    ensures
        state_wf(after(s, evs)),
        after(s, evs).cap matches Some(c) ==> after(s, evs).in_flight <= c,
    decreases evs.len(),
{
    if evs.len() > 0 {
        lemma_cap_respected(s, evs.drop_last());
    }
}

/// A run never stalls: it waits only while a fetch is in flight, and as soon as
/// a fetch finishes in a run that is still reading its input, it reads on.
pub proof fn lemma_no_stall(s: DriverState)
    requires
        state_wf(s),
    ensures
        next_action_of(s) is AwaitFetch ==> s.in_flight > 0,
        s.failure is None && !s.exhausted && s.in_flight > 0 ==> next_action_of(
            apply(s, Event::FetchOk),
        ) is PullLine,
        s.failure is None && !s.exhausted && has_room(s) ==> next_action_of(s) is PullLine,
{
}

/// A limit of zero is refused; every other limit starts a run that asks for
/// input at once, and a bounded limit keeps its bound.
pub proof fn lemma_zero_limit_rejected(n: usize)
    ensures
        !limit_valid(Limit::Bounded(0)),
        limit_valid(Limit::Unbounded),
        limit_valid(Limit::Sequential),
        n > 0 ==> limit_valid(Limit::Bounded(n)) && limit_cap(Limit::Bounded(n)) == Some(
            n as nat,
        ),
        n > 0 ==> next_action_of(initial(Limit::Bounded(n))) is PullLine,
        next_action_of(initial(Limit::Unbounded)) is PullLine,
        next_action_of(initial(Limit::Sequential)) is PullLine,
{
}

/// While only blank and comment lines come in, the state stays the initial
/// one and each line is accepted.
proof fn lemma_skipped_lines(limit: Limit, lines: Seq<String>)
    requires
        limit_valid(limit),
        forall|i: int| 0 <= i < lines.len() ==> !is_url_line(#[trigger] lines[i]@),
    ensures
        run_allowed(initial(limit), line_events(lines)),
        after(initial(limit), line_events(lines)) == initial(limit),
        dispatches(line_events(lines)).len() == 0,
    decreases lines.len(),
{
    if lines.len() > 0 {
        let pre = lines.drop_last();
        assert(line_events(lines).drop_last() =~= line_events(pre));
        lemma_skipped_lines(limit, pre);
        assert(line_events(lines).last() == Event::Line(lines.last()));
        assert(!is_url_line(lines[lines.len() - 1]@));
    }
}

/// Input of blank and comment lines only makes a run that fetches nothing and
/// succeeds once the input ends.
pub proof fn lemma_empty_input(limit: Limit, lines: Seq<String>)
    requires
        limit_valid(limit),
        forall|i: int| 0 <= i < lines.len() ==> !is_url_line(#[trigger] lines[i]@),
    ensures
        run_allowed(initial(limit), line_events(lines).push(Event::SourceEnd)),
        dispatches(line_events(lines).push(Event::SourceEnd)).len() == 0,
        next_action_of(after(initial(limit), line_events(lines).push(Event::SourceEnd)))
            == Action::Finished(Ok(())),
{
    lemma_skipped_lines(limit, lines);
    let evs = line_events(lines).push(Event::SourceEnd);
    assert(evs.drop_last() == line_events(lines));
}

} // verus!
