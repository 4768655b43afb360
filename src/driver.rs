//! The bounded fetch driver as a state machine.
//!
//! The driver never performs a fetch or reads a line itself. Its owner asks it
//! what to do next (`next_action`), does that, and reports what happened as an
//! `Event` (`step`). One mechanism serves every concurrency mode: a cap on the
//! number of fetches in flight, of one for sequential runs and of none for
//! unbounded ones.
use vstd::prelude::*;
use crate::source::{is_url_line, is_url_line_exec};

verus! {

/// How many fetches may be in flight at once.
pub enum Limit {
    /// One at a time, in input order.
    Sequential,
    /// No cap.
    Unbounded,
    /// At most this many; zero is not a valid limit.
    Bounded(usize),
}

/// A limit that cannot drive a run.
#[derive(Debug, Clone, Copy, PartialEq, Eq, Structural)]
pub enum ConfigError {
    /// `Bounded(0)` would never let a fetch start.
    ZeroLimit,
}

/// Why a run failed: the first failure seen ends it.
#[derive(Debug)]
pub enum RunError {
    /// Reading a line of the input failed.
    Read(String),
    /// Fetching one URL failed.
    Fetch(String),
}

/// What the owner of the driver should do next.
#[derive(Debug)]
pub enum Action {
    /// Read the next line of the input and report it.
    PullLine,
    /// Wait for one of the fetches in flight to finish and report it.
    AwaitFetch,
    /// The run is over, with this outcome. Fetches still in flight are not
    /// waited for; their outcomes no longer matter.
    Finished(Result<(), RunError>),
}

/// What the owner of the driver reports back.
#[derive(Debug)]
pub enum Event {
    /// The input produced this line.
    Line(String),
    /// The input has no more lines.
    SourceEnd,
    /// Reading the input failed.
    SourceError(String),
    /// A fetch in flight finished successfully.
    FetchOk,
    /// A fetch in flight failed.
    FetchErr(String),
}

/// The abstract state of a driver.
pub struct DriverState {
    /// The cap on fetches in flight; `None` when unbounded.
    pub cap: Option<nat>,
    /// Fetches started and not yet reported finished.
    pub in_flight: nat,
    /// Whether the input has been read to its end.
    pub exhausted: bool,
    /// The first failure of the run, if any.
    pub failure: Option<RunError>,
}

/// The cap that a limit stands for.
pub open spec fn limit_cap(limit: Limit) -> Option<nat> {
    match limit {
        Limit::Sequential => Some(1),
        Limit::Unbounded => None,
        Limit::Bounded(n) => Some(n as nat),
    }
}

/// Every limit but `Bounded(0)` can drive a run.
pub open spec fn limit_valid(limit: Limit) -> bool {
    limit_cap(limit) != Some(0nat)
}

/// The state at the start of a run.
pub open spec fn initial(limit: Limit) -> DriverState {
    DriverState { cap: limit_cap(limit), in_flight: 0, exhausted: false, failure: None }
}

/// The cap is positive and never exceeded; the count fits a `usize`.
pub open spec fn state_wf(s: DriverState) -> bool {
    &&& s.in_flight <= usize::MAX
    &&& match s.cap {
        Some(c) => 1 <= c <= usize::MAX && s.in_flight <= c,
        None => true,
    }
}

/// Whether one more fetch may start. Without a cap the count of a `usize` is
/// the only bound.
pub open spec fn has_room(s: DriverState) -> bool {
    match s.cap {
        Some(c) => s.in_flight < c,
        None => s.in_flight < usize::MAX,
    }
}

/// What to do in state `s`.
pub open spec fn next_action_of(s: DriverState) -> Action {
    match s.failure {
        Some(e) => Action::Finished(Err(e)),
        None => if s.exhausted {
            if s.in_flight == 0 {
                Action::Finished(Ok(()))
            } else {
                Action::AwaitFetch
            }
        } else if has_room(s) {
            Action::PullLine
        } else {
            Action::AwaitFetch
        },
    }
}

/// Which events the driver accepts in state `s`: input events only when it
/// asked for a line, fetch events only while a fetch is in flight.
pub open spec fn allowed(s: DriverState, e: Event) -> bool {
    match e {
        Event::Line(_) | Event::SourceEnd | Event::SourceError(_) => next_action_of(s)
            is PullLine,
        Event::FetchOk | Event::FetchErr(_) => s.in_flight > 0,
    }
}

/// The failure recorded after a new one, `f`: the first one stays.
pub open spec fn first_failure(s: DriverState, f: RunError) -> Option<RunError> {
    match s.failure {
        Some(e) => Some(e),
        None => Some(f),
    }
}

/// The state after event `e`.
pub open spec fn apply(s: DriverState, e: Event) -> DriverState {
    match e {
        Event::Line(l) => if is_url_line(l@) {
            DriverState { in_flight: s.in_flight + 1, ..s }
        } else {
            s
        },
        Event::SourceEnd => DriverState { exhausted: true, ..s },
        Event::SourceError(m) => DriverState { failure: first_failure(s, RunError::Read(m)), ..s },
        Event::FetchOk => DriverState { in_flight: (s.in_flight - 1) as nat, ..s },
        Event::FetchErr(m) => DriverState {
            in_flight: (s.in_flight - 1) as nat,
            failure: first_failure(s, RunError::Fetch(m)),
            ..s
        },
    }
}

/// The URL that event `e` starts a fetch of, if any: a line that is a URL.
pub open spec fn dispatched(e: Event) -> Option<Seq<char>> {
    match e {
        Event::Line(l) => if is_url_line(l@) {
            Some(l@)
        } else {
            None
        },
        _ => None,
    }
}

/// The running state of a run.
pub struct Driver {
    cap: Option<usize>,
    in_flight: usize,
    exhausted: bool,
    failure: Option<RunError>,
}

impl View for Driver {
    type V = DriverState;

    closed spec fn view(&self) -> DriverState {
        DriverState {
            cap: match self.cap {
                Some(c) => Some(c as nat),
                None => None,
            },
            in_flight: self.in_flight as nat,
            exhausted: self.exhausted,
            failure: self.failure,
        }
    }
}

/// A copy of a run error, equal to it.
fn copy_error(e: &RunError) -> (r: RunError)
    ensures
        r == *e,
{
    match e {
        RunError::Read(m) => RunError::Read(m.clone()),
        RunError::Fetch(m) => RunError::Fetch(m.clone()),
    }
}

impl Driver {
    /// Starts a run under `limit`; `Bounded(0)` is refused.
    pub fn new(limit: Limit) -> (r: Result<Driver, ConfigError>)
        ensures
            limit_valid(limit) <==> r is Ok,
            r matches Ok(d) ==> d@ == initial(limit) && state_wf(d@),
            r matches Err(e) ==> e == ConfigError::ZeroLimit,
    {
        let cap = match limit {
            Limit::Sequential => Some(1usize),
            Limit::Unbounded => None,
            Limit::Bounded(n) => {
                if n == 0 {
                    return Err(ConfigError::ZeroLimit);
                }
                Some(n)
            },
        };
        Ok(Driver { cap, in_flight: 0, exhausted: false, failure: None })
    }

    /// The number of fetches in flight.
    pub fn in_flight(&self) -> (r: usize)
        ensures
            r == self@.in_flight,
    {
        self.in_flight
    }

    /// Whether another fetch may start now.
    fn room(&self) -> (r: bool)
        ensures
            r == has_room(self@),
    {
        match self.cap {
            Some(c) => self.in_flight < c,
            None => self.in_flight < usize::MAX,
        }
    }

    /// What to do next.
    pub fn next_action(&self) -> (a: Action)
        ensures
            a == next_action_of(self@),
    {
        match &self.failure {
            Some(e) => Action::Finished(Err(copy_error(e))),
            None => {
                if self.exhausted {
                    if self.in_flight == 0 {
                        Action::Finished(Ok(()))
                    } else {
                        Action::AwaitFetch
                    }
                } else if self.room() {
                    Action::PullLine
                } else {
                    Action::AwaitFetch
                }
            },
        }
    }

    /// Takes in what happened. Returns the URL to start fetching, if the event
    /// is a line that names one.
    pub fn step(&mut self, event: Event) -> (url: Option<String>)
        requires
            state_wf(old(self)@),
            allowed(old(self)@, event),
        ensures
            final(self)@ == apply(old(self)@, event),
            state_wf(final(self)@),
            url matches Some(u) ==> dispatched(event) == Some(u@),
            url is None ==> dispatched(event) is None,
    {
        match event {
            Event::Line(l) => {
                if is_url_line_exec(l.as_str()) {
                    self.in_flight = self.in_flight + 1;
                    Some(l)
                } else {
                    None
                }
            },
            Event::SourceEnd => {
                self.exhausted = true;
                None
            },
            Event::SourceError(m) => {
                if self.failure.is_none() {
                    self.failure = Some(RunError::Read(m));
                }
                None
            },
            Event::FetchOk => {
                self.in_flight = self.in_flight - 1;
                None
            },
            Event::FetchErr(m) => {
                self.in_flight = self.in_flight - 1;
                if self.failure.is_none() {
                    self.failure = Some(RunError::Fetch(m));
                }
                None
            },
        }
    }
}

} // verus!
