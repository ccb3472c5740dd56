use vstd::prelude::*;
use crate::meme::Meme;
use crate::report::{progress_line, progress_text, rate_spec, seconds_spec, summary_line, summary_text};

verus! {

/// Where a fetch loop stands: which event it waits for, or that it has ended.
#[derive(Clone, Copy, Debug, PartialEq, Eq, Structural)]
pub enum Phase {
    /// Waits for the driver to be ready for the next action.
    AwaitingReady,
    /// Waits for the outcome of the fetch it asked for.
    AwaitingFetch,
    /// Has fetched every meme asked for.
    Finished,
    /// Has stopped on a failed fetch.
    Aborted,
}

/// What the driver reports to the loop.
#[derive(Debug)]
pub enum Event {
    /// The driver is ready for the next action: at the start, and after each
    /// progress line (and the pause that it asked for). Carries the time
    /// elapsed since the start.
    Ready { elapsed_nanos: u64 },
    /// A fetch succeeded and gave `meme`, at the given time since the start.
    Fetched { meme: Meme, elapsed_nanos: u64 },
    /// A fetch failed: the request, its status or its body was wrong.
    Failed { message: String },
}

/// What the loop asks the driver to do next.
#[derive(Debug)]
pub enum Action {
    /// Fetch one meme, and report `Fetched` or `Failed`.
    Fetch,
    /// Show `line` in place of the last progress line, then, if `pause` is
    /// set, wait one second; then report `Ready`.
    Progress { line: String, pause: bool },
    /// Show `summary`: the run is over and its memes can be taken.
    Finish { summary: String },
    /// Stop the run with `message`: no meme is handed out.
    Abort { message: String },
}

/// The model of a fetch loop.
pub struct LoopState {
    /// How many memes the run fetches.
    pub amount: nat,
    /// The memes fetched so far, in the order they came.
    pub memes: Seq<Meme>,
    /// The latest elapsed time reported, in nanoseconds.
    pub elapsed_nanos: nat,
    /// Which event the loop waits for, or how it ended.
    pub phase: Phase,
}

/// An action in terms of the values it shows.
pub enum Plan {
    /// Fetch one meme.
    Fetch,
    /// Show the progress after `fetched` of `amount` memes at `rate`
    /// hundredths per second, then pause if `pause` is set.
    Progress { fetched: nat, amount: nat, rate: nat, pause: bool },
    /// Show the summary of `fetched` memes in `seconds` hundredths of a second.
    Finish { fetched: nat, seconds: nat },
    /// Stop with `message`.
    Abort { message: Seq<char> },
}

/// The state of a loop that has been asked for `amount` memes and has not started.
pub open spec fn initial(amount: nat) -> LoopState {
    LoopState { amount, memes: Seq::empty(), elapsed_nanos: 0, phase: Phase::AwaitingReady }
}

/// The invariant of a loop: it never holds more memes than asked for, it
/// fetches only while some are missing, and it finishes with all of them.
pub open spec fn wf(s: LoopState) -> bool {
    &&& s.memes.len() <= s.amount
    &&& s.phase == Phase::AwaitingFetch ==> s.memes.len() < s.amount
    &&& s.phase == Phase::Finished ==> s.memes.len() == s.amount
}

/// Whether a loop in state `s` takes event `ev`: `Ready` when it waits for
/// the driver, `Fetched` or `Failed` when it waits for a fetch.
pub open spec fn accepts(s: LoopState, ev: Event) -> bool {
    match ev {
        Event::Ready { .. } => s.phase == Phase::AwaitingReady,
        Event::Fetched { .. } => s.phase == Phase::AwaitingFetch,
        Event::Failed { .. } => s.phase == Phase::AwaitingFetch,
    }
}

/// The elapsed time after a report of `reported`: the later of it and the
/// last one, so that the time shown never goes back.
pub open spec fn later(last: nat, reported: u64) -> nat {
    if reported > last {
        reported as nat
    } else {
        last
    }
}

/// The state after a loop in state `s` takes `ev`.
pub open spec fn next_state(s: LoopState, ev: Event) -> LoopState {
    if !accepts(s, ev) {
        s
    } else {
        match ev {
            Event::Ready { elapsed_nanos } => LoopState {
                elapsed_nanos: later(s.elapsed_nanos, elapsed_nanos),
                phase: if s.memes.len() < s.amount {
                    Phase::AwaitingFetch
                } else {
                    Phase::Finished
                },
                ..s
            },
            Event::Fetched { meme, elapsed_nanos } => LoopState {
                memes: s.memes.push(meme),
                elapsed_nanos: later(s.elapsed_nanos, elapsed_nanos),
                phase: Phase::AwaitingReady,
                ..s
            },
            Event::Failed { .. } => LoopState { phase: Phase::Aborted, ..s },
        }
    }
}

/// The action that a loop in state `s` asks for when it takes `ev`.
pub open spec fn next_plan(s: LoopState, ev: Event) -> Plan
    recommends
        accepts(s, ev),
{
    let t = next_state(s, ev);
    match ev {
        Event::Ready { .. } => if t.phase == Phase::Finished {
            Plan::Finish { fetched: t.memes.len(), seconds: seconds_spec(t.elapsed_nanos) }
        } else {
            Plan::Fetch
        },
        Event::Fetched { .. } => Plan::Progress {
            fetched: t.memes.len(),
            amount: t.amount,
            rate: rate_spec(t.memes.len(), t.elapsed_nanos),
            pause: t.memes.len() < t.amount,
        },
        Event::Failed { message } => Plan::Abort { message: message@ },
    }
}

impl Action {
    /// Whether this action is `p`, with its lines as `p`'s values read.
    pub open spec fn realizes(&self, p: Plan) -> bool {
        match (*self, p) {
            (Action::Fetch, Plan::Fetch) => true,
            (
                Action::Progress { line, pause },
                Plan::Progress { fetched, amount, rate, pause: q },
            ) => line@ == progress_text(fetched, amount, rate) && pause == q,
            (Action::Finish { summary }, Plan::Finish { fetched, seconds }) => summary@
                == summary_text(fetched, seconds),
            (Action::Abort { message }, Plan::Abort { message: m }) => message@ == m,
            _ => false,
        }
    }
}

/// The fetch loop: asks for `amount` memes one after another, shows the
/// progress after each, pauses one second between two fetches, and stops
/// at the first failure.
pub struct FetchLoop {
    amount: usize,
    memes: Vec<Meme>,
    elapsed_nanos: u64,
    phase: Phase,
}

impl View for FetchLoop {
    type V = LoopState;

    closed spec fn view(&self) -> LoopState {
        LoopState {
            amount: self.amount as nat,
            memes: self.memes@,
            elapsed_nanos: self.elapsed_nanos as nat,
            phase: self.phase,
        }
    }
}

impl FetchLoop {
    /// A loop that will fetch `amount` memes. Its driver starts it with `Ready`.
    pub fn new(amount: usize) -> (r: FetchLoop)
        ensures
            r@ == initial(amount as nat),
            wf(r@),
    {
        FetchLoop { amount, memes: Vec::new(), elapsed_nanos: 0, phase: Phase::AwaitingReady }
    }

    /// How many memes the loop fetches.
    pub fn amount(&self) -> (r: usize)
        ensures
            r == self@.amount,
    {
        self.amount
    }

    /// How many memes it has fetched so far.
    pub fn fetched(&self) -> (r: usize)
        ensures
            r == self@.memes.len(),
    {
        self.memes.len()
    }

    /// Where the loop stands.
    pub fn phase(&self) -> (r: Phase)
        ensures
            r == self@.phase,
    {
        self.phase
    }

    /// Whether the loop takes `ev` now.
    pub fn accepts(&self, ev: &Event) -> (r: bool)
        ensures
            r == accepts(self@, *ev),
    {
        match ev {
            Event::Ready { .. } => self.phase == Phase::AwaitingReady,
            Event::Fetched { .. } => self.phase == Phase::AwaitingFetch,
            Event::Failed { .. } => self.phase == Phase::AwaitingFetch,
        }
    }

    /// Takes the driver's report `ev` and says what to do next.
    pub fn step(&mut self, ev: Event) -> (r: Action)
        requires
            wf(old(self)@),
            accepts(old(self)@, ev),
        ensures
            final(self)@ == next_state(old(self)@, ev),
            wf(final(self)@),
            r.realizes(next_plan(old(self)@, ev)),
    {
        match ev {
            Event::Ready { elapsed_nanos } => {
                if elapsed_nanos > self.elapsed_nanos {
                    self.elapsed_nanos = elapsed_nanos;
                }
                if self.memes.len() < self.amount {
                    self.phase = Phase::AwaitingFetch;
                    Action::Fetch
                } else {
                    self.phase = Phase::Finished;
                    let summary = summary_line(self.memes.len() as u64, self.elapsed_nanos);
                    Action::Finish { summary }
                }
            },
            Event::Fetched { meme, elapsed_nanos } => {
                if elapsed_nanos > self.elapsed_nanos {
                    self.elapsed_nanos = elapsed_nanos;
                }
                self.memes.push(meme);
                self.phase = Phase::AwaitingReady;
                let fetched = self.memes.len();
                let line = progress_line(fetched as u64, self.amount as u64, self.elapsed_nanos);
                Action::Progress { line, pause: fetched < self.amount }
            },
            Event::Failed { message } => {
                self.phase = Phase::Aborted;
                Action::Abort { message }
            },
        }
    }

    /// The memes of a finished run, in the order they were fetched; nothing
    /// for a run that has not finished or has stopped on a failure.
    pub fn into_memes(self) -> (r: Option<Vec<Meme>>)
        ensures
            r is Some <==> self@.phase == Phase::Finished,
            r matches Some(v) ==> v@ == self@.memes,
    {
        if self.phase == Phase::Finished {
            Some(self.memes)
        } else {
            None
        }
    }
}

} // verus!
