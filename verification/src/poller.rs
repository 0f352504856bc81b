//! The poller: the cycle that asks the store for the next job on every tick,
//! hands it to the dispatcher and has the outcome recorded, one job at a
//! time. The cycle decides; the caller performs what it asks for and reports
//! back.

use vstd::prelude::*;
use vstd::string::*;
use crate::dispatcher::{summary_text, Outcome};
use crate::job_queue::Job;
use crate::text::{copy_texts, texts};

verus! {

/// Seconds between two ticks.
pub const POLL_INTERVAL_SECS: u64 = 5;

/// The number of lines the activity feed keeps.
pub const RECENT_CAPACITY: usize = 5;

/// The sixteen hexadecimal digits, lower case.
pub open spec fn hex_digit(d: int) -> char {
    seq!['0', '1', '2', '3', '4', '5', '6', '7', '8', '9', 'a', 'b', 'c', 'd', 'e', 'f'][d]
}

/// The last `width` hexadecimal digits of `n`, most significant first.
pub open spec fn hex_digits(n: int, width: nat) -> Seq<char>
    decreases width,
{
    if width == 0 {
        Seq::empty()
    } else {
        hex_digits(n / 16, (width - 1) as nat).push(hex_digit(n % 16))
    }
}

/// The text of the identifier `id`: its 32 hexadecimal digits, lower case,
/// in groups of 8, 4, 4, 4 and 12 with hyphens between them.
pub open spec fn uuid_text(id: u128) -> Seq<char> {
    let digits = hex_digits(id as int, 32);
    digits.subrange(0, 8) + seq!['-'] + digits.subrange(8, 12) + seq!['-'] + digits.subrange(
        12,
        16,
    ) + seq!['-'] + digits.subrange(16, 20) + seq!['-'] + digits.subrange(20, 32)
}

/// Builds the identifier with `uuid::Uuid::from_u128` and writes it with its
/// `Display` impl.
///
/// Trusted: `from_u128` takes the number in big-endian order, and `Display`
/// writes the hyphenated lower-case form, as [`uuid_text`] states it.
#[verifier::external_body]
fn id_text(id: u128) -> (r: String)
    ensures
        r@ == uuid_text(id),
{
    uuid::Uuid::from_u128(id).to_string()
}

/// The last `n` of `lines`, or all of them where there are no more than `n`.
pub open spec fn last_lines(lines: Seq<Seq<char>>, n: int) -> Seq<Seq<char>> {
    if lines.len() <= n {
        lines
    } else {
        lines.subrange(lines.len() - n, lines.len() as int)
    }
}

/// A bounded feed of recent activity, oldest line first. It is for display
/// only; the store is the record.
#[derive(Debug)]
pub struct RecentActivity {
    entries: Vec<String>,
}

impl View for RecentActivity {
    type V = Seq<Seq<char>>;

    closed spec fn view(&self) -> Seq<Seq<char>> {
        texts(self.entries@)
    }
}

impl RecentActivity {
    /// An empty feed.
    pub fn new() -> (r: RecentActivity)
        ensures
            r@ == Seq::<Seq<char>>::empty(),
    {
        let r = RecentActivity { entries: Vec::new() };
        assert(r@ =~= Seq::<Seq<char>>::empty());
        r
    }

    /// Adds a line at the end and keeps the last `RECENT_CAPACITY` lines.
    pub fn push(&mut self, line: String)
        ensures
            final(self)@ == last_lines(old(self)@.push(line@), RECENT_CAPACITY as int),
            final(self)@.len() <= RECENT_CAPACITY,
    {
        let ghost all = self@.push(line@);
        self.entries.push(line);
        assert(self@ =~= all);
        while self.entries.len() > RECENT_CAPACITY
            invariant
                last_lines(self@, RECENT_CAPACITY as int) == last_lines(
                    all,
                    RECENT_CAPACITY as int,
                ),
            decreases self.entries@.len(),
        {
            let ghost before = self@;
            self.entries.remove(0);
            assert(self@ =~= before.subrange(1, before.len() as int));
            assert(last_lines(self@, RECENT_CAPACITY as int) =~= last_lines(
                before,
                RECENT_CAPACITY as int,
            ));
        }
    }

    /// A copy of the lines, oldest first.
    pub fn lines(&self) -> (r: Vec<String>)
        ensures
            texts(r@) == self@,
    {
        copy_texts(&self.entries)
    }
}

/// Where the cycle stands.
#[derive(Clone, Copy, Debug, PartialEq, Eq, Structural)]
pub enum PollerState {
    /// Nothing is under way.
    Idle,
    /// The store has been asked for the next job.
    Claiming,
    /// The dispatcher is delivering the job.
    Dispatching { job_id: u128 },
    /// The store has been asked to record the outcome of the job.
    Recording { job_id: u128 },
}

/// What the cycle asks its caller to do.
#[derive(Debug)]
pub enum PollerAction {
    /// Nothing; wait for the next tick.
    Nothing,
    /// Ask the store to claim the next job, and report with `on_polled`.
    Claim,
    /// Have the job delivered, and report with `on_dispatched`.
    Dispatch { job_id: u128 },
    /// Have the outcome recorded in the store, and report with `on_recorded`.
    Record { job_id: u128, outcome: Outcome },
    /// Log the message; the tick is over.
    Report { message: String },
}

/// The line the feed gets when a job is claimed.
pub open spec fn processing_text(id: Seq<char>) -> Seq<char> {
    "Processing Job: "@ + id
}

/// The line for a claimed job whose identifier is written as `id`.
pub fn processing_line(id: &str) -> (r: String)
    ensures
        r@ == processing_text(id@),
{
    let mut out = String::from_str("Processing Job: ");
    out.append(id);
    out
}

/// The polling cycle and its activity feed.
#[derive(Debug)]
pub struct Poller {
    state: PollerState,
    recent: RecentActivity,
}

/// What a [`Poller`] holds, as mathematical values.
pub struct PollerView {
    pub state: PollerState,
    pub recent: Seq<Seq<char>>,
}

impl View for Poller {
    type V = PollerView;

    closed spec fn view(&self) -> PollerView {
        PollerView { state: self.state, recent: self.recent@ }
    }
}

impl Poller {
    /// An idle cycle with an empty feed.
    pub fn new() -> (r: Poller)
        ensures
            r@ == (PollerView { state: PollerState::Idle, recent: Seq::empty() }),
    {
        Poller { state: PollerState::Idle, recent: RecentActivity::new() }
    }

    /// Where the cycle stands.
    pub fn state(&self) -> (r: PollerState)
        ensures
            r == self@.state,
    {
        self.state
    }

    /// A copy of the activity feed, oldest line first.
    pub fn recent(&self) -> (r: Vec<String>)
        ensures
            texts(r@) == self@.recent,
    {
        self.recent.lines()
    }

    /// The timer fired. An idle cycle starts a claim. A cycle that is under
    /// way goes on undisturbed: claims are made one at a time.
    pub fn on_tick(&mut self) -> (r: PollerAction)
        ensures
            final(self)@.recent == old(self)@.recent,
            match old(self)@.state {
                PollerState::Idle => r is Claim && final(self)@.state == PollerState::Claiming,
                _ => r is Nothing && final(self)@.state == old(self)@.state,
            },
    {
        match self.state {
            PollerState::Idle => {
                self.state = PollerState::Claiming;
                PollerAction::Claim
            },
            _ => PollerAction::Nothing,
        }
    }

    /// The store answered the claim.
    ///
    /// With a job, the feed gets its line and the job is to be dispatched.
    /// Without one the cycle is idle again. When the store failed, the
    /// failure is to be logged and the tick is over: the claim is not tried
    /// again before the next tick. A cycle that made no claim ignores the
    /// answer.
    pub fn on_polled(&mut self, result: Result<Option<Job>, String>) -> (r: PollerAction)
        ensures
            match old(self)@.state {
                PollerState::Claiming => match result {
                    Ok(Some(job)) => {
                        &&& r matches PollerAction::Dispatch { job_id }
                        &&& job_id == job.id
                        &&& final(self)@.state == (PollerState::Dispatching { job_id: job.id })
                        &&& final(self)@.recent == last_lines(
                            old(self)@.recent.push(processing_text(uuid_text(job.id))),
                            RECENT_CAPACITY as int,
                        )
                    },
                    Ok(None) => {
                        &&& r is Nothing
                        &&& final(self)@.state == PollerState::Idle
                        &&& final(self)@.recent == old(self)@.recent
                    },
                    Err(detail) => {
                        &&& r matches PollerAction::Report { message }
                        &&& message@ == "Job polling error: "@ + detail@
                        &&& final(self)@.state == PollerState::Idle
                        &&& final(self)@.recent == old(self)@.recent
                    },
                },
                _ => r is Nothing && final(self)@ == old(self)@,
            },
    {
        match self.state {
            PollerState::Claiming => match result {
                Ok(Some(job)) => {
                    let id = id_text(job.id);
                    self.recent.push(processing_line(id.as_str()));
                    self.state = PollerState::Dispatching { job_id: job.id };
                    PollerAction::Dispatch { job_id: job.id }
                },
                Ok(None) => {
                    self.state = PollerState::Idle;
                    PollerAction::Nothing
                },
                Err(detail) => {
                    self.state = PollerState::Idle;
                    let mut message = String::from_str("Job polling error: ");
                    message.append(detail.as_str());
                    PollerAction::Report { message }
                },
            },
            _ => PollerAction::Nothing,
        }
    }

    /// The dispatcher finished. The feed gets the outcome's line, and the
    /// outcome is to be recorded in the store before the cycle is over. A
    /// cycle that dispatched nothing ignores the outcome.
    pub fn on_dispatched(&mut self, outcome: Outcome) -> (r: PollerAction)
        ensures
            match old(self)@.state {
                PollerState::Dispatching { job_id } => {
                    &&& r matches PollerAction::Record { job_id: id, outcome: o }
                    &&& id == job_id
                    &&& o@ == outcome@
                    &&& final(self)@.state == (PollerState::Recording { job_id })
                    &&& final(self)@.recent == last_lines(
                        old(self)@.recent.push(summary_text(outcome@)),
                        RECENT_CAPACITY as int,
                    )
                },
                _ => r is Nothing && final(self)@ == old(self)@,
            },
    {
        match self.state {
            PollerState::Dispatching { job_id } => {
                self.recent.push(outcome.summary());
                self.state = PollerState::Recording { job_id };
                PollerAction::Record { job_id, outcome }
            },
            _ => PollerAction::Nothing,
        }
    }

    /// The store answered the request to record the outcome. The cycle is
    /// idle again; when the store failed, the failure is to be logged. A
    /// cycle that asked for nothing to be recorded ignores the answer.
    pub fn on_recorded(&mut self, result: Result<(), String>) -> (r: PollerAction)
        ensures
            final(self)@.recent == old(self)@.recent,
            match old(self)@.state {
                PollerState::Recording { .. } => {
                    &&& final(self)@.state == PollerState::Idle
                    &&& match result {
                        Ok(_) => r is Nothing,
                        Err(detail) => r matches PollerAction::Report { message } && message@
                            == "Job recording error: "@ + detail@,
                    }
                },
                _ => r is Nothing && final(self)@ == old(self)@,
            },
    {
        match self.state {
            PollerState::Recording { .. } => {
                self.state = PollerState::Idle;
                match result {
                    Ok(_) => PollerAction::Nothing,
                    Err(detail) => {
                        let mut message = String::from_str("Job recording error: ");
                        message.append(detail.as_str());
                        PollerAction::Report { message }
                    },
                }
            },
            _ => PollerAction::Nothing,
        }
    }
}

} // verus!
