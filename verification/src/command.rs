//! One invocation of a verb, as a conversation with the host: the
//! invocation asks for one read or write of a counter at a time, the host
//! carries it out and reports back, and the last answer is the reply or
//! the error. Whatever was written before an error stays written.

use vstd::prelude::*;
use vstd::string::*;
use crate::verb::{Verb, arity_ok};
use crate::error::{RatingError, ErrorView};
use crate::decimal::{spec_parse_i64, spec_decimal, parse_i64, format_i64};
use crate::keys::{spec_positive_key, spec_total_key, positive_key, total_key};

verus! {

/// What an invocation is waiting for.
#[derive(Clone, Copy, Debug, PartialEq, Eq, Structural)]
pub enum Phase {
    /// The stored count of positive votes.
    ReadPositive,
    /// Word that the new count of positive votes was stored.
    WritePositive,
    /// The stored count of all votes.
    ReadTotal,
    /// Word that the new count of all votes was stored.
    WriteTotal,
    /// Nothing: the reply or the error has been given.
    Finished,
}

/// The score of an item, up to the arithmetic on real numbers.
#[derive(Clone, Copy, Debug, PartialEq, Eq, Structural)]
pub enum Score {
    /// No votes: the score is exactly zero.
    Zero,
    /// The Wilson lower bound of `positive` among `total`, which is not
    /// zero.
    LowerBound { positive: i64, total: i64 },
}

/// What the host is to do next.
#[derive(Clone, Debug, PartialEq, Eq)]
pub enum Action {
    /// Open the counter `key` and report its whole value.
    Read { key: String },
    /// Store `value` as the whole value of the counter `key`.
    Write { key: String, value: String },
    /// Reply with an array of these two integers; the invocation is over.
    ReplyCounters { positive: i64, total: i64 },
    /// Reply with this score; the invocation is over.
    ReplyScore { score: Score },
    /// Reply with this error; the invocation is over.
    Fail { error: RatingError },
}

/// An `Action` with its texts as sequences of characters.
pub enum ActionView {
    Read { key: Seq<char> },
    Write { key: Seq<char>, value: Seq<char> },
    ReplyCounters { positive: int, total: int },
    ReplyScore { score: Score },
    Fail { error: ErrorView },
}

impl View for Action {
    type V = ActionView;

    open spec fn view(&self) -> ActionView {
        match *self {
            Action::Read { key } => ActionView::Read { key: key@ },
            Action::Write { key, value } => ActionView::Write { key: key@, value: value@ },
            Action::ReplyCounters { positive, total } => ActionView::ReplyCounters {
                positive: positive as int,
                total: total as int,
            },
            Action::ReplyScore { score } => ActionView::ReplyScore { score },
            Action::Fail { error } => ActionView::Fail { error: error@ },
        }
    }
}

/// What the host reports back.
#[derive(Clone, Debug, PartialEq, Eq)]
pub enum Event {
    /// The counter that was asked for holds `stored`, or does not exist.
    Value { stored: Option<String> },
    /// The value was stored.
    Written,
    /// The read or the write failed.
    Failed,
}

/// An `Event` with its text as a sequence of characters.
pub enum EventView {
    Value { stored: Option<Seq<char>> },
    Written,
    Failed,
}

/// The text of a stored value.
pub open spec fn stored_view(stored: Option<String>) -> Option<Seq<char>> {
    match stored {
        Some(text) => Some(text@),
        None => None,
    }
}

impl View for Event {
    type V = EventView;

    open spec fn view(&self) -> EventView {
        match *self {
            Event::Value { stored } => EventView::Value { stored: stored_view(stored) },
            Event::Written => EventView::Written,
            Event::Failed => EventView::Failed,
        }
    }
}

/// An invocation in progress.
#[derive(Debug)]
pub struct Invocation {
    verb: Verb,
    key: String,
    count: i64,
    phase: Phase,
    positive: i64,
    total: i64,
}

/// The state of an invocation: its verb, the rated item, the count it
/// adds, what it waits for, and the two counters as far as it knows them.
pub struct InvocationView {
    pub verb: Verb,
    pub key: Seq<char>,
    pub count: int,
    pub phase: Phase,
    pub positive: int,
    pub total: int,
}

impl View for Invocation {
    type V = InvocationView;

    closed spec fn view(&self) -> InvocationView {
        InvocationView {
            verb: self.verb,
            key: self.key@,
            count: self.count as int,
            phase: self.phase,
            positive: self.positive as int,
            total: self.total as int,
        }
    }
}

/// Whether `v` fits in a counter.
pub open spec fn fits(v: int) -> bool {
    i64::MIN <= v <= i64::MAX
}

/// The number that a counter holds: zero where it does not exist or is
/// empty, else what its text says, if that is an integer.
pub open spec fn counter_value(stored: Option<Seq<char>>) -> Option<int> {
    match stored {
        None => Some(0),
        Some(text) => if text.len() == 0 {
            Some(0)
        } else {
            spec_parse_i64(text)
        },
    }
}

/// The text that a counter holds, where it holds any.
pub open spec fn stored_text(stored: Option<Seq<char>>) -> Seq<char> {
    match stored {
        None => Seq::<char>::empty(),
        Some(text) => text,
    }
}

/// The score of `positive` votes among `total`.
pub open spec fn score_of(positive: int, total: int) -> Score {
    if total == 0 {
        Score::Zero
    } else {
        Score::LowerBound { positive: positive as i64, total: total as i64 }
    }
}

/// How an accepted argument vector starts an invocation, or why it is
/// refused. The first entry is the verb's name and is not looked at; the
/// second is the key; a third, where the verb takes one, is the count,
/// which is 1 without it.
pub open spec fn begin_spec(verb: Verb, args: Seq<Seq<char>>) -> Result<InvocationView, ErrorView> {
    if !arity_ok(verb, args.len() as int) {
        Err(ErrorView::Usage { verb })
    } else if args.len() == 3 && spec_parse_i64(args[2]) is None {
        Err(ErrorView::InvalidArgument { text: args[2] })
    } else {
        Ok(
            InvocationView {
                verb,
                key: args[1],
                count: if args.len() == 3 {
                    spec_parse_i64(args[2])->0
                } else {
                    1
                },
                phase: Phase::ReadPositive,
                positive: 0,
                total: 0,
            },
        )
    }
}

/// The invocation ends with `error`.
pub open spec fn fail_spec(inv: InvocationView, error: ErrorView) -> (InvocationView, ActionView) {
    (InvocationView { phase: Phase::Finished, ..inv }, ActionView::Fail { error })
}

/// What an invocation does with the stored count of positive votes.
pub open spec fn positive_read_spec(inv: InvocationView, stored: Option<Seq<char>>) -> (
    InvocationView,
    ActionView,
) {
    match counter_value(stored) {
        None => fail_spec(inv, ErrorView::InvalidArgument { text: stored_text(stored) }),
        Some(positive) => if inv.verb != Verb::RatePositive {
            (
                InvocationView { phase: Phase::ReadTotal, positive, ..inv },
                ActionView::Read { key: spec_total_key(inv.key) },
            )
        } else if fits(positive + inv.count) {
            (
                InvocationView {
                    phase: Phase::WritePositive,
                    positive: positive + inv.count,
                    ..inv
                },
                ActionView::Write {
                    key: spec_positive_key(inv.key),
                    value: spec_decimal(positive + inv.count),
                },
            )
        } else {
            fail_spec(inv, ErrorView::Overflow)
        },
    }
}

/// What an invocation does with the stored count of all votes.
pub open spec fn total_read_spec(inv: InvocationView, stored: Option<Seq<char>>) -> (
    InvocationView,
    ActionView,
) {
    match counter_value(stored) {
        None => fail_spec(inv, ErrorView::InvalidArgument { text: stored_text(stored) }),
        Some(total) => if inv.verb == Verb::CalculateRating {
            (
                InvocationView { phase: Phase::Finished, total, ..inv },
                ActionView::ReplyScore { score: score_of(inv.positive, total) },
            )
        } else if fits(total + inv.count) {
            (
                InvocationView { phase: Phase::WriteTotal, total: total + inv.count, ..inv },
                ActionView::Write {
                    key: spec_total_key(inv.key),
                    value: spec_decimal(total + inv.count),
                },
            )
        } else {
            fail_spec(inv, ErrorView::Overflow)
        },
    }
}

/// The next state and action of an invocation that is told `event`.
///
/// `rt.ratepos` reads the positive count, stores it raised by the count,
/// reads the total, stores it raised by the count, and replies with both
/// new values. `rt.rateneg` reads the positive count and leaves it, reads
/// the total, stores it raised by the count, and replies with the positive
/// count and the new total. `rt.get` reads both and replies with their
/// score. A counter that is no integer is an invalid argument, a sum out
/// of 64 bits an overflow, and a failure of the host, or an event that
/// does not answer what was asked, a store error; each ends the
/// invocation.
pub open spec fn step_spec(inv: InvocationView, event: EventView) -> (InvocationView, ActionView) {
    match (inv.phase, event) {
        (Phase::ReadPositive, EventView::Value { stored }) => positive_read_spec(inv, stored),
        (Phase::WritePositive, EventView::Written) => (
            InvocationView { phase: Phase::ReadTotal, ..inv },
            ActionView::Read { key: spec_total_key(inv.key) },
        ),
        (Phase::ReadTotal, EventView::Value { stored }) => total_read_spec(inv, stored),
        (Phase::WriteTotal, EventView::Written) => (
            InvocationView { phase: Phase::Finished, ..inv },
            ActionView::ReplyCounters { positive: inv.positive, total: inv.total },
        ),
        _ => fail_spec(inv, ErrorView::Store),
    }
}

/// The entries of an argument vector as sequences of characters.
pub open spec fn args_view(args: &[&str]) -> Seq<Seq<char>> {
    Seq::new(args@.len(), |i: int| args@[i]@)
}

/// Reads a stored counter: zero where it is absent or empty, else the
/// integer that its text says. Other text is an invalid argument, which
/// carries it.
pub fn read_counter(stored: &Option<String>) -> (r: Result<i64, RatingError>)
    ensures
        match counter_value(stored_view(*stored)) {
            Some(v) => r matches Ok(x) && x == v,
            None => r matches Err(RatingError::InvalidArgument { text }) && text@ == stored_text(
                stored_view(*stored),
            ),
        },
{
    match stored {
        None => Ok(0),
        Some(text) => {
            if text.as_str().is_empty() {
                Ok(0)
            } else {
                parse_i64(text.as_str())
            }
        },
    }
}

/// The score of `positive` votes among `total`: zero without votes.
pub fn score(positive: i64, total: i64) -> (out: Score)
    ensures
        out == score_of(positive as int, total as int),
{
    if total == 0 {
        Score::Zero
    } else {
        Score::LowerBound { positive, total }
    }
}

impl Invocation {
    /// Starts an invocation of `verb` with the argument vector `args`,
    /// whose first entry is the verb's name. The first thing asked of the
    /// host is always the stored count of positive votes. A vector of the
    /// wrong length is refused with a usage error, a count that is no
    /// integer as an invalid argument; nothing has been asked of the host
    /// then.
    pub fn begin(verb: Verb, args: &[&str]) -> (r: Result<(Invocation, Action), RatingError>)
        ensures
            match begin_spec(verb, args_view(args)) {
                Ok(start) => r matches Ok((inv, action)) && inv@ == start && action@
                    == (ActionView::Read { key: spec_positive_key(start.key) }),
                Err(error) => r matches Err(e) && e@ == error,
            },
    {
        if !verb.accepts(args.len()) {
            return Err(RatingError::Usage { verb });
        }
        assert(args_view(args)[1] == args@[1]@);
        let key: &str = args[1];
        let count: i64 = if args.len() == 3 {
            assert(args_view(args)[2] == args@[2]@);
            match parse_i64(args[2]) {
                Ok(n) => n,
                Err(e) => {
                    return Err(e);
                },
            }
        } else {
            1
        };
        let action = Action::Read { key: positive_key(key) };
        let inv = Invocation {
            verb,
            key: String::from_str(key),
            count,
            phase: Phase::ReadPositive,
            positive: 0,
            total: 0,
        };
        Ok((inv, action))
    }

    /// What the invocation is waiting for.
    pub fn phase(&self) -> (out: Phase)
        ensures
            out == self@.phase,
    {
        self.phase
    }

    /// Whether the invocation has given its reply or its error.
    pub fn is_finished(&self) -> (out: bool)
        ensures
            out == (self@.phase == Phase::Finished),
    {
        self.phase == Phase::Finished
    }

    /// The verb being run.
    pub fn verb(&self) -> (out: Verb)
        ensures
            out == self@.verb,
    {
        self.verb
    }

    /// The key of the item being rated.
    pub fn key(&self) -> (out: &str)
        ensures
            out@ == self@.key,
    {
        self.key.as_str()
    }

    /// The count that the invocation adds.
    pub fn count(&self) -> (out: i64)
        ensures
            out == self@.count,
    {
        self.count
    }

    /// Ends the invocation with `error`.
    fn fail(&mut self, error: RatingError) -> (action: Action)
        ensures
            (final(self)@, action@) == fail_spec(old(self)@, error@),
    {
        self.phase = Phase::Finished;
        Action::Fail { error }
    }

    /// Takes in the stored count of positive votes.
    fn positive_read(&mut self, stored: Option<String>) -> (action: Action)
        ensures
            (final(self)@, action@) == positive_read_spec(old(self)@, stored_view(stored)),
    {
        let positive: i64 = match read_counter(&stored) {
            Ok(v) => v,
            Err(e) => {
                return self.fail(e);
            },
        };
        if self.verb != Verb::RatePositive {
            self.positive = positive;
            self.phase = Phase::ReadTotal;
            return Action::Read { key: total_key(self.key.as_str()) };
        }
        match positive.checked_add(self.count) {
            Some(raised) => {
                self.positive = raised;
                self.phase = Phase::WritePositive;
                Action::Write { key: positive_key(self.key.as_str()), value: format_i64(raised) }
            },
            None => self.fail(RatingError::Overflow),
        }
    }

    /// Takes in the stored count of all votes.
    fn total_read(&mut self, stored: Option<String>) -> (action: Action)
        ensures
            (final(self)@, action@) == total_read_spec(old(self)@, stored_view(stored)),
    {
        let total: i64 = match read_counter(&stored) {
            Ok(v) => v,
            Err(e) => {
                return self.fail(e);
            },
        };
        if self.verb == Verb::CalculateRating {
            self.total = total;
            self.phase = Phase::Finished;
            return Action::ReplyScore { score: score(self.positive, total) };
        }
        match total.checked_add(self.count) {
            Some(raised) => {
                self.total = raised;
                self.phase = Phase::WriteTotal;
                Action::Write { key: total_key(self.key.as_str()), value: format_i64(raised) }
            },
            None => self.fail(RatingError::Overflow),
        }
    }

    /// Tells the invocation what the host reports of the action it was
    /// last given, and returns the next one.
    pub fn step(&mut self, event: Event) -> (action: Action)
        ensures
            (final(self)@, action@) == step_spec(old(self)@, event@),
    {
        match (self.phase, event) {
            (Phase::ReadPositive, Event::Value { stored }) => self.positive_read(stored),
            (Phase::WritePositive, Event::Written) => {
                self.phase = Phase::ReadTotal;
                Action::Read { key: total_key(self.key.as_str()) }
            },
            (Phase::ReadTotal, Event::Value { stored }) => self.total_read(stored),
            (Phase::WriteTotal, Event::Written) => {
                self.phase = Phase::Finished;
                Action::ReplyCounters { positive: self.positive, total: self.total }
            },
            _ => self.fail(RatingError::Store),
        }
    }
}

} // verus!
