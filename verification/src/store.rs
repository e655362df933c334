//! A host that never fails, as a map from storage keys to values, and
//! what the verbs do to it.

use vstd::prelude::*;
use crate::verb::{Verb, arity_ok};
use crate::error::ErrorView;
use crate::decimal::{spec_parse_i64, spec_decimal, lemma_decimal_round_trip, lemma_decimal_nonempty};
use crate::keys::{spec_positive_key, spec_total_key, law_kinds_differ, law_keys_injective};
use crate::command::{
    Phase, Score, ActionView, EventView, InvocationView, begin_spec, step_spec, counter_value,
    score_of, fits,
};

verus! {

/// What the store holds under `key`.
pub open spec fn lookup(store: Map<Seq<char>, Seq<char>>, key: Seq<char>) -> Option<Seq<char>> {
    if store.dom().contains(key) {
        Some(store[key])
    } else {
        None
    }
}

/// The number of events that an invocation can still take in.
pub open spec fn steps_left(phase: Phase) -> nat {
    match phase {
        Phase::ReadPositive => 4,
        Phase::WritePositive => 3,
        Phase::ReadTotal => 2,
        Phase::WriteTotal => 1,
        Phase::Finished => 0,
    }
}

/// Carries out `action` and all that the invocation asks for after it,
/// and gives the store as it is left and the action that ended the
/// invocation.
pub open spec fn run_from(
    inv: InvocationView,
    action: ActionView,
    store: Map<Seq<char>, Seq<char>>,
) -> (Map<Seq<char>, Seq<char>>, ActionView)
    decreases steps_left(inv.phase),
{
    if inv.phase == Phase::Finished {
        (store, action)
    } else {
        match action {
            ActionView::Read { key } => {
                let next = step_spec(inv, EventView::Value { stored: lookup(store, key) });
                run_from(next.0, next.1, store)
            },
            ActionView::Write { key, value } => {
                let next = step_spec(inv, EventView::Written);
                run_from(next.0, next.1, store.insert(key, value))
            },
            _ => (store, action),
        }
    }
}

/// Whether `action` ends an invocation.
pub open spec fn is_last(action: ActionView) -> bool {
    !(action is Read) && !(action is Write)
}

/// Every event brings an invocation nearer to its end, and the action
/// that answers an event is the last one exactly where the invocation is
/// finished: no invocation takes in more than four events, and a
/// finished one answers every further event with a store error.
pub proof fn law_invocation_ends(inv: InvocationView, event: EventView)
    ensures
        inv.phase != Phase::Finished ==> steps_left(step_spec(inv, event).0.phase) < steps_left(
            inv.phase,
        ),
        is_last(step_spec(inv, event).1) <==> step_spec(inv, event).0.phase == Phase::Finished,
        inv.phase == Phase::Finished ==> step_spec(inv, event) == (
            inv,
            ActionView::Fail { error: ErrorView::Store },
        ),
{
}

/// Runs `verb` with the argument vector `args` on `store`.
pub open spec fn run_spec(verb: Verb, args: Seq<Seq<char>>, store: Map<Seq<char>, Seq<char>>) -> (
    Map<Seq<char>, Seq<char>>,
    ActionView,
) {
    match begin_spec(verb, args) {
        Ok(inv) => run_from(inv, ActionView::Read { key: spec_positive_key(inv.key) }, store),
        Err(error) => (store, ActionView::Fail { error }),
    }
}

/// The count of positive votes that `store` holds for `key`.
pub open spec fn positive_votes(store: Map<Seq<char>, Seq<char>>, key: Seq<char>) -> Option<int> {
    counter_value(lookup(store, spec_positive_key(key)))
}

/// The count of all votes that `store` holds for `key`.
pub open spec fn total_votes(store: Map<Seq<char>, Seq<char>>, key: Seq<char>) -> Option<int> {
    counter_value(lookup(store, spec_total_key(key)))
}

/// Whether `store` holds no counter for `key`.
pub open spec fn fresh(store: Map<Seq<char>, Seq<char>>, key: Seq<char>) -> bool {
    !store.dom().contains(spec_positive_key(key)) && !store.dom().contains(spec_total_key(key))
}

/// The argument vector of a verb with a key and no count.
pub open spec fn plain_args(name: Seq<char>, key: Seq<char>) -> Seq<Seq<char>> {
    seq![name, key]
}

/// The argument vector of a verb with a key and the count `count`.
pub open spec fn counted_args(name: Seq<char>, key: Seq<char>, count: int) -> Seq<Seq<char>> {
    seq![name, key, spec_decimal(count)]
}

/// A counter that was written reads back as the number written.
pub proof fn lemma_written_counter(store: Map<Seq<char>, Seq<char>>, key: Seq<char>, v: int)
    requires
        fits(v),
    ensures
        counter_value(lookup(store.insert(key, spec_decimal(v)), key)) == Some(v),
{
    lemma_decimal_round_trip(v);
    lemma_decimal_nonempty(v);
}

/// A positive vote adds the count to both counters, exactly: where the
/// store holds `positive` and `total` for the key and both sums fit, the
/// reply is the two sums, each is stored in canonical form, nothing else
/// in the store changes, and the counters read back as the sums.
pub proof fn law_positive_vote_accumulates(
    store: Map<Seq<char>, Seq<char>>,
    name: Seq<char>,
    key: Seq<char>,
    count: int,
    positive: int,
    total: int,
)
    requires
        fits(count),
        positive_votes(store, key) == Some(positive),
        total_votes(store, key) == Some(total),
        fits(positive + count),
        fits(total + count),
    ensures
        run_spec(Verb::RatePositive, counted_args(name, key, count), store) == (
            store.insert(spec_positive_key(key), spec_decimal(positive + count)).insert(
                spec_total_key(key),
                spec_decimal(total + count),
            ),
            ActionView::ReplyCounters { positive: positive + count, total: total + count },
        ),
        positive_votes(
            run_spec(Verb::RatePositive, counted_args(name, key, count), store).0,
            key,
        ) == Some(positive + count),
        total_votes(run_spec(Verb::RatePositive, counted_args(name, key, count), store).0, key)
            == Some(total + count),
        count == 1 ==> run_spec(Verb::RatePositive, plain_args(name, key), store) == run_spec(
            Verb::RatePositive,
            counted_args(name, key, count),
            store,
        ),
{
    reveal_with_fuel(run_from, 5);
    lemma_decimal_round_trip(count);
    law_kinds_differ(key, key);
    let pk = spec_positive_key(key);
    let tk = spec_total_key(key);
    let mid = store.insert(pk, spec_decimal(positive + count));
    assert(lookup(mid, tk) == lookup(store, tk));
    lemma_written_counter(store, pk, positive + count);
    lemma_written_counter(mid, tk, total + count);
    assert(lookup(mid.insert(tk, spec_decimal(total + count)), pk) == lookup(mid, pk));
}

/// A negative vote adds the count to the total and leaves the positive
/// count alone: the reply is the positive count as stored and the new
/// total, and only the total is written.
pub proof fn law_negative_vote_accumulates(
    store: Map<Seq<char>, Seq<char>>,
    name: Seq<char>,
    key: Seq<char>,
    count: int,
    positive: int,
    total: int,
)
    requires
        fits(count),
        positive_votes(store, key) == Some(positive),
        total_votes(store, key) == Some(total),
        fits(total + count),
    ensures
        run_spec(Verb::RateNegative, counted_args(name, key, count), store) == (
            store.insert(spec_total_key(key), spec_decimal(total + count)),
            ActionView::ReplyCounters { positive, total: total + count },
        ),
        positive_votes(
            run_spec(Verb::RateNegative, counted_args(name, key, count), store).0,
            key,
        ) == Some(positive),
        total_votes(run_spec(Verb::RateNegative, counted_args(name, key, count), store).0, key)
            == Some(total + count),
        count == 1 ==> run_spec(Verb::RateNegative, plain_args(name, key), store) == run_spec(
            Verb::RateNegative,
            counted_args(name, key, count),
            store,
        ),
{
    reveal_with_fuel(run_from, 5);
    lemma_decimal_round_trip(count);
    law_kinds_differ(key, key);
    let pk = spec_positive_key(key);
    let tk = spec_total_key(key);
    lemma_written_counter(store, tk, total + count);
    assert(lookup(store.insert(tk, spec_decimal(total + count)), pk) == lookup(store, pk));
}

/// Scoring reads and never writes: the store is left as it was, and the
/// reply is the score of the two counters as stored.
pub proof fn law_score_reads_only(
    store: Map<Seq<char>, Seq<char>>,
    name: Seq<char>,
    key: Seq<char>,
    positive: int,
    total: int,
)
    requires
        positive_votes(store, key) == Some(positive),
        total_votes(store, key) == Some(total),
    ensures
        run_spec(Verb::CalculateRating, plain_args(name, key), store) == (
            store,
            ActionView::ReplyScore { score: score_of(positive, total) },
        ),
{
    reveal_with_fuel(run_from, 5);
}

/// A key that was never voted on counts as zero votes of either kind,
/// and scores exactly zero.
pub proof fn law_fresh_key(store: Map<Seq<char>, Seq<char>>, name: Seq<char>, key: Seq<char>)
    requires
        fresh(store, key),
    ensures
        positive_votes(store, key) == Some(0int),
        total_votes(store, key) == Some(0int),
        run_spec(Verb::CalculateRating, plain_args(name, key), store) == (
            store,
            ActionView::ReplyScore { score: Score::Zero },
        ),
{
    law_score_reads_only(store, name, key, 0, 0);
}

/// On a fresh key, a first positive vote without a count replies with
/// one and one, and a second with two and two.
pub proof fn law_first_votes(store: Map<Seq<char>, Seq<char>>, name: Seq<char>, key: Seq<char>)
    requires
        fresh(store, key),
    ensures
        ({
            let first = run_spec(Verb::RatePositive, plain_args(name, key), store);
            let second = run_spec(Verb::RatePositive, plain_args(name, key), first.0);
            &&& first.1 == (ActionView::ReplyCounters { positive: 1, total: 1 })
            &&& second.1 == (ActionView::ReplyCounters { positive: 2, total: 2 })
        }),
{
    law_positive_vote_accumulates(store, name, key, 1, 0, 0);
    let first = run_spec(Verb::RatePositive, plain_args(name, key), store);
    law_positive_vote_accumulates(first.0, name, key, 1, 1, 1);
}

/// On a fresh key, a positive vote of `up` and then a negative vote of
/// `down` reply with `up` and `up + down`; a negative vote alone replies
/// with zero and `down`.
pub proof fn law_mixed_votes(
    store: Map<Seq<char>, Seq<char>>,
    name: Seq<char>,
    key: Seq<char>,
    up: int,
    down: int,
)
    requires
        fresh(store, key),
        fits(up),
        fits(down),
        fits(up + down),
    ensures
        ({
            let first = run_spec(Verb::RatePositive, counted_args(name, key, up), store);
            let second = run_spec(Verb::RateNegative, counted_args(name, key, down), first.0);
            &&& first.1 == (ActionView::ReplyCounters { positive: up, total: up })
            &&& second.1 == (ActionView::ReplyCounters { positive: up, total: up + down })
        }),
        run_spec(Verb::RateNegative, counted_args(name, key, down), store).1 == (
            ActionView::ReplyCounters { positive: 0, total: down }
        ),
{
    law_positive_vote_accumulates(store, name, key, up, 0, 0);
    let first = run_spec(Verb::RatePositive, counted_args(name, key, up), store);
    law_negative_vote_accumulates(first.0, name, key, down, up, up);
    law_negative_vote_accumulates(store, name, key, down, 0, 0);
}

/// Votes, a score, and more votes: the score sees the sums so far and
/// changes nothing, and the later vote adds to those sums exactly.
pub proof fn law_votes_round_trip(
    store: Map<Seq<char>, Seq<char>>,
    name: Seq<char>,
    key: Seq<char>,
    first: int,
    second: int,
    positive: int,
    total: int,
)
    requires
        fits(first),
        fits(second),
        positive_votes(store, key) == Some(positive),
        total_votes(store, key) == Some(total),
        fits(positive + first),
        fits(total + first),
        fits(positive + first + second),
        fits(total + first + second),
    ensures
        ({
            let voted = run_spec(Verb::RatePositive, counted_args(name, key, first), store);
            let scored = run_spec(Verb::CalculateRating, plain_args(name, key), voted.0);
            let again = run_spec(Verb::RatePositive, counted_args(name, key, second), scored.0);
            &&& scored.0 == voted.0
            &&& scored.1 == (ActionView::ReplyScore {
                score: score_of(positive + first, total + first),
            })
            &&& again.1 == (ActionView::ReplyCounters {
                positive: positive + first + second,
                total: total + first + second,
            })
            &&& positive_votes(again.0, key) == Some(positive + first + second)
            &&& total_votes(again.0, key) == Some(total + first + second)
        }),
{
    law_positive_vote_accumulates(store, name, key, first, positive, total);
    let voted = run_spec(Verb::RatePositive, counted_args(name, key, first), store);
    law_score_reads_only(voted.0, name, key, positive + first, total + first);
    law_positive_vote_accumulates(voted.0, name, key, second, positive + first, total + first);
}

/// A count that is no integer fails the command as an invalid argument
/// that carries the count's text, and nothing is written.
pub proof fn law_bad_count_writes_nothing(
    verb: Verb,
    args: Seq<Seq<char>>,
    store: Map<Seq<char>, Seq<char>>,
)
    requires
        verb != Verb::CalculateRating,
        args.len() == 3,
        spec_parse_i64(args[2]) is None,
    ensures
        run_spec(verb, args, store) == (
            store,
            ActionView::Fail { error: ErrorView::InvalidArgument { text: args[2] } },
        ),
{
}

/// An argument vector of the wrong length fails the command with a usage
/// error that names the verb, and nothing is written. For the two votes
/// that is a vector without a key, or with more than a key and a count.
pub proof fn law_wrong_arity_is_usage(
    verb: Verb,
    args: Seq<Seq<char>>,
    store: Map<Seq<char>, Seq<char>>,
)
    requires
        !arity_ok(verb, args.len() as int),
    ensures
        run_spec(verb, args, store) == (store, ActionView::Fail { error: ErrorView::Usage { verb } }),
        verb != Verb::CalculateRating ==> (args.len() <= 1 || args.len() > 3),
{
}

/// Votes that keep to the rules keep the counters in order: where the
/// positive count is not negative and not above the total, and the count
/// added is not negative, the same holds of what either vote replies.
pub proof fn law_votes_keep_order(
    store: Map<Seq<char>, Seq<char>>,
    name: Seq<char>,
    key: Seq<char>,
    count: int,
    positive: int,
    total: int,
)
    requires
        positive_votes(store, key) == Some(positive),
        total_votes(store, key) == Some(total),
        0 <= positive <= total,
        0 <= count,
        fits(total + count),
    ensures
        ({
            let up = run_spec(Verb::RatePositive, counted_args(name, key, count), store);
            let down = run_spec(Verb::RateNegative, counted_args(name, key, count), store);
            &&& up.1 matches ActionView::ReplyCounters { positive: p, total: t } && 0 <= p <= t
            &&& positive_votes(up.0, key) matches Some(p) && total_votes(up.0, key) matches Some(t)
                && 0 <= p <= t
            &&& down.1 matches ActionView::ReplyCounters { positive: p, total: t } && 0 <= p <= t
            &&& positive_votes(down.0, key) matches Some(p) && total_votes(down.0, key) matches Some(
                t,
            ) && 0 <= p <= t
        }),
{
    law_positive_vote_accumulates(store, name, key, count, positive, total);
    law_negative_vote_accumulates(store, name, key, count, positive, total);
}

/// A command touches the two counters of its key and nothing else:
/// whatever is stored under any other name is left as it was, also where
/// the command fails.
pub proof fn law_command_touches_own_counters(
    verb: Verb,
    args: Seq<Seq<char>>,
    store: Map<Seq<char>, Seq<char>>,
    other: Seq<char>,
)
    requires
        args.len() >= 2 ==> other != spec_positive_key(args[1]) && other != spec_total_key(args[1]),
    ensures
        lookup(run_spec(verb, args, store).0, other) == lookup(store, other),
{
    reveal_with_fuel(run_from, 5);
}

/// Votes on one item leave the counters of every other item as they
/// were.
pub proof fn law_items_are_separate(
    verb: Verb,
    args: Seq<Seq<char>>,
    store: Map<Seq<char>, Seq<char>>,
    other: Seq<char>,
)
    requires
        args.len() >= 2 ==> other != args[1],
    ensures
        positive_votes(run_spec(verb, args, store).0, other) == positive_votes(store, other),
        total_votes(run_spec(verb, args, store).0, other) == total_votes(store, other),
{
    if args.len() >= 2 {
        law_keys_injective(args[1], other);
        law_kinds_differ(args[1], other);
        law_kinds_differ(other, args[1]);
    }
    law_command_touches_own_counters(verb, args, store, spec_positive_key(other));
    law_command_touches_own_counters(verb, args, store, spec_total_key(other));
}

/// A positive vote is not undone where its second half fails: with a
/// total that is no integer the command fails as an invalid argument, and
/// the new positive count stays written.
pub proof fn law_failed_vote_keeps_first_write(
    store: Map<Seq<char>, Seq<char>>,
    name: Seq<char>,
    key: Seq<char>,
    count: int,
    positive: int,
)
    requires
        fits(count),
        positive_votes(store, key) == Some(positive),
        total_votes(store, key) is None,
        fits(positive + count),
    ensures
        run_spec(Verb::RatePositive, counted_args(name, key, count), store) == (
            store.insert(spec_positive_key(key), spec_decimal(positive + count)),
            ActionView::Fail {
                error: ErrorView::InvalidArgument { text: store[spec_total_key(key)] },
            },
        ),
{
    reveal_with_fuel(run_from, 5);
    lemma_decimal_round_trip(count);
    law_kinds_differ(key, key);
    let pk = spec_positive_key(key);
    let tk = spec_total_key(key);
    let mid = store.insert(pk, spec_decimal(positive + count));
    assert(lookup(mid, tk) == lookup(store, tk));
}

} // verus!
