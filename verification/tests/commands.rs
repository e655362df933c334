use redis_rating::command::{Action, Event, Invocation, Phase, Score};
use redis_rating::error::RatingError;
use redis_rating::keys::{positive_key, total_key};
use redis_rating::verb::Verb;
use std::collections::HashMap;

/// A host in memory: carries out what the invocation asks for until it
/// ends.
fn run(store: &mut HashMap<String, String>, verb: Verb, args: &[&str]) -> Action {
    let (mut inv, mut action) = match Invocation::begin(verb, args) {
        Ok(started) => started,
        Err(error) => return Action::Fail { error },
    };
    loop {
        let event = match action {
            Action::Read { key } => Event::Value { stored: store.get(&key).cloned() },
            Action::Write { key, value } => {
                store.insert(key, value);
                Event::Written
            }
            done => {
                assert!(inv.is_finished());
                return done;
            }
        };
        action = inv.step(event);
    }
}

fn counters(positive: i64, total: i64) -> Action {
    Action::ReplyCounters { positive, total }
}

fn invalid(text: &str) -> Action {
    Action::Fail { error: RatingError::InvalidArgument { text: text.to_string() } }
}

#[test]
fn first_positive_votes_count_from_one() {
    for key in ["item", "", "a:b", "rating:x:total", "\u{e9}t\u{e9}"] {
        let mut store = HashMap::new();
        assert_eq!(run(&mut store, Verb::RatePositive, &["rt.ratepos", key]), counters(1, 1));
        assert_eq!(run(&mut store, Verb::RatePositive, &["rt.ratepos", key]), counters(2, 2));
        assert_eq!(store.get(&format!("rating:{}:positive", key)), Some(&"2".to_string()));
        assert_eq!(store.get(&format!("rating:{}:total", key)), Some(&"2".to_string()));
        assert_eq!(store.len(), 2);
    }
}

#[test]
fn negative_vote_leaves_positive_count() {
    let mut store = HashMap::new();
    assert_eq!(run(&mut store, Verb::RatePositive, &["rt.ratepos", "k", "5"]), counters(5, 5));
    assert_eq!(run(&mut store, Verb::RateNegative, &["rt.rateneg", "k", "3"]), counters(5, 8));
    assert_eq!(store.get("rating:k:positive"), Some(&"5".to_string()));
    assert_eq!(store.get("rating:k:total"), Some(&"8".to_string()));
}

#[test]
fn negative_vote_on_fresh_key() {
    let mut store = HashMap::new();
    assert_eq!(run(&mut store, Verb::RateNegative, &["rt.rateneg", "k", "1"]), counters(0, 1));
    assert_eq!(store.get("rating:k:positive"), None);
    assert_eq!(store.get("rating:k:total"), Some(&"1".to_string()));
}

#[test]
fn negative_vote_defaults_to_one() {
    let mut store = HashMap::new();
    assert_eq!(run(&mut store, Verb::RateNegative, &["rt.rateneg", "k"]), counters(0, 1));
    assert_eq!(run(&mut store, Verb::RateNegative, &["rt.rateneg", "k"]), counters(0, 2));
}

#[test]
fn fresh_key_scores_zero() {
    let mut store = HashMap::new();
    assert_eq!(
        run(&mut store, Verb::CalculateRating, &["rt.get", "k"]),
        Action::ReplyScore { score: Score::Zero }
    );
    assert!(store.is_empty());
}

#[test]
fn score_after_ten_positive_votes() {
    let mut store = HashMap::new();
    assert_eq!(run(&mut store, Verb::RatePositive, &["rt.ratepos", "k", "10"]), counters(10, 10));
    let before = store.clone();
    assert_eq!(
        run(&mut store, Verb::CalculateRating, &["rt.get", "k"]),
        Action::ReplyScore { score: Score::LowerBound { positive: 10, total: 10 } }
    );
    assert_eq!(
        run(&mut store, Verb::CalculateRating, &["rt.get", "k"]),
        Action::ReplyScore { score: Score::LowerBound { positive: 10, total: 10 } }
    );
    assert_eq!(store, before);
}

#[test]
fn score_of_zero_total_is_zero_whatever_the_positive_count() {
    let mut store = HashMap::new();
    store.insert("rating:k:positive".to_string(), "4".to_string());
    store.insert("rating:k:total".to_string(), "0".to_string());
    assert_eq!(
        run(&mut store, Verb::CalculateRating, &["rt.get", "k"]),
        Action::ReplyScore { score: Score::Zero }
    );
}

#[test]
fn non_integer_count_fails_and_writes_nothing() {
    let mut store = HashMap::new();
    assert_eq!(run(&mut store, Verb::RatePositive, &["rt.ratepos", "k", "abc"]), invalid("abc"));
    assert_eq!(run(&mut store, Verb::RateNegative, &["rt.rateneg", "k", "1.5"]), invalid("1.5"));
    assert_eq!(run(&mut store, Verb::RatePositive, &["rt.ratepos", "k", ""]), invalid(""));
    assert!(store.is_empty());
    assert_eq!(
        Invocation::begin(Verb::RatePositive, &["rt.ratepos", "k", "abc"]).err(),
        Some(RatingError::InvalidArgument { text: "abc".to_string() })
    );
}

#[test]
fn wrong_number_of_arguments_is_a_usage_error() {
    let usage = |verb| Action::Fail { error: RatingError::Usage { verb } };
    let mut store = HashMap::new();
    assert_eq!(run(&mut store, Verb::RatePositive, &[]), usage(Verb::RatePositive));
    assert_eq!(run(&mut store, Verb::RatePositive, &["rt.ratepos"]), usage(Verb::RatePositive));
    assert_eq!(
        run(&mut store, Verb::RatePositive, &["rt.ratepos", "k", "1", "2"]),
        usage(Verb::RatePositive)
    );
    assert_eq!(
        run(&mut store, Verb::RatePositive, &["rt.ratepos", "k", "x", "y", "z"]),
        usage(Verb::RatePositive)
    );
    assert_eq!(run(&mut store, Verb::RateNegative, &["rt.rateneg"]), usage(Verb::RateNegative));
    assert_eq!(
        run(&mut store, Verb::RateNegative, &["rt.rateneg", "k", "1", "2"]),
        usage(Verb::RateNegative)
    );
    assert_eq!(run(&mut store, Verb::CalculateRating, &["rt.get"]), usage(Verb::CalculateRating));
    assert_eq!(
        run(&mut store, Verb::CalculateRating, &["rt.get", "k", "1"]),
        usage(Verb::CalculateRating)
    );
    assert!(store.is_empty());
}

#[test]
fn votes_accumulate_exactly_across_reads() {
    let mut store = HashMap::new();
    assert_eq!(run(&mut store, Verb::RatePositive, &["rt.ratepos", "k", "7"]), counters(7, 7));
    assert_eq!(
        run(&mut store, Verb::CalculateRating, &["rt.get", "k"]),
        Action::ReplyScore { score: Score::LowerBound { positive: 7, total: 7 } }
    );
    assert_eq!(run(&mut store, Verb::RatePositive, &["rt.ratepos", "k", "5"]), counters(12, 12));
    assert_eq!(run(&mut store, Verb::RateNegative, &["rt.rateneg", "k", "30"]), counters(12, 42));
    assert_eq!(
        run(&mut store, Verb::CalculateRating, &["rt.get", "k"]),
        Action::ReplyScore { score: Score::LowerBound { positive: 12, total: 42 } }
    );
    assert_eq!(
        run(&mut store, Verb::RatePositive, &["rt.ratepos", "k", "1000000000000"]),
        counters(1000000000012, 1000000000042)
    );
    assert_eq!(store.get("rating:k:positive"), Some(&"1000000000012".to_string()));
    assert_eq!(store.get("rating:k:total"), Some(&"1000000000042".to_string()));
}

#[test]
fn negative_counts_subtract() {
    let mut store = HashMap::new();
    assert_eq!(run(&mut store, Verb::RatePositive, &["rt.ratepos", "k", "5"]), counters(5, 5));
    assert_eq!(run(&mut store, Verb::RatePositive, &["rt.ratepos", "k", "-2"]), counters(3, 3));
    assert_eq!(run(&mut store, Verb::RateNegative, &["rt.rateneg", "k", "-4"]), counters(3, -1));
    assert_eq!(store.get("rating:k:total"), Some(&"-1".to_string()));
}

#[test]
fn votes_keep_positive_within_total() {
    let mut store = HashMap::new();
    let votes = [
        (Verb::RatePositive, "3"),
        (Verb::RateNegative, "2"),
        (Verb::RatePositive, "0"),
        (Verb::RateNegative, "11"),
        (Verb::RatePositive, "40"),
    ];
    for (verb, count) in votes {
        match run(&mut store, verb, &[verb.name(), "k", count]) {
            Action::ReplyCounters { positive, total } => assert!(0 <= positive && positive <= total),
            other => panic!("unexpected {:?}", other),
        }
    }
    assert_eq!(store.get("rating:k:positive"), Some(&"43".to_string()));
    assert_eq!(store.get("rating:k:total"), Some(&"56".to_string()));
}

#[test]
fn invocation_ends_within_four_events() {
    for verb in Verb::all() {
        let (mut inv, mut action) = Invocation::begin(verb, &[verb.name(), "k"]).unwrap();
        let mut events = 0;
        while !inv.is_finished() {
            let event = match action {
                Action::Read { .. } => Event::Value { stored: Some("1".to_string()) },
                _ => Event::Written,
            };
            action = inv.step(event);
            events += 1;
        }
        assert!(events <= 4);
        assert!(!matches!(action, Action::Read { .. } | Action::Write { .. }));
    }
}

#[test]
fn keys_do_not_share_counters() {
    let mut store = HashMap::new();
    assert_eq!(run(&mut store, Verb::RatePositive, &["rt.ratepos", "a", "3"]), counters(3, 3));
    assert_eq!(run(&mut store, Verb::RatePositive, &["rt.ratepos", "b"]), counters(1, 1));
    assert_eq!(run(&mut store, Verb::RateNegative, &["rt.rateneg", "a"]), counters(3, 4));
    assert_eq!(store.len(), 4);
}

#[test]
fn empty_stored_value_counts_as_zero() {
    let mut store = HashMap::new();
    store.insert("rating:k:positive".to_string(), String::new());
    store.insert("rating:k:total".to_string(), String::new());
    assert_eq!(run(&mut store, Verb::RatePositive, &["rt.ratepos", "k", "2"]), counters(2, 2));
}

#[test]
fn stored_text_that_is_no_integer_fails() {
    let mut store = HashMap::new();
    store.insert("rating:k:positive".to_string(), "many".to_string());
    let before = store.clone();
    assert_eq!(run(&mut store, Verb::RatePositive, &["rt.ratepos", "k"]), invalid("many"));
    assert_eq!(run(&mut store, Verb::RateNegative, &["rt.rateneg", "k"]), invalid("many"));
    assert_eq!(run(&mut store, Verb::CalculateRating, &["rt.get", "k"]), invalid("many"));
    assert_eq!(store, before);
}

#[test]
fn failed_vote_keeps_what_was_written() {
    let mut store = HashMap::new();
    store.insert("rating:k:positive".to_string(), "4".to_string());
    store.insert("rating:k:total".to_string(), "4x".to_string());
    assert_eq!(run(&mut store, Verb::RatePositive, &["rt.ratepos", "k", "2"]), invalid("4x"));
    assert_eq!(store.get("rating:k:positive"), Some(&"6".to_string()));
    assert_eq!(store.get("rating:k:total"), Some(&"4x".to_string()));
}

#[test]
fn sum_out_of_range_is_an_overflow() {
    let overflow = Action::Fail { error: RatingError::Overflow };
    let mut store = HashMap::new();
    store.insert("rating:k:total".to_string(), "9223372036854775807".to_string());
    assert_eq!(run(&mut store, Verb::RateNegative, &["rt.rateneg", "k"]), overflow);
    assert_eq!(store.get("rating:k:total"), Some(&"9223372036854775807".to_string()));
    assert_eq!(run(&mut store, Verb::RatePositive, &["rt.ratepos", "k"]), overflow);
    assert_eq!(store.get("rating:k:positive"), Some(&"1".to_string()));
    assert_eq!(
        run(&mut store, Verb::RateNegative, &["rt.rateneg", "k", "-1"]),
        counters(1, 9223372036854775806)
    );
    store.insert("rating:m:positive".to_string(), "-9223372036854775808".to_string());
    assert_eq!(run(&mut store, Verb::RatePositive, &["rt.ratepos", "m", "-1"]), overflow);
    assert_eq!(store.get("rating:m:positive"), Some(&"-9223372036854775808".to_string()));
}

#[test]
fn positive_vote_asks_in_order() {
    let (mut inv, first) = Invocation::begin(Verb::RatePositive, &["rt.ratepos", "k", "2"]).unwrap();
    assert_eq!(inv.verb(), Verb::RatePositive);
    assert_eq!(inv.key(), "k");
    assert_eq!(inv.count(), 2);
    assert_eq!(inv.phase(), Phase::ReadPositive);
    assert_eq!(first, Action::Read { key: "rating:k:positive".to_string() });
    let second = inv.step(Event::Value { stored: Some("40".to_string()) });
    assert_eq!(
        second,
        Action::Write { key: "rating:k:positive".to_string(), value: "42".to_string() }
    );
    assert_eq!(inv.phase(), Phase::WritePositive);
    let third = inv.step(Event::Written);
    assert_eq!(third, Action::Read { key: "rating:k:total".to_string() });
    assert_eq!(inv.phase(), Phase::ReadTotal);
    let fourth = inv.step(Event::Value { stored: None });
    assert_eq!(fourth, Action::Write { key: "rating:k:total".to_string(), value: "2".to_string() });
    assert_eq!(inv.phase(), Phase::WriteTotal);
    assert!(!inv.is_finished());
    let last = inv.step(Event::Written);
    assert_eq!(last, counters(42, 2));
    assert!(inv.is_finished());
}

#[test]
fn negative_vote_asks_in_order() {
    let (mut inv, first) = Invocation::begin(Verb::RateNegative, &["rt.rateneg", "k"]).unwrap();
    assert_eq!(inv.count(), 1);
    assert_eq!(first, Action::Read { key: "rating:k:positive".to_string() });
    let second = inv.step(Event::Value { stored: Some("3".to_string()) });
    assert_eq!(second, Action::Read { key: "rating:k:total".to_string() });
    let third = inv.step(Event::Value { stored: Some("9".to_string()) });
    assert_eq!(third, Action::Write { key: "rating:k:total".to_string(), value: "10".to_string() });
    assert_eq!(inv.step(Event::Written), counters(3, 10));
    assert!(inv.is_finished());
}

#[test]
fn host_failure_is_a_store_error() {
    let store_error = Action::Fail { error: RatingError::Store };
    let (mut inv, _) = Invocation::begin(Verb::RatePositive, &["rt.ratepos", "k"]).unwrap();
    assert_eq!(inv.step(Event::Failed), store_error);
    assert!(inv.is_finished());

    let (mut inv, _) = Invocation::begin(Verb::RatePositive, &["rt.ratepos", "k"]).unwrap();
    inv.step(Event::Value { stored: None });
    assert_eq!(inv.step(Event::Failed), store_error);
    assert!(inv.is_finished());

    let (mut inv, _) = Invocation::begin(Verb::RatePositive, &["rt.ratepos", "k"]).unwrap();
    inv.step(Event::Value { stored: None });
    inv.step(Event::Written);
    inv.step(Event::Value { stored: None });
    assert_eq!(inv.step(Event::Failed), store_error);
    assert!(inv.is_finished());
}

#[test]
fn event_that_answers_nothing_is_a_store_error() {
    let store_error = Action::Fail { error: RatingError::Store };
    let (mut inv, _) = Invocation::begin(Verb::CalculateRating, &["rt.get", "k"]).unwrap();
    assert_eq!(inv.step(Event::Written), store_error);
    assert!(inv.is_finished());
    assert_eq!(inv.step(Event::Value { stored: None }), store_error);

    let (mut inv, _) = Invocation::begin(Verb::RatePositive, &["rt.ratepos", "k"]).unwrap();
    inv.step(Event::Value { stored: None });
    assert_eq!(inv.step(Event::Value { stored: None }), store_error);
}

#[test]
fn storage_keys_are_derived_from_the_key() {
    assert_eq!(positive_key("item"), "rating:item:positive");
    assert_eq!(total_key("item"), "rating:item:total");
    assert_eq!(positive_key(""), "rating::positive");
    assert_eq!(total_key("a b"), "rating:a b:total");
    assert_eq!(positive_key("\u{e9}"), "rating:\u{e9}:positive");
}

#[test]
fn verbs_have_names_and_flags() {
    assert_eq!(Verb::RatePositive.name(), "rt.ratepos");
    assert_eq!(Verb::RateNegative.name(), "rt.rateneg");
    assert_eq!(Verb::CalculateRating.name(), "rt.get");
    for verb in Verb::all() {
        assert_eq!(verb.str_flags(), "write");
    }
    assert_eq!(Verb::all(), vec![Verb::RatePositive, Verb::RateNegative, Verb::CalculateRating]);
}

#[test]
fn verbs_accept_their_argument_counts() {
    for len in 0..6usize {
        assert_eq!(Verb::RatePositive.accepts(len), len == 2 || len == 3);
        assert_eq!(Verb::RateNegative.accepts(len), len == 2 || len == 3);
        assert_eq!(Verb::CalculateRating.accepts(len), len == 2);
    }
}

#[test]
fn errors_have_messages() {
    assert_eq!(
        RatingError::Usage { verb: Verb::RatePositive }.message(),
        "Usage: rt.ratepos <key> [<count>]"
    );
    assert_eq!(
        RatingError::Usage { verb: Verb::RateNegative }.message(),
        "Usage: rt.rateneg <key> [<count>]"
    );
    assert_eq!(RatingError::Usage { verb: Verb::CalculateRating }.message(), "Usage: rt.get <key>");
    assert_eq!(
        RatingError::InvalidArgument { text: "abc".to_string() }.message(),
        "Couldn't parse as integer: abc"
    );
    assert_eq!(RatingError::Overflow.message(), "Counter out of range");
    assert_eq!(RatingError::Store.message(), "Counter could not be read or written");
}
