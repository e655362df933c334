//! The closed set of verbs this module adds to its host.

use vstd::prelude::*;

verus! {

/// One of the three verbs.
#[derive(Clone, Copy, Debug, PartialEq, Eq, Structural)]
pub enum Verb {
    /// `rt.ratepos <key> [<count>]`: adds to both counters.
    RatePositive,
    /// `rt.rateneg <key> [<count>]`: adds to the total only.
    RateNegative,
    /// `rt.get <key>`: reads both counters and scores them.
    CalculateRating,
}

/// The name under which a verb is registered.
pub open spec fn verb_name(verb: Verb) -> Seq<char> {
    match verb {
        Verb::RatePositive => "rt.ratepos"@,
        Verb::RateNegative => "rt.rateneg"@,
        Verb::CalculateRating => "rt.get"@,
    }
}

/// The arguments a verb takes, as its usage message shows them.
pub open spec fn verb_arguments(verb: Verb) -> Seq<char> {
    match verb {
        Verb::RatePositive => " <key> [<count>]"@,
        Verb::RateNegative => " <key> [<count>]"@,
        Verb::CalculateRating => " <key>"@,
    }
}

/// Whether a verb accepts an argument vector of `len` entries, the verb's
/// own name included.
pub open spec fn arity_ok(verb: Verb, len: int) -> bool {
    match verb {
        Verb::RatePositive => len == 2 || len == 3,
        Verb::RateNegative => len == 2 || len == 3,
        Verb::CalculateRating => len == 2,
    }
}

/// The verbs in the order in which they are registered.
pub open spec fn all_verbs() -> Seq<Verb> {
    seq![Verb::RatePositive, Verb::RateNegative, Verb::CalculateRating]
}

impl Verb {
    /// Every verb, in the order in which they are registered with the
    /// host.
    pub fn all() -> (out: Vec<Verb>)
        ensures
            out@ == all_verbs(),
    {
        let out = vec![Verb::RatePositive, Verb::RateNegative, Verb::CalculateRating];
        assert(out@ =~= all_verbs());
        out
    }

    /// The name under which the verb is registered with the host.
    pub fn name(&self) -> (out: &'static str)
        ensures
            out@ == verb_name(*self),
    {
        match self {
            Verb::RatePositive => "rt.ratepos",
            Verb::RateNegative => "rt.rateneg",
            Verb::CalculateRating => "rt.get",
        }
    }

    /// The flags the verb is registered with. All three are registered as
    /// write commands, the read-only `rt.get` too.
    pub fn str_flags(&self) -> (out: &'static str)
        ensures
            out@ == "write"@,
    {
        "write"
    }

    /// The argument part of the verb's usage message.
    pub fn arguments(&self) -> (out: &'static str)
        ensures
            out@ == verb_arguments(*self),
    {
        match self {
            Verb::RatePositive => " <key> [<count>]",
            Verb::RateNegative => " <key> [<count>]",
            Verb::CalculateRating => " <key>",
        }
    }

    /// Whether the verb accepts `len` arguments, its own name included.
    pub fn accepts(&self, len: usize) -> (out: bool)
        ensures
            out == arity_ok(*self, len as int),
    {
        match self {
            Verb::RatePositive => len == 2 || len == 3,
            Verb::RateNegative => len == 2 || len == 3,
            Verb::CalculateRating => len == 2,
        }
    }
}

} // verus!
