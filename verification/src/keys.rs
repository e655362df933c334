//! The names under which the two counters of a rated item are stored.

use vstd::prelude::*;
use vstd::string::*;

verus! {

/// The storage key of the count of positive votes for `key`.
pub open spec fn spec_positive_key(key: Seq<char>) -> Seq<char> {
    "rating:"@ + key + ":positive"@
}

/// The storage key of the count of all votes for `key`.
pub open spec fn spec_total_key(key: Seq<char>) -> Seq<char> {
    "rating:"@ + key + ":total"@
}

/// The storage key of the count of positive votes for `key`.
pub fn positive_key(key: &str) -> (out: String)
    ensures
        out@ == spec_positive_key(key@),
{
    let mut out = String::from_str("rating:");
    out.append(key);
    out.append(":positive");
    out
}

/// The storage key of the count of all votes for `key`.
pub fn total_key(key: &str) -> (out: String)
    ensures
        out@ == spec_total_key(key@),
{
    let mut out = String::from_str("rating:");
    out.append(key);
    out.append(":total");
    out
}

/// No count of positive votes is stored under the name of a count of all
/// votes, of the same item or of another.
pub proof fn law_kinds_differ(a: Seq<char>, b: Seq<char>)
    ensures
        spec_positive_key(a) != spec_total_key(b),
{
    reveal_strlit("rating:");
    reveal_strlit(":positive");
    reveal_strlit(":total");
    let p = spec_positive_key(a);
    let t = spec_total_key(b);
    assert(p.len() == a.len() + 16);
    assert(t.len() == b.len() + 13);
    assert(p[p.len() - 1] == 'e');
    assert(t[t.len() - 1] == 'l');
}

/// Different items have different counters: the key can be read back
/// from either storage name.
pub proof fn law_keys_injective(a: Seq<char>, b: Seq<char>)
    ensures
        spec_positive_key(a) == spec_positive_key(b) ==> a == b,
        spec_total_key(a) == spec_total_key(b) ==> a == b,
{
    reveal_strlit("rating:");
    reveal_strlit(":positive");
    reveal_strlit(":total");
    if spec_positive_key(a) == spec_positive_key(b) {
        assert(spec_positive_key(a).len() == a.len() + 16);
        assert(spec_positive_key(b).len() == b.len() + 16);
        assert(a =~= spec_positive_key(a).subrange(7, 7 + a.len() as int));
        assert(b =~= spec_positive_key(b).subrange(7, 7 + b.len() as int));
    }
    if spec_total_key(a) == spec_total_key(b) {
        assert(spec_total_key(a).len() == a.len() + 13);
        assert(spec_total_key(b).len() == b.len() + 13);
        assert(a =~= spec_total_key(a).subrange(7, 7 + a.len() as int));
        assert(b =~= spec_total_key(b).subrange(7, 7 + b.len() as int));
    }
}

} // verus!
