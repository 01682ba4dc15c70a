//! Header maps: names are case-insensitive and kept in lower case; of two
//! headers with one name the later stands.

use vstd::prelude::*;
use crate::codec::string_of;
use crate::strmap::StrMap;
use crate::text::{ascii_lower, chars_of, lowered};

verus! {

/// The values of a header map as character sequences.
pub open spec fn header_model(headers: Map<Seq<char>, String>) -> Map<Seq<char>, Seq<char>> {
    Map::new(|k: Seq<char>| headers.contains_key(k), |k: Seq<char>| headers[k]@)
}

/// `base` after the headers of `entries` were laid over it one after the
/// other, each under its name in lower case.
pub open spec fn overlaid(base: Map<Seq<char>, Seq<char>>, entries: Seq<(String, String)>) -> Map<
    Seq<char>,
    Seq<char>,
>
    decreases entries.len(),
{
    if entries.len() == 0 {
        base
    } else {
        overlaid(base, entries.drop_last()).insert(
            ascii_lower(entries.last().0@),
            entries.last().1@,
        )
    }
}

/// The header map that a list of headers stands for.
pub open spec fn normalized(entries: Seq<(String, String)>) -> Map<Seq<char>, Seq<char>> {
    overlaid(Map::empty(), entries)
}

/// The name in lower case.
pub fn lower_name(name: &str) -> (lower: String)
    ensures
        lower@ == ascii_lower(name@),
{
    let chars = chars_of(name);
    let n = chars.len();
    string_of(&lowered(&chars, 0, n))
}

/// Lays the headers of `entries` over `base`.
pub fn overlay(base: &mut StrMap<String>, entries: &Vec<(String, String)>)
    requires
        old(base).wf(),
    ensures
        final(base).wf(),
        header_model(final(base)@) == overlaid(header_model(old(base)@), entries@),
{
    let mut i: usize = 0;
    while i < entries.len()
        invariant
            0 <= i <= entries.len(),
            base.wf(),
            header_model(base@) == overlaid(header_model(old(base)@), entries@.take(i as int)),
        decreases entries.len() - i,
    {
        let key = lower_name(entries[i].0.as_str());
        let value = entries[i].1.clone();
        proof {
            let taken = entries@.take(i + 1);
            assert(taken.drop_last() =~= entries@.take(i as int));
            assert(header_model(base@.insert(key@, value)) =~= header_model(base@).insert(
                key@,
                value@,
            ));
        }
        base.insert(key, value);
        i += 1;
    }
    assert(entries@.take(i as int) =~= entries@);
}

} // verus!
