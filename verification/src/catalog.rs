//! The champion catalog: a load-once list of `(id, name)` records, looked up
//! by normalized operator input. The lookup mirrors how names are entered: the
//! input is cleaned (whitespace and apostrophes dropped, lower-cased) and
//! compared against the lower-cased catalog name; the first match wins.

use vstd::prelude::*;

use crate::text::{chars_equal, clean_name, clean_str, lower_name, lower_str};

verus! {

/// One catalog record, loaded once at startup and never mutated.
#[derive(Debug)]
pub struct Champion {
    pub id: u32,
    pub name: String,
}

/// The catalog entry answers for the given cleaned input: its lower-cased
/// name equals the cleaned input exactly.
pub open spec fn name_matches(c: Champion, cleaned: Seq<char>) -> bool {
    lower_name(c.name@) == cleaned
}

/// Finds the first catalog entry whose lower-cased name equals the cleaned
/// input, returning its index.
pub fn find_champion(champions: &Vec<Champion>, cleaned: &Vec<char>) -> (r: Option<usize>)
    ensures
        match r {
            Some(i) => {
                &&& i < champions@.len()
                &&& name_matches(champions@[i as int], cleaned@)
                &&& forall|j: int| 0 <= j < i ==> !name_matches(champions@[j], cleaned@)
            },
            None => forall|j: int|
                0 <= j < champions@.len() ==> !name_matches(champions@[j], cleaned@),
        },
{
    let mut i: usize = 0;
    while i < champions.len()
        invariant
            i <= champions@.len(),
            forall|j: int| 0 <= j < i ==> !name_matches(champions@[j], cleaned@),
        decreases champions@.len() - i,
    {
        let lowered = lower_str(champions[i].name.as_str());
        if chars_equal(&lowered, cleaned) {
            return Some(i);
        }
        i += 1;
    }
    None
}

/// Cleans raw operator input and finds the first matching catalog entry.
pub fn find_champion_for_input(champions: &Vec<Champion>, input: &str) -> (r: Option<usize>)
    ensures
        match r {
            Some(i) => {
                &&& i < champions@.len()
                &&& name_matches(champions@[i as int], clean_name(input@))
                &&& forall|j: int| 0 <= j < i ==> !name_matches(champions@[j], clean_name(input@))
            },
            None => forall|j: int|
                0 <= j < champions@.len() ==> !name_matches(champions@[j], clean_name(input@)),
        },
{
    let cleaned = clean_str(input);
    find_champion(champions, &cleaned)
}

} // verus!
