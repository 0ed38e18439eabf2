//! Assembly of the results of one run over many destinations.

use crate::record::SHop;
use vstd::prelude::*;

verus! {

/// The trace of each destination, in the order of `destinations`. A unit of
/// work that failed unexpectedly (`None`) counts as an empty trace; the
/// others are kept as they are.
pub fn collect_batch(destinations: Vec<String>, results: Vec<Option<Vec<SHop>>>) -> (r: Vec<(String, Vec<SHop>)>)
    requires
        destinations@.len() == results@.len(),
    ensures
        r@.len() == destinations@.len(),
        forall|i: int|
            #![trigger r@[i]]
            0 <= i < r@.len() ==> {
                &&& r@[i].0 == destinations@[i]
                &&& match results@[i] {
                    Some(hops) => r@[i].1 == hops,
                    None => r@[i].1@.len() == 0,
                }
            },
{
    let ghost all_destinations = destinations@;
    let ghost all_results = results@;
    let mut destinations = destinations;
    let mut results = results;
    let mut batch: Vec<(String, Vec<SHop>)> = Vec::new();
    while destinations.len() > 0
        invariant
            destinations@.len() == results@.len(),
            batch@.len() + destinations@.len() == all_destinations.len(),
            destinations@ == all_destinations.subrange(batch@.len() as int, all_destinations.len() as int),
            results@ == all_results.subrange(batch@.len() as int, all_results.len() as int),
            all_destinations.len() == all_results.len(),
            forall|i: int|
                #![trigger batch@[i]]
                0 <= i < batch@.len() ==> {
                    &&& batch@[i].0 == all_destinations[i]
                    &&& match all_results[i] {
                        Some(hops) => batch@[i].1 == hops,
                        None => batch@[i].1@.len() == 0,
                    }
                },
        decreases destinations@.len(),
    {
        let ghost k = batch@.len() as int;
        let destination = destinations.remove(0);
        let hops = match results.remove(0) {
            Some(hops) => hops,
            None => Vec::new(),
        };
        batch.push((destination, hops));
        proof {
            assert(destinations@ =~= all_destinations.subrange(k + 1, all_destinations.len() as int));
            assert(results@ =~= all_results.subrange(k + 1, all_results.len() as int));
            assert(batch@[k].0 == all_destinations[k]);
        }
    }
    batch
}

} // verus!
