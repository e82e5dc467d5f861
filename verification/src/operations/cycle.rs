//! `tinty cycle`: the scheme applied next from a ring.
use crate::config::{opt_view, Config};
use crate::text::{cat, views};
use crate::utils::{cycle_scheme_list, next_in_cycle, next_scheme_in_cycle, ring_index, CycleError};
use vstd::prelude::*;

verus! {

/// The schemes `tinty cycle` goes through, when a ring can be picked: the
/// ring named by `requested`, or else by `default-cycle-ring`, provided
/// `preferred-schemes` is unset and the ring has schemes.
pub open spec fn cycle_ring(config: Config, requested: Option<Seq<char>>) -> Option<Seq<Seq<char>>> {
    let selected = match requested {
        Some(r) => Some(r),
        None => opt_view(config.default_cycle_ring),
    };
    if config.preferred_schemes is Some {
        None
    } else {
        match selected {
            None => None,
            Some(name) => match config.rings {
                None => None,
                Some(rings) => match ring_index(rings@, name) {
                    None => None,
                    Some(i) => if rings@[i].schemes.len() == 0 {
                        None
                    } else {
                        Some(views(rings@[i].schemes@))
                    },
                },
            },
        }
    }
}

/// The scheme `tinty cycle` applies after `current`: the next one of the
/// ring it goes through (the first when `current` is not in it), or why no
/// ring can be picked (as `cycle_scheme_list` reports it).
pub fn cycle(config: &Config, current: &String, ring_name: Option<&str>) -> (res: Result<String, CycleError>)
    ensures
        match cycle_ring(*config, match ring_name {
            Some(r) => Some(r@),
            None => None,
        }) {
            Some(schemes) => res matches Ok(next) && next@ == next_in_cycle(current@, schemes),
            None => res is Err,
        },
{
    let schemes = cycle_scheme_list(config, ring_name)?;
    assert(views(schemes@).len() == schemes@.len());
    Ok(next_scheme_in_cycle(current, &schemes))
}

/// The notice printed before the next scheme is applied.
pub fn cycle_message(next: &str) -> (res: String)
    ensures
        res@ == "Applying next theme in cycle: "@ + next@,
{
    cat("Applying next theme in cycle: ", next)
}

} // verus!
