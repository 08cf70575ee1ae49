//! A queryable local mirror of remote chat-platform state (guilds, channels,
//! members, messages, roles, presences and so on), kept up to date by feeding
//! it the delta events that the remote service streams out.
//!
//! The two interesting pieces are the event synchronizer ([`cache::Cache::update`]),
//! which turns each incoming event into the right sequence of storage
//! operations, and the permission resolver ([`cache::Cache::permissions`]), which
//! reconstructs a user's effective permissions from cached roles and
//! per-channel overwrites.  Storage itself is pluggable: implementors provide
//! the [`backend::Backend`] operations, whose required semantics are stated as
//! contracts over the abstract cache state in [`state::CacheModel`].

use vstd::prelude::*;
use vstd::std_specs::cmp::PartialEqSpec;

pub use backend::Backend;
pub use cache::Cache;
pub use cache::Error;

/// The trait to define how to get and set data in the backend
///
/// This is for adding support for a backend
pub mod backend;
/// The trait providing methods to use the cache
///
/// This is for the users of the cache
pub mod cache;
/// The event synchronizer's mathematical model: what each delta event does
/// to the abstract cache state
pub mod sync;
/// The delta events the cache is updated with
pub mod events;
/// Laws the synchronizer and the resolver obey, stated and proved once and
/// for all inputs
pub mod laws;
/// Definitions of cached structs, used when the cached data is different from
/// the event data
pub mod model;
/// The permission resolver's mathematical model: base permissions,
/// overwrites and timeouts
pub mod permissions;
/// The abstract cache state that the storage contracts speak of
pub mod state;
/// Wrappers around the wall clock and timestamp validation
pub mod clock;

verus! {

/// Returns a unique ID by stepping the given counter
///
/// Synthetic IDs (for embeds, which carry no natural ID on the wire) are drawn
/// from a counter owned by the backend, so that they are collision-free for
/// the lifetime of the cache.
pub fn unique_id(counter: &mut u64) -> (id: u64)
    requires
        *old(counter) < u64::MAX,
    ensures
        id == *old(counter),
        *final(counter) == *old(counter) + 1,
{
    let id = *counter;
    *counter = *counter + 1;
    id
}

/// Whether some element of `s` equals `x`, element equality taken by
/// [`PartialEqSpec::eq_spec`]
pub open spec fn seq_contains_eq<T: PartialEq>(s: Seq<T>, x: T) -> bool
    decreases s.len(),
{
    if s.len() == 0 {
        false
    } else {
        x.eq_spec(&s[0]) || seq_contains_eq(s.skip(1), x)
    }
}

/// Whether every element of `a` has an equal element in `b`
pub open spec fn all_contained<T: PartialEq>(a: Seq<T>, b: Seq<T>) -> bool
    decreases a.len(),
{
    if a.len() == 0 {
        true
    } else {
        seq_contains_eq(b, a[0]) && all_contained(a.skip(1), b)
    }
}

/// Returns whether the vectors are equal ignoring the order: they have the
/// same length and every element of the first has an equal element in the
/// second
pub fn assert_vecs_eq<T: PartialEq + PartialEqSpec>(vec_a: &Vec<T>, vec_b: &Vec<T>) -> (r: bool)
    ensures
        r ==> vec_a@.len() == vec_b@.len(),
        T::obeys_eq_spec() ==> r == (vec_a@.len() == vec_b@.len() && all_contained(
            vec_a@,
            vec_b@,
        )),
{
    if vec_a.len() != vec_b.len() {
        return false;
    }
    let mut i: usize = 0;
    proof {
        assert(vec_a@.skip(0) =~= vec_a@);
    }
    while i < vec_a.len()
        invariant
            i <= vec_a@.len(),
            vec_a@.len() == vec_b@.len(),
            T::obeys_eq_spec() ==> all_contained(vec_a@, vec_b@) == all_contained(
                vec_a@.skip(i as int),
                vec_b@,
            ),
        decreases vec_a@.len() - i,
    {
        let mut j: usize = 0;
        let mut found: bool = false;
        proof {
            assert(vec_b@.skip(0) =~= vec_b@);
        }
        while j < vec_b.len() && !found
            invariant
                j <= vec_b@.len(),
                vec_a@.len() == vec_b@.len(),
                i < vec_a@.len(),
                T::obeys_eq_spec() ==> seq_contains_eq(vec_b@, vec_a@[i as int]) == (found
                    || seq_contains_eq(vec_b@.skip(j as int), vec_a@[i as int])),
            decreases vec_b@.len() - j,
        {
            proof {
                assert(vec_b@.skip(j as int)[0] == vec_b@[j as int]);
                assert(vec_b@.skip(j as int).skip(1) =~= vec_b@.skip(j as int + 1));
            }
            if vec_a[i].eq(&vec_b[j]) {
                found = true;
            }
            j = j + 1;
        }
        proof {
            if T::obeys_eq_spec() && !found {
                assert(vec_b@.skip(j as int).len() == 0);
                assert(!seq_contains_eq(vec_b@, vec_a@[i as int]));
            }
            assert(vec_a@.skip(i as int)[0] == vec_a@[i as int]);
            assert(vec_a@.skip(i as int).skip(1) =~= vec_a@.skip(i as int + 1));
        }
        if !found {
            return false;
        }
        i = i + 1;
    }
    proof {
        assert(vec_a@.skip(i as int).len() == 0);
    }
    true
}

} // verus!
