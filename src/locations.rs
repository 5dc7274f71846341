//! Locations that users have claimed.
use vstd::prelude::*;

use crate::records::{ComingoutPost, Place};

verus! {

/// The post is a current (not deprecated) location claim of `user_id`.
pub open spec fn claims_location(p: ComingoutPost, user_id: i64) -> bool {
    p.user_id == user_id && !p.deprecated
}

/// The (building, floor) pair that a post claims.
pub open spec fn place_of(p: ComingoutPost) -> Place {
    Place { building: p.building_num, floor: p.floor_num }
}

/// The distinct places claimed by current posts of `user_id`, in the order
/// in which each first occurs.
pub open spec fn places_of(posts: Seq<ComingoutPost>, user_id: i64) -> Seq<Place>
    decreases posts.len(),
{
    if posts.len() == 0 {
        Seq::empty()
    } else {
        let prev = places_of(posts.drop_last(), user_id);
        let p = posts.last();
        if claims_location(p, user_id) && !prev.contains(place_of(p)) {
            prev.push(place_of(p))
        } else {
            prev
        }
    }
}

fn contains_place(places: &Vec<Place>, place: Place) -> (r: bool)
    ensures
        r == places@.contains(place),
{
    let mut i: usize = 0;
    while i < places.len()
        invariant
            i <= places@.len(),
            forall|j: int| 0 <= j < i ==> places@[j] != place,
        decreases places@.len() - i,
    {
        if places[i] == place {
            return true;
        }
        i = i + 1;
    }
    false
}

/// The distinct (building, floor) pairs claimed by the current posts of
/// `user_id`, in order of first occurrence.
pub fn locations(posts: &Vec<ComingoutPost>, user_id: i64) -> (r: Vec<Place>)
    ensures
        r@ == places_of(posts@, user_id),
{
    let mut res: Vec<Place> = Vec::new();
    let mut i: usize = 0;
    while i < posts.len()
        invariant
            i <= posts@.len(),
            res@ == places_of(posts@.subrange(0, i as int), user_id),
        decreases posts@.len() - i,
    {
        let p = &posts[i];
        let place = Place { building: p.building_num, floor: p.floor_num };
        proof {
            assert(posts@.subrange(0, i + 1).drop_last() == posts@.subrange(0, i as int));
        }
        if p.user_id == user_id && !p.deprecated && !contains_place(&res, place) {
            res.push(place);
        }
        i = i + 1;
    }
    proof {
        assert(posts@.subrange(0, posts@.len() as int) == posts@);
    }
    res
}

/// Every listed place is claimed by a current post of the user, every such
/// post's place is listed, and no place is listed twice.
pub proof fn lemma_places_of(posts: Seq<ComingoutPost>, user_id: i64)
    ensures
        forall|k: int|
            0 <= k < places_of(posts, user_id).len() ==> exists|i: int|
                0 <= i < posts.len() && claims_location(posts[i], user_id) && place_of(posts[i])
                    == #[trigger] places_of(posts, user_id)[k],
        forall|i: int|
            0 <= i < posts.len() && claims_location(posts[i], user_id) ==> places_of(
                posts,
                user_id,
            ).contains(#[trigger] place_of(posts[i])),
        places_of(posts, user_id).no_duplicates(),
    decreases posts.len(),
{
    if posts.len() > 0 {
        let prev = posts.drop_last();
        lemma_places_of(prev, user_id);
        let r = places_of(posts, user_id);
        let rp = places_of(prev, user_id);
        assert forall|k: int| 0 <= k < r.len() implies exists|i: int|
            0 <= i < posts.len() && claims_location(posts[i], user_id) && place_of(posts[i])
                == #[trigger] r[k] by {
            if k < rp.len() {
                assert(r[k] == rp[k]);
                let i = choose|i: int|
                    0 <= i < prev.len() && claims_location(prev[i], user_id) && place_of(prev[i])
                        == rp[k];
                assert(posts[i] == prev[i]);
            } else {
                assert(posts[posts.len() - 1] == posts.last());
            }
        }
        assert forall|i: int| 0 <= i < posts.len() && claims_location(posts[i], user_id) implies r.contains(
            #[trigger] place_of(posts[i]),
        ) by {
            if i < prev.len() {
                assert(posts[i] == prev[i]);
                assert(rp.contains(place_of(prev[i])));
                let k = choose|k: int| 0 <= k < rp.len() && rp[k] == place_of(prev[i]);
                assert(r[k] == rp[k]);
            } else {
                assert(posts[i] == posts.last());
                if !rp.contains(place_of(posts.last())) {
                    assert(r[rp.len() as int] == place_of(posts.last()));
                }
            }
        }
    }
}

} // verus!
