//! Discovery of neighbours' forwardable location posts.
use vstd::prelude::*;

use crate::classify::{is_current_member, is_member};
use crate::records::{ComingoutPost, KnownUser, NeighborMessage, Place};

verus! {

/// The post claims a floor of a building in `places`, or a floor right above
/// or below one.
pub open spec fn is_near(p: ComingoutPost, places: Seq<Place>) -> bool {
    exists|k: int|
        0 <= k < places.len() && #[trigger] places[k].building == p.building_num
            && places[k].floor - 1 <= p.floor_num <= places[k].floor + 1
}

/// The post may be shown to `user_id`, who lives at `places`: it is current,
/// the bot holds a forwarded copy of it, and it was written near `places` by
/// another user who is still a member.
pub open spec fn is_candidate(
    users: Seq<KnownUser>,
    p: ComingoutPost,
    user_id: i64,
    places: Seq<Place>,
) -> bool {
    &&& !p.deprecated
    &&& p.forwarded_chat_id is Some
    &&& p.forwarded_msg_id is Some
    &&& p.user_id != user_id
    &&& is_member(users, p.user_id)
    &&& is_near(p, places)
}

/// Post `i` stands for its author on its floor: it is the candidate with the
/// largest message id among that author's candidates on that floor, and the
/// first one among equals.
pub open spec fn stands_for(
    users: Seq<KnownUser>,
    posts: Seq<ComingoutPost>,
    user_id: i64,
    places: Seq<Place>,
    i: int,
) -> bool {
    &&& 0 <= i < posts.len()
    &&& is_candidate(users, posts[i], user_id, places)
    &&& forall|j: int|
        0 <= j < posts.len() && #[trigger] is_candidate(users, posts[j], user_id, places)
            && posts[j].user_id == posts[i].user_id && posts[j].floor_num == posts[i].floor_num
            ==> posts[j].msg_id < posts[i].msg_id || (posts[j].msg_id == posts[i].msg_id && i <= j)
}

/// The forwardable reference of a post whose forward fields are set.
pub open spec fn message_of(p: ComingoutPost) -> NeighborMessage {
    NeighborMessage {
        user_id: p.user_id,
        floor: p.floor_num,
        chat_id: p.forwarded_chat_id->Some_0,
        msg_id: p.forwarded_msg_id->Some_0,
    }
}

/// `m` is the reference of a post, among the first `n`, that stands for its
/// author on its floor.
pub open spec fn represents_some(
    users: Seq<KnownUser>,
    posts: Seq<ComingoutPost>,
    user_id: i64,
    places: Seq<Place>,
    m: NeighborMessage,
    n: int,
) -> bool {
    exists|i: int|
        0 <= i < n && stands_for(users, posts, user_id, places, i) && m == message_of(
            #[trigger] posts[i],
        )
}

/// `a` is forwarded before `b`: by floor, then by author.
pub open spec fn comes_before(a: NeighborMessage, b: NeighborMessage) -> bool {
    a.floor < b.floor || (a.floor == b.floor && a.user_id < b.user_id)
}

/// `r` lists, in forwarding order, exactly the posts that stand for their
/// authors on their floors.
pub open spec fn is_neighbor_list(
    users: Seq<KnownUser>,
    posts: Seq<ComingoutPost>,
    user_id: i64,
    places: Seq<Place>,
    r: Seq<NeighborMessage>,
) -> bool {
    &&& forall|k: int|
        0 <= k < r.len() ==> #[trigger] represents_some(
            users,
            posts,
            user_id,
            places,
            r[k],
            posts.len() as int,
        )
    &&& forall|i: int|
        stands_for(users, posts, user_id, places, i) ==> r.contains(
            #[trigger] message_of(posts[i]),
        )
    &&& forall|k: int, l: int| 0 <= k < l < r.len() ==> comes_before(#[trigger] r[k], #[trigger] r[l])
}

/// Two posts that stand for the same author on the same floor are the same post.
pub proof fn lemma_stands_for_unique(
    users: Seq<KnownUser>,
    posts: Seq<ComingoutPost>,
    user_id: i64,
    places: Seq<Place>,
    i: int,
    j: int,
)
    requires
        stands_for(users, posts, user_id, places, i),
        stands_for(users, posts, user_id, places, j),
        posts[i].user_id == posts[j].user_id,
        posts[i].floor_num == posts[j].floor_num,
    ensures
        i == j,
{
    assert(is_candidate(users, posts[i], user_id, places));
    assert(is_candidate(users, posts[j], user_id, places));
}

/// Some post of `m`'s author on `m`'s floor has `m` as its forwarded copy.
pub open spec fn is_forwarded_copy(posts: Seq<ComingoutPost>, m: NeighborMessage) -> bool {
    exists|i: int|
        0 <= i < posts.len() && (#[trigger] posts[i]).forwarded_chat_id == Some(m.chat_id)
            && posts[i].forwarded_msg_id == Some(m.msg_id) && posts[i].user_id == m.user_id
            && posts[i].floor_num == m.floor
}

/// `floor` is a floor of `places`, or right above or below one.
pub open spec fn is_near_floor(places: Seq<Place>, floor: i64) -> bool {
    exists|q: int| 0 <= q < places.len() && (#[trigger] places[q]).floor - 1 <= floor <= places[q].floor + 1
}

/// Every listed post is another user's, has its forwarded copy known, and
/// lies on a floor of `places` or right above or below one.
pub proof fn lemma_neighbor_list_bounds(
    users: Seq<KnownUser>,
    posts: Seq<ComingoutPost>,
    user_id: i64,
    places: Seq<Place>,
    r: Seq<NeighborMessage>,
)
    requires
        is_neighbor_list(users, posts, user_id, places, r),
    ensures
        forall|k: int|
            0 <= k < r.len() ==> {
                &&& (#[trigger] r[k]).user_id != user_id
                &&& is_forwarded_copy(posts, r[k])
                &&& is_near_floor(places, r[k].floor)
            },
{
    assert forall|k: int| 0 <= k < r.len() implies {
        &&& (#[trigger] r[k]).user_id != user_id
        &&& is_forwarded_copy(posts, r[k])
        &&& is_near_floor(places, r[k].floor)
    } by {
        assert(represents_some(users, posts, user_id, places, r[k], posts.len() as int));
        let i = choose|i: int|
            0 <= i < posts.len() && stands_for(users, posts, user_id, places, i) && r[k]
                == message_of(#[trigger] posts[i]);
        assert(is_near(posts[i], places));
        let q = choose|q: int|
            0 <= q < places.len() && #[trigger] places[q].building == posts[i].building_num
                && places[q].floor - 1 <= posts[i].floor_num <= places[q].floor + 1;
        assert(places[q] == places[q]);
    }
}

fn near_places(p: &ComingoutPost, places: &Vec<Place>) -> (r: bool)
    ensures
        r == is_near(*p, places@),
{
    let mut k: usize = 0;
    while k < places.len()
        invariant
            k <= places@.len(),
            forall|m: int|
                0 <= m < k ==> !(#[trigger] places@[m].building == p.building_num
                    && places@[m].floor - 1 <= p.floor_num <= places@[m].floor + 1),
        decreases places@.len() - k,
    {
        let q = places[k];
        let f = p.floor_num as i128;
        if q.building == p.building_num && q.floor as i128 - 1 <= f && f <= q.floor as i128 + 1 {
            return true;
        }
        k = k + 1;
    }
    false
}

fn candidate(users: &Vec<KnownUser>, p: &ComingoutPost, user_id: i64, places: &Vec<Place>) -> (r:
    bool)
    ensures
        r == is_candidate(users@, *p, user_id, places@),
{
    !p.deprecated && p.forwarded_chat_id.is_some() && p.forwarded_msg_id.is_some() && p.user_id
        != user_id && is_current_member(users, p.user_id) && near_places(p, places)
}

fn representative(
    users: &Vec<KnownUser>,
    posts: &Vec<ComingoutPost>,
    user_id: i64,
    places: &Vec<Place>,
    i: usize,
) -> (r: bool)
    requires
        i < posts@.len(),
        is_candidate(users@, posts@[i as int], user_id, places@),
    ensures
        r == stands_for(users@, posts@, user_id, places@, i as int),
{
    let pi = &posts[i];
    let mut j: usize = 0;
    while j < posts.len()
        invariant
            i < posts@.len(),
            j <= posts@.len(),
            *pi == posts@[i as int],
            forall|m: int|
                0 <= m < j && #[trigger] is_candidate(users@, posts@[m], user_id, places@)
                    && posts@[m].user_id == pi.user_id && posts@[m].floor_num == pi.floor_num
                    ==> posts@[m].msg_id < pi.msg_id || (posts@[m].msg_id == pi.msg_id && i <= m),
        decreases posts@.len() - j,
    {
        let pj = &posts[j];
        if pj.user_id == pi.user_id && pj.floor_num == pi.floor_num && candidate(
            users,
            pj,
            user_id,
            places,
        ) {
            if pj.msg_id > pi.msg_id || (pj.msg_id == pi.msg_id && j < i) {
                return false;
            }
        }
        j = j + 1;
    }
    true
}

/// The neighbours' posts that `user_id`, who lives at `places`, may be shown:
/// one per neighbour and floor, the latest, ordered by floor and then by
/// neighbour.
pub fn neighbors(
    users: &Vec<KnownUser>,
    posts: &Vec<ComingoutPost>,
    user_id: i64,
    places: &Vec<Place>,
) -> (r: Vec<NeighborMessage>)
    ensures
        is_neighbor_list(users@, posts@, user_id, places@, r@),
{
    let mut res: Vec<NeighborMessage> = Vec::new();
    let mut i: usize = 0;
    while i < posts.len()
        invariant
            i <= posts@.len(),
            forall|k: int|
                0 <= k < res@.len() ==> #[trigger] represents_some(
                    users@,
                    posts@,
                    user_id,
                    places@,
                    res@[k],
                    i as int,
                ),
            forall|j: int|
                0 <= j < i && stands_for(users@, posts@, user_id, places@, j) ==> res@.contains(
                    #[trigger] message_of(posts@[j]),
                ),
            forall|k: int, l: int|
                0 <= k < l < res@.len() ==> comes_before(#[trigger] res@[k], #[trigger] res@[l]),
        decreases posts@.len() - i,
    {
        let ghost before = res@;
        let p = &posts[i];
        if candidate(users, p, user_id, places) && representative(users, posts, user_id, places, i) {
            let m = NeighborMessage {
                user_id: p.user_id,
                floor: p.floor_num,
                chat_id: p.forwarded_chat_id.unwrap(),
                msg_id: p.forwarded_msg_id.unwrap(),
            };
            assert(m == message_of(posts@[i as int]));
            let mut pos: usize = 0;
            while pos < res.len() && !(m.floor < res[pos].floor || (m.floor == res[pos].floor
                && m.user_id < res[pos].user_id))
                invariant
                    pos <= res@.len(),
                    forall|k: int| 0 <= k < pos ==> !comes_before(m, #[trigger] res@[k]),
                decreases res@.len() - pos,
            {
                pos = pos + 1;
            }
            proof {
                assert forall|k: int| 0 <= k < pos implies comes_before(#[trigger] res@[k], m) by {
                    assert(represents_some(users@, posts@, user_id, places@, res@[k], i as int));
                    let j = choose|j: int|
                        0 <= j < i && stands_for(users@, posts@, user_id, places@, j) && res@[k]
                            == message_of(#[trigger] posts@[j]);
                    if res@[k].floor == m.floor && res@[k].user_id == m.user_id {
                        lemma_stands_for_unique(users@, posts@, user_id, places@, i as int, j);
                    }
                }
                assert forall|k: int| pos <= k < res@.len() implies comes_before(
                    m,
                    #[trigger] res@[k],
                ) by {
                    assert(comes_before(m, res@[pos as int]));
                    if k > pos {
                        assert(comes_before(res@[pos as int], res@[k]));
                    }
                }
            }
            res.insert(pos, m);
            proof {
                assert forall|k: int, l: int| 0 <= k < l < res@.len() implies comes_before(
                    #[trigger] res@[k],
                    #[trigger] res@[l],
                ) by {
                    if k < pos && l < pos {
                        assert(comes_before(before[k], before[l]));
                    } else if k < pos && l == pos {
                    } else if k < pos {
                        assert(res@[l] == before[l - 1]);
                        assert(comes_before(before[k], m));
                    } else if k == pos {
                        assert(res@[l] == before[l - 1]);
                    } else {
                        assert(res@[l] == before[l - 1]);
                        assert(res@[k] == before[k - 1]);
                        assert(comes_before(before[k - 1], before[l - 1]));
                    }
                }
                assert(res@[pos as int] == m);
                assert forall|k: int| 0 <= k < res@.len() implies #[trigger] represents_some(
                    users@,
                    posts@,
                    user_id,
                    places@,
                    res@[k],
                    i + 1,
                ) by {
                    if k < pos {
                        assert(res@[k] == before[k]);
                        assert(represents_some(users@, posts@, user_id, places@, before[k], i as int));
                    } else if k > pos {
                        assert(res@[k] == before[k - 1]);
                        assert(represents_some(
                            users@,
                            posts@,
                            user_id,
                            places@,
                            before[k - 1],
                            i as int,
                        ));
                    } else {
                        assert(m == message_of(posts@[i as int]));
                    }
                }
                assert forall|j: int|
                    0 <= j < i + 1 && stands_for(users@, posts@, user_id, places@, j) implies res@.contains(
                    #[trigger] message_of(posts@[j]),
                ) by {
                    if j < i {
                        assert(before.contains(message_of(posts@[j])));
                        let k = choose|k: int|
                            0 <= k < before.len() && before[k] == message_of(posts@[j]);
                        if k < pos {
                            assert(res@[k] == before[k]);
                        } else {
                            assert(res@[k + 1] == before[k]);
                        }
                    } else {
                        assert(res@[pos as int] == m);
                    }
                }
            }
        } else {
            proof {
                assert forall|k: int| 0 <= k < res@.len() implies #[trigger] represents_some(
                    users@,
                    posts@,
                    user_id,
                    places@,
                    res@[k],
                    i + 1,
                ) by {
                    assert(represents_some(users@, posts@, user_id, places@, res@[k], i as int));
                }
            }
        }
        i = i + 1;
    }
    res
}

} // verus!
