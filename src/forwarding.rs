//! Back-filling of forwarded copies of location posts.
use vstd::prelude::*;

use crate::records::ComingoutPost;

verus! {

/// The post was written by `user_id` with text `text` and no forwarded copy of
/// it is known yet.
pub open spec fn is_pending_for(p: ComingoutPost, user_id: i64, text: Seq<char>) -> bool {
    &&& p.forwarded_chat_id is None
    &&& p.forwarded_msg_id is None
    &&& p.user_id == user_id
    &&& p.msg_text@ == text
}

/// Post `i` is the first one pending for `user_id` and `text`.
pub open spec fn is_first_pending(
    posts: Seq<ComingoutPost>,
    user_id: i64,
    text: Seq<char>,
    i: int,
) -> bool {
    &&& 0 <= i < posts.len()
    &&& is_pending_for(posts[i], user_id, text)
    &&& forall|j: int| 0 <= j < i ==> !is_pending_for(#[trigger] posts[j], user_id, text)
}

/// Some post is pending for `user_id` and `text`.
pub open spec fn has_pending(posts: Seq<ComingoutPost>, user_id: i64, text: Seq<char>) -> bool {
    exists|i: int| 0 <= i < posts.len() && is_pending_for(#[trigger] posts[i], user_id, text)
}

/// The post with its forwarded copy recorded.
pub open spec fn with_forward(p: ComingoutPost, chat_id: i64, msg_id: i64) -> ComingoutPost {
    ComingoutPost { forwarded_chat_id: Some(chat_id), forwarded_msg_id: Some(msg_id), ..p }
}

/// The table after `user_id` forwarded its post with text `text` as message
/// `msg_id` of chat `chat_id`: the first pending post gets the reference, and
/// nothing changes when none is pending.
pub open spec fn after_forward(
    posts: Seq<ComingoutPost>,
    user_id: i64,
    chat_id: i64,
    msg_id: i64,
    text: Seq<char>,
) -> Seq<ComingoutPost> {
    if exists|i: int| is_first_pending(posts, user_id, text, i) {
        let i = choose|i: int| is_first_pending(posts, user_id, text, i);
        posts.update(i, with_forward(posts[i], chat_id, msg_id))
    } else {
        posts
    }
}

/// At most one post is pending for `user_id` and `text`.
pub open spec fn at_most_one_pending(posts: Seq<ComingoutPost>, user_id: i64, text: Seq<char>) -> bool {
    forall|i: int, j: int|
        0 <= i < posts.len() && 0 <= j < posts.len() && is_pending_for(#[trigger] posts[i], user_id, text)
            && is_pending_for(#[trigger] posts[j], user_id, text) ==> i == j
}

/// The first pending post is unique.
pub proof fn lemma_first_pending_unique(
    posts: Seq<ComingoutPost>,
    user_id: i64,
    text: Seq<char>,
    i: int,
    j: int,
)
    requires
        is_first_pending(posts, user_id, text, i),
        is_first_pending(posts, user_id, text, j),
    ensures
        i == j,
{
    if i < j {
        assert(!is_pending_for(posts[i], user_id, text));
    } else if j < i {
        assert(!is_pending_for(posts[j], user_id, text));
    }
}

/// Forwarding a text for which no post is pending leaves the table as it is.
pub proof fn lemma_forward_without_pending(
    posts: Seq<ComingoutPost>,
    user_id: i64,
    chat_id: i64,
    msg_id: i64,
    text: Seq<char>,
)
    requires
        !has_pending(posts, user_id, text),
    ensures
        after_forward(posts, user_id, chat_id, msg_id, text) == posts,
{
    if exists|i: int| is_first_pending(posts, user_id, text, i) {
        let i = choose|i: int| is_first_pending(posts, user_id, text, i);
        assert(is_pending_for(posts[i], user_id, text));
    }
}

/// Recording the same forward twice changes at most one post in all: the
/// second time nothing is pending any more. This holds of tables in which at
/// most one post is pending for the user and text.
pub proof fn lemma_record_forward_idempotent(
    posts: Seq<ComingoutPost>,
    user_id: i64,
    chat_id: i64,
    msg_id: i64,
    text: Seq<char>,
)
    requires
        at_most_one_pending(posts, user_id, text),
    ensures
        ({
            let once = after_forward(posts, user_id, chat_id, msg_id, text);
            let twice = after_forward(once, user_id, chat_id, msg_id, text);
            &&& twice == once
            &&& twice.len() == posts.len()
            &&& forall|i: int, j: int|
                0 <= i < posts.len() && 0 <= j < posts.len() && #[trigger] twice[i] != posts[i]
                    && #[trigger] twice[j] != posts[j] ==> i == j
        }),
{
    let once = after_forward(posts, user_id, chat_id, msg_id, text);
    if exists|i: int| is_first_pending(posts, user_id, text, i) {
        let i = choose|i: int| is_first_pending(posts, user_id, text, i);
        assert forall|j: int| 0 <= j < once.len() implies !is_pending_for(
            #[trigger] once[j],
            user_id,
            text,
        ) by {
            if j != i {
                assert(once[j] == posts[j]);
            }
        }
        lemma_forward_without_pending(once, user_id, chat_id, msg_id, text);
    } else {
        assert(!has_pending(posts, user_id, text)) by {
            if has_pending(posts, user_id, text) {
                let k = choose|k: int| 0 <= k < posts.len() && is_pending_for(#[trigger] posts[k], user_id, text);
                assert(is_first_pending(posts, user_id, text, k)) by {
                    assert forall|j: int| 0 <= j < k implies !is_pending_for(#[trigger] posts[j], user_id, text) by {
                        if is_pending_for(posts[j], user_id, text) {
                            assert(posts[j] == posts[j]);
                        }
                    }
                }
            }
        }
        lemma_forward_without_pending(posts, user_id, chat_id, msg_id, text);
    }
}

/// Finds the post that a forward of `text` by `user_id` completes: the first
/// one still pending for them.
pub fn pending_forward_target(posts: &Vec<ComingoutPost>, user_id: i64, text: &str) -> (r: Option<
    usize,
>)
    ensures
        match r {
            Some(i) => is_first_pending(posts@, user_id, text@, i as int),
            None => !has_pending(posts@, user_id, text@),
        },
{
    let wanted = text.to_owned();
    let mut i: usize = 0;
    while i < posts.len()
        invariant
            i <= posts@.len(),
            wanted@ == text@,
            forall|j: int| 0 <= j < i ==> !is_pending_for(#[trigger] posts@[j], user_id, text@),
        decreases posts@.len() - i,
    {
        let p = &posts[i];
        if p.forwarded_chat_id.is_none() && p.forwarded_msg_id.is_none() && p.user_id == user_id
            && p.msg_text == wanted {
            return Some(i);
        }
        i = i + 1;
    }
    None
}

/// Records that `user_id` forwarded its post with text `text` to the bot,
/// which now holds it as message `msg_id` of chat `chat_id`. Only a post
/// whose forwarded copy is not yet known is updated, the first such one, so
/// repeating the call changes nothing more. Tells whether a post was updated.
pub fn record_forward(
    posts: &mut Vec<ComingoutPost>,
    user_id: i64,
    chat_id: i64,
    msg_id: i64,
    text: &str,
) -> (updated: bool)
    ensures
        updated == has_pending(old(posts)@, user_id, text@),
        final(posts)@ == after_forward(old(posts)@, user_id, chat_id, msg_id, text@),
{
    match pending_forward_target(posts, user_id, text) {
        Some(i) => {
            proof {
                let k = choose|k: int| is_first_pending(old(posts)@, user_id, text@, k);
                lemma_first_pending_unique(old(posts)@, user_id, text@, i as int, k);
            }
            posts[i].forwarded_chat_id = Some(chat_id);
            posts[i].forwarded_msg_id = Some(msg_id);
            proof {
                assert(posts@ =~= old(posts)@.update(
                    i as int,
                    with_forward(old(posts)@[i as int], chat_id, msg_id),
                ));
            }
            true
        },
        None => false,
    }
}

} // verus!
