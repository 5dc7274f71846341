//! Trust tiers of chat members.
use vstd::prelude::*;

use crate::records::KnownUser;

verus! {

/// How far a user is trusted with neighbourhood information.
#[derive(Clone, Copy, Debug, PartialEq, Eq, Structural)]
pub enum UserStatus {
    /// No current membership record.
    Stranger,
    /// A member who joined within the new-user timeout.
    KnownButUntrusted,
    /// A member for longer than the new-user timeout.
    KnownAndTrusted,
}

/// Default time, in seconds, that a new member waits before being trusted.
pub const NEW_USER_TIMEOUT_SECS: i64 = 7200;

/// The row records a current (not removed) membership of `user_id`.
pub open spec fn is_membership_of(u: KnownUser, user_id: i64) -> bool {
    u.id == user_id && u.removed_on is None
}

/// Some row records a current membership of `user_id`.
pub open spec fn is_member(users: Seq<KnownUser>, user_id: i64) -> bool {
    exists|i: int| 0 <= i < users.len() && #[trigger] is_membership_of(users[i], user_id)
}

/// Tells whether some row records a current membership of `user_id`.
pub fn is_current_member(users: &Vec<KnownUser>, user_id: i64) -> (r: bool)
    ensures
        r == is_member(users@, user_id),
{
    let mut i: usize = 0;
    while i < users.len()
        invariant
            i <= users@.len(),
            forall|j: int| 0 <= j < i ==> !#[trigger] is_membership_of(users@[j], user_id),
        decreases users@.len() - i,
    {
        if users[i].id == user_id && users[i].removed_on.is_none() {
            assert(is_membership_of(users@[i as int], user_id));
            return true;
        }
        i = i + 1;
    }
    false
}

/// The membership began no earlier than `timeout` seconds before `now`.
pub open spec fn joined_recently(u: KnownUser, now: i64, timeout: i64) -> bool {
    u.joined_on >= now - timeout
}

/// Some current membership of `user_id` began within the timeout; since the
/// latest membership is the one that counts, this is the case exactly when
/// the latest one did.
pub open spec fn has_recent_membership(
    users: Seq<KnownUser>,
    user_id: i64,
    now: i64,
    timeout: i64,
) -> bool {
    exists|i: int|
        0 <= i < users.len() && #[trigger] is_membership_of(users[i], user_id)
            && joined_recently(users[i], now, timeout)
}

/// The trust tier of `user_id`, judged by its latest current membership.
pub open spec fn status_of(
    users: Seq<KnownUser>,
    user_id: i64,
    now: i64,
    timeout: i64,
) -> UserStatus {
    if !is_member(users, user_id) {
        UserStatus::Stranger
    } else if has_recent_membership(users, user_id, now, timeout) {
        UserStatus::KnownButUntrusted
    } else {
        UserStatus::KnownAndTrusted
    }
}

/// Computes the trust tier of `user_id` at time `now`, where members become
/// trusted once they joined strictly earlier than `now - timeout`.
pub fn classify(users: &Vec<KnownUser>, user_id: i64, now: i64, timeout: i64) -> (r: UserStatus)
    ensures
        r == status_of(users@, user_id, now, timeout),
{
    let cutoff: i128 = now as i128 - timeout as i128;
    let mut member = false;
    let mut recent = false;
    let mut i: usize = 0;
    while i < users.len()
        invariant
            i <= users@.len(),
            cutoff == now - timeout,
            member == exists|j: int| 0 <= j < i && #[trigger] is_membership_of(users@[j], user_id),
            recent == exists|j: int|
                0 <= j < i && #[trigger] is_membership_of(users@[j], user_id)
                    && joined_recently(users@[j], now, timeout),
        decreases users@.len() - i,
    {
        let u = users[i];
        if u.id == user_id && u.removed_on.is_none() {
            assert(is_membership_of(users@[i as int], user_id));
            member = true;
            if u.joined_on as i128 >= cutoff {
                recent = true;
            }
        }
        i = i + 1;
    }
    if !member {
        UserStatus::Stranger
    } else if recent {
        UserStatus::KnownButUntrusted
    } else {
        UserStatus::KnownAndTrusted
    }
}

/// A user without a current membership row is a stranger, whatever the time
/// and the timeout; rows of memberships that ended do not count.
pub proof fn lemma_no_membership_is_stranger(
    users: Seq<KnownUser>,
    user_id: i64,
    now: i64,
    timeout: i64,
)
    requires
        forall|i: int| 0 <= i < users.len() ==> !#[trigger] is_membership_of(users[i], user_id),
    ensures
        status_of(users, user_id, now, timeout) == UserStatus::Stranger,
{
}

/// A member whose latest current membership began after `now - timeout` is
/// not trusted yet, and one whose latest membership began before it is
/// trusted. At exactly `now - timeout` the member is not trusted yet, since
/// trust needs a strictly earlier join; that instant is left out here.
pub proof fn lemma_trust_follows_latest_join(
    users: Seq<KnownUser>,
    user_id: i64,
    now: i64,
    timeout: i64,
    latest: int,
)
    requires
        0 <= latest < users.len(),
        is_membership_of(users[latest], user_id),
        forall|j: int|
            0 <= j < users.len() && #[trigger] is_membership_of(users[j], user_id)
                ==> users[j].joined_on <= users[latest].joined_on,
        users[latest].joined_on != now - timeout,
    ensures
        users[latest].joined_on > now - timeout ==> status_of(users, user_id, now, timeout)
            == UserStatus::KnownButUntrusted,
        users[latest].joined_on < now - timeout ==> status_of(users, user_id, now, timeout)
            == UserStatus::KnownAndTrusted,
{
}

/// Some membership row of `user_id`, current or not, marks a landlord.
pub open spec fn is_landlord_spec(users: Seq<KnownUser>, user_id: i64) -> bool {
    exists|i: int| 0 <= i < users.len() && #[trigger] users[i].id == user_id && users[i].is_landlord
}

/// Tells whether `user_id` is recorded as a landlord.
pub fn is_landlord(users: &Vec<KnownUser>, user_id: i64) -> (r: bool)
    ensures
        r == is_landlord_spec(users@, user_id),
{
    let mut i: usize = 0;
    while i < users.len()
        invariant
            i <= users@.len(),
            forall|j: int| 0 <= j < i ==> !(#[trigger] users@[j].id == user_id && users@[j].is_landlord),
        decreases users@.len() - i,
    {
        if users[i].id == user_id && users[i].is_landlord {
            return true;
        }
        i = i + 1;
    }
    false
}

} // verus!
