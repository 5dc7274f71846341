use tg_park_bot::classify::{classify, is_current_member, is_landlord, UserStatus, NEW_USER_TIMEOUT_SECS};
use tg_park_bot::forwarding::{pending_forward_target, record_forward};
use tg_park_bot::locations::locations;
use tg_park_bot::neighbors::neighbors;
use tg_park_bot::records::{ComingoutPost, KnownUser, NeighborMessage, Place};

const NOW: i64 = 1_600_000_000;

fn member(id: i64, joined_on: i64) -> KnownUser {
    KnownUser { id, joined_on, removed_on: None, is_landlord: false }
}

fn post(user_id: i64, msg_id: i64, building: i64, floor: i64, text: &str) -> ComingoutPost {
    ComingoutPost {
        user_id,
        msg_id,
        building_num: building,
        floor_num: floor,
        msg_text: text.to_string(),
        deprecated: false,
        forwarded_chat_id: None,
        forwarded_msg_id: None,
    }
}

fn forwarded(user_id: i64, msg_id: i64, building: i64, floor: i64, chat: i64, copy: i64) -> ComingoutPost {
    let mut p = post(user_id, msg_id, building, floor, "#1корпус");
    p.forwarded_chat_id = Some(chat);
    p.forwarded_msg_id = Some(copy);
    p
}

#[test]
fn stranger_without_rows() {
    let users = vec![member(2, 0)];
    assert_eq!(classify(&users, 1, NOW, NEW_USER_TIMEOUT_SECS), UserStatus::Stranger);
    assert_eq!(classify(&Vec::new(), 1, NOW, NEW_USER_TIMEOUT_SECS), UserStatus::Stranger);
}

#[test]
fn stranger_after_leaving() {
    let mut u = member(1, 0);
    u.removed_on = Some(100);
    assert_eq!(classify(&vec![u], 1, NOW, NEW_USER_TIMEOUT_SECS), UserStatus::Stranger);
    assert!(!is_current_member(&vec![u], 1));
}

#[test]
fn recent_member_is_untrusted() {
    let users = vec![member(1, NOW - 60)];
    assert_eq!(classify(&users, 1, NOW, NEW_USER_TIMEOUT_SECS), UserStatus::KnownButUntrusted);
}

#[test]
fn old_member_is_trusted() {
    let users = vec![member(1, NOW - 3 * 3600)];
    assert_eq!(classify(&users, 1, NOW, NEW_USER_TIMEOUT_SECS), UserStatus::KnownAndTrusted);
    assert_eq!(classify(&users, 1, NOW, 2 * 24 * 3600), UserStatus::KnownButUntrusted);
}

#[test]
fn join_at_cutoff_is_not_yet_trusted() {
    let users = vec![member(1, NOW - 7200)];
    assert_eq!(classify(&users, 1, NOW, 7200), UserStatus::KnownButUntrusted);
    let users = vec![member(1, NOW - 7201)];
    assert_eq!(classify(&users, 1, NOW, 7200), UserStatus::KnownAndTrusted);
}

#[test]
fn latest_membership_decides() {
    let mut left = member(1, NOW - 10);
    left.removed_on = Some(NOW - 5);
    let users = vec![member(1, NOW - 100_000), left];
    assert_eq!(classify(&users, 1, NOW, 7200), UserStatus::KnownAndTrusted);
    let users = vec![member(1, NOW - 10), member(1, NOW - 100_000)];
    assert_eq!(classify(&users, 1, NOW, 7200), UserStatus::KnownButUntrusted);
}

#[test]
fn extreme_times_do_not_overflow() {
    let users = vec![member(1, i64::MIN)];
    assert_eq!(classify(&users, 1, i64::MIN, i64::MAX), UserStatus::KnownButUntrusted);
    assert_eq!(classify(&users, 1, i64::MAX, 0), UserStatus::KnownAndTrusted);
}

#[test]
fn landlord_flag_on_any_row() {
    let mut u = member(1, 0);
    u.is_landlord = true;
    u.removed_on = Some(5);
    let users = vec![member(1, 0), u, member(2, 0)];
    assert!(is_landlord(&users, 1));
    assert!(!is_landlord(&users, 2));
    assert!(!is_landlord(&users, 3));
}

#[test]
fn locations_distinct_current_in_order() {
    let mut old = post(1, 1, 2, 5, "a");
    old.deprecated = true;
    let posts = vec![
        old,
        post(1, 2, 3, 11, "b"),
        post(2, 3, 3, 12, "c"),
        post(1, 4, 3, 11, "d"),
        post(1, 5, 1, 4, "e"),
    ];
    let r = locations(&posts, 1);
    assert_eq!(r, vec![Place { building: 3, floor: 11 }, Place { building: 1, floor: 4 }]);
    assert!(locations(&posts, 9).is_empty());
}

#[test]
fn neighbors_nearby_floors_sorted() {
    let users = vec![member(1, 0), member(2, 0), member(3, 0), member(4, 0), member(5, 0)];
    let posts = vec![
        post(1, 10, 3, 11, "me"),
        forwarded(2, 11, 3, 12, 700, 1),
        forwarded(3, 12, 3, 10, 700, 2),
        forwarded(4, 13, 3, 11, 700, 3),
        forwarded(5, 14, 3, 13, 700, 4),
        forwarded(5, 15, 4, 11, 700, 5),
        forwarded(1, 16, 3, 11, 700, 6),
    ];
    let places = locations(&posts, 1);
    let r = neighbors(&users, &posts, 1, &places);
    assert_eq!(
        r,
        vec![
            NeighborMessage { user_id: 3, floor: 10, chat_id: 700, msg_id: 2 },
            NeighborMessage { user_id: 4, floor: 11, chat_id: 700, msg_id: 3 },
            NeighborMessage { user_id: 2, floor: 12, chat_id: 700, msg_id: 1 },
        ]
    );
}

#[test]
fn neighbors_need_forward_and_membership() {
    let mut gone = member(3, 0);
    gone.removed_on = Some(1);
    let users = vec![member(1, 0), member(2, 0), gone];
    let mut half = forwarded(2, 11, 3, 11, 700, 1);
    half.forwarded_msg_id = None;
    let mut stale = forwarded(2, 12, 3, 11, 700, 2);
    stale.deprecated = true;
    let posts = vec![
        post(1, 10, 3, 11, "me"),
        half,
        stale,
        post(2, 13, 3, 11, "not forwarded"),
        forwarded(3, 14, 3, 11, 700, 4),
        forwarded(6, 15, 3, 11, 700, 5),
    ];
    let places = locations(&posts, 1);
    assert!(neighbors(&users, &posts, 1, &places).is_empty());
}

#[test]
fn neighbors_latest_post_per_user_and_floor() {
    let users = vec![member(1, 0), member(2, 0), member(3, 0)];
    let posts = vec![
        post(1, 1, 3, 11, "me"),
        forwarded(2, 20, 3, 11, 700, 1),
        forwarded(2, 30, 3, 11, 700, 2),
        forwarded(2, 25, 3, 11, 700, 3),
        forwarded(2, 5, 3, 12, 700, 4),
        forwarded(3, 7, 3, 11, 700, 5),
    ];
    let places = vec![Place { building: 3, floor: 11 }];
    let r = neighbors(&users, &posts, 1, &places);
    assert_eq!(
        r,
        vec![
            NeighborMessage { user_id: 2, floor: 11, chat_id: 700, msg_id: 2 },
            NeighborMessage { user_id: 3, floor: 11, chat_id: 700, msg_id: 5 },
            NeighborMessage { user_id: 2, floor: 12, chat_id: 700, msg_id: 4 },
        ]
    );
}

#[test]
fn neighbors_of_landlord_cover_all_floors() {
    let users = vec![member(1, 0), member(2, 0), member(3, 0)];
    let posts = vec![
        post(1, 1, 3, 2, "me"),
        post(1, 2, 3, 20, "me too"),
        forwarded(2, 3, 3, 21, 700, 1),
        forwarded(3, 4, 3, 1, 700, 2),
        forwarded(3, 5, 3, 10, 700, 3),
    ];
    let places = locations(&posts, 1);
    let r = neighbors(&users, &posts, 1, &places);
    assert_eq!(
        r,
        vec![
            NeighborMessage { user_id: 3, floor: 1, chat_id: 700, msg_id: 2 },
            NeighborMessage { user_id: 2, floor: 21, chat_id: 700, msg_id: 1 },
        ]
    );
}

#[test]
fn forward_updates_first_pending_post() {
    let mut done = post(1, 1, 3, 11, "#3корпус #11этаж");
    done.forwarded_chat_id = Some(1);
    done.forwarded_msg_id = Some(1);
    let mut posts = vec![done, post(2, 2, 3, 11, "#3корпус #11этаж"), post(1, 3, 3, 11, "#3корпус #11этаж")];
    assert_eq!(pending_forward_target(&posts, 1, "#3корпус #11этаж"), Some(2));
    assert!(record_forward(&mut posts, 1, 500, 42, "#3корпус #11этаж"));
    assert_eq!(posts[2].forwarded_chat_id, Some(500));
    assert_eq!(posts[2].forwarded_msg_id, Some(42));
    assert_eq!(posts[0].forwarded_msg_id, Some(1));
    assert_eq!(posts[1].forwarded_chat_id, None);
}

#[test]
fn forward_twice_updates_once() {
    let mut posts = vec![post(1, 1, 3, 11, "hi"), post(2, 2, 3, 11, "hi")];
    assert!(record_forward(&mut posts, 1, 500, 42, "hi"));
    assert!(!record_forward(&mut posts, 1, 500, 42, "hi"));
    assert_eq!(posts[0].forwarded_chat_id, Some(500));
    assert_eq!(posts[0].forwarded_msg_id, Some(42));
    assert_eq!(posts[1].forwarded_chat_id, None);
    assert_eq!(posts[1].forwarded_msg_id, None);
}

#[test]
fn forward_without_match_changes_nothing() {
    let mut posts = vec![post(1, 1, 3, 11, "hi"), post(2, 2, 3, 11, "other")];
    assert_eq!(pending_forward_target(&posts, 1, "other"), None);
    assert!(!record_forward(&mut posts, 1, 500, 42, "other"));
    assert!(!record_forward(&mut posts, 1, 500, 42, "h"));
    assert!(!record_forward(&mut posts, 3, 500, 42, "hi"));
    assert!(posts.iter().all(|p| p.forwarded_chat_id.is_none() && p.forwarded_msg_id.is_none()));
}
