use excerpts::auth::{Claims, PatchNotificationBody};
use excerpts::backend::{Backend, StoreError};
use excerpts::model::{CorruptNotification, Notification, NotificationContent, NotificationType, WhichNotifications};
use excerpts::pagination::PaginationFields;

const ALICE: u128 = 0xa;
const BOB: u128 = 0xb;

fn approval(url: &str) -> NotificationContent {
    NotificationContent::PostApproval { url: url.to_string(), comment: None }
}

fn mailbox(b: &Backend, user: u128, which: WhichNotifications) -> Vec<u128> {
    b.get_user_notifications(user, which, PaginationFields::new()).iter().map(|n| n.id).collect()
}

fn setup() -> Backend {
    let mut b = Backend::new();
    b.create_notification(1, ALICE, approval("/posts/islamism?id=a"), 10).unwrap();
    b.create_notification(2, ALICE, approval("/posts/islamism?id=b"), 30).unwrap();
    b.create_notification(3, BOB, approval("/posts/islamism?id=c"), 20).unwrap();
    b
}

#[test]
fn mailboxes_are_per_user_and_newest_first() {
    let b = setup();
    assert_eq!(mailbox(&b, ALICE, WhichNotifications::All), vec![2, 1]);
    assert_eq!(mailbox(&b, BOB, WhichNotifications::Unread), vec![3]);
    assert!(mailbox(&b, BOB, WhichNotifications::Read).is_empty());
}

#[test]
fn duplicate_notification_identifier_is_refused() {
    let mut b = setup();
    assert_eq!(b.create_notification(3, ALICE, approval("x"), 0).err(), Some(StoreError::Conflict));
}

#[test]
fn owner_marks_read_and_unread() {
    let mut b = setup();
    assert_eq!(b.update_user_notification(ALICE, 1, true), 1);
    assert_eq!(mailbox(&b, ALICE, WhichNotifications::Read), vec![1]);
    assert_eq!(mailbox(&b, ALICE, WhichNotifications::Unread), vec![2]);
    assert_eq!(b.update_user_notification(ALICE, 1, false), 1);
    assert_eq!(mailbox(&b, ALICE, WhichNotifications::Unread), vec![2, 1]);
}

#[test]
fn others_cannot_touch_a_notification() {
    let mut b = setup();
    assert_eq!(b.update_user_notification(BOB, 1, true), 0);
    assert_eq!(b.delete_user_notification(BOB, 1), 0);
    assert_eq!(mailbox(&b, ALICE, WhichNotifications::Unread), vec![2, 1]);
}

#[test]
fn owner_and_admin_delete() {
    let mut b = setup();
    assert_eq!(b.delete_user_notification(ALICE, 1), 1);
    assert_eq!(b.delete_user_notification(ALICE, 1), 0);
    assert_eq!(b.delete_notification(3), 1);
    assert_eq!(b.delete_notification(3), 0);
    assert_eq!(mailbox(&b, ALICE, WhichNotifications::All), vec![2]);
    assert!(mailbox(&b, BOB, WhichNotifications::All).is_empty());
}

#[test]
fn deletion_on_behalf_of_a_user() {
    let mut b = setup();
    let bob = Claims { sub: BOB, exp: 0, admin: false };
    let admin = Claims { sub: 0xad, exp: 0, admin: true };
    assert_eq!(b.delete_notification_as(&bob, 1), 0);
    assert_eq!(b.delete_notification_as(&bob, 3), 1);
    assert_eq!(b.delete_notification_as(&admin, 1), 1);
    assert_eq!(mailbox(&b, ALICE, WhichNotifications::All), vec![2]);
}

#[test]
fn listing_defaults_to_unread() {
    let mut b = setup();
    b.update_user_notification(ALICE, 2, true);
    let alice = Claims { sub: ALICE, exp: 0, admin: false };
    let ids: Vec<u128> = b.notifications_for(&alice, None, PaginationFields::new()).iter().map(|n| n.id).collect();
    assert_eq!(ids, vec![1]);
    let ids: Vec<u128> =
        b.notifications_for(&alice, Some(WhichNotifications::All), PaginationFields::new()).iter().map(|n| n.id).collect();
    assert_eq!(ids, vec![2, 1]);
}

#[test]
fn patches_apply_in_order_to_own_notifications() {
    let mut b = setup();
    let alice = Claims { sub: ALICE, exp: 0, admin: false };
    let patches = vec![
        PatchNotificationBody { notification_id: 1, read: true },
        PatchNotificationBody { notification_id: 3, read: true },
        PatchNotificationBody { notification_id: 2, read: true },
        PatchNotificationBody { notification_id: 1, read: false },
    ];
    b.patch_notifications(&alice, &patches);
    assert_eq!(mailbox(&b, ALICE, WhichNotifications::Read), vec![2]);
    assert_eq!(mailbox(&b, ALICE, WhichNotifications::Unread), vec![1]);
    assert_eq!(mailbox(&b, BOB, WhichNotifications::Unread), vec![3]);
}

#[test]
fn stored_tag_must_match_content() {
    let ok = Notification::from_stored(5, 1, ALICE, false, NotificationType::Approval, approval("/posts/x"));
    assert_eq!(ok.map(|n| n.n_type()).ok(), Some(NotificationType::Approval));
    let bad = Notification::from_stored(6, 1, ALICE, false, NotificationType::Rejection, approval("/posts/x"));
    assert_eq!(bad.err(), Some(CorruptNotification { id: 6 }));
    let rejection = NotificationContent::PostRejection {
        comment: None,
        excerpt: "e".to_string(),
        citation: "c".to_string(),
    };
    assert_eq!(rejection.enum_type(), NotificationType::Rejection);
}
