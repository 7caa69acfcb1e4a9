use vstd::prelude::*;
use crate::backend::Backend;
use crate::model::{Notification, NotificationContent, NotificationFilter, NotificationType, Post, PostFilter};
use crate::moderation::{
    confirmed, entry_index, gained_pending, post_url, rejected, unchanged, ModerationError,
};
use crate::section::Category;
use crate::table::{holds_id, holds_match, ids_unique, inserted_in_order, Row, Selector};

verus! {

/// Removing the one submission with an identifier leaves none with it.
proof fn lemma_entry_removed(s: Seq<Post>, c: Category, id: u128)
    requires
        ids_unique(s),
        holds_match(s, PostFilter::Entry(c, id)),
    ensures
        0 <= entry_index(s, c, id) < s.len(),
        s[entry_index(s, c, id)].id == id,
        s[entry_index(s, c, id)].category == c,
        !holds_id(s.remove(entry_index(s, c, id)), id),
        !holds_match(s.remove(entry_index(s, c, id)), PostFilter::Entry(c, id)),
{
    let k = choose|k: int| 0 <= k < s.len() && PostFilter::Entry(c, id).admits(#[trigger] s[k]);
    assert(s[k].id == id && s[k].category == c);
    let i = entry_index(s, c, id);
    let t = s.remove(i);
    assert forall|j: int| 0 <= j < t.len() implies #[trigger] t[j].key() != id by {
        let j0 = if j < i { j } else { j + 1 };
        assert(t[j] == s[j0]);
        assert(s[j0].key() != s[i].key());
    }
    assert forall|j: int| 0 <= j < t.len() implies !PostFilter::Entry(c, id).admits(#[trigger] t[j]) by {
        assert(t[j].key() != id);
    }
}

/// The submission `p` just stored is the one that a later lookup of its
/// identifier in its section finds.
pub proof fn lemma_stored_entry(b0: Backend, b1: Backend, p: Post)
    requires
        b1.wf(),
        gained_pending(b0, b1, p),
    ensures
        holds_match(b1.pending(), PostFilter::Entry(p.category, p.id)),
        b1.pending()[entry_index(b1.pending(), p.category, p.id)] == p,
{
    b1.lemma_wf();
    let s = b1.pending();
    let i = choose|i: int|
        0 <= i <= b0.pending().len() && s == b0.pending().insert(i, p) && (forall|j: int|
            0 <= j < i ==> #[trigger] b0.pending()[j].stamp() >= p.stamp()) && (forall|j: int|
            i <= j < b0.pending().len() ==> #[trigger] b0.pending()[j].stamp() < p.stamp());
    assert(s[i] == p);
    assert(PostFilter::Entry(p.category, p.id).admits(s[i]));
    let e = entry_index(s, p.category, p.id);
    if e != i {
        assert(s[e].key() != s[i].key());
    }
}

/// A submission that was stored and then confirmed no longer waits
/// anywhere; exactly one post, with its author, section, text and
/// submission time, was published under the new identifier; and exactly
/// one unread approval, addressed to its author, links to that post.
pub proof fn lemma_confirm_publishes(
    b0: Backend,
    b1: Backend,
    b2: Backend,
    p: Post,
    comment: Option<String>,
    pid: u128,
    nid: u128,
    now: i64,
    r: Result<Notification, ModerationError>,
)
    requires
        b1.wf(),
        gained_pending(b0, b1, p),
        confirmed(b1, b2, p.category, p.id, comment, pid, nid, now, r),
        r is Ok,
    ensures
        !holds_id(b2.pending(), p.id),
        exists|i: int|
            0 <= i <= b1.published().len() && b2.published() == b1.published().insert(i, Post { id: pid, ..p }),
        b2.accounts() == b1.accounts(),
        match r {
            Ok(n) => {
                &&& n.id == nid
                &&& n.recipient_id == p.author_id
                &&& !n.read
                &&& n.content.spec_type() == NotificationType::Approval
                &&& (match n.content {
                    NotificationContent::PostApproval { url, comment: c } => url@ == post_url(p.category, pid) && c == comment,
                    NotificationContent::PostRejection { .. } => false,
                })
                &&& exists|j: int| 0 <= j <= b1.mailbox().len() && b2.mailbox() == b1.mailbox().insert(j, n)
            },
            Err(_) => false,
        },
{
    b1.lemma_wf();
    lemma_stored_entry(b0, b1, p);
    lemma_entry_removed(b1.pending(), p.category, p.id);
    assert(p.spec_published(pid) == Post { id: pid, ..p });
}

/// A submission that was stored and then rejected no longer waits
/// anywhere; no post was published; and exactly one unread rejection,
/// addressed to its author, carries its excerpt, its citation and the
/// comment.
pub proof fn lemma_reject_discards(
    b0: Backend,
    b1: Backend,
    b2: Backend,
    p: Post,
    comment: Option<String>,
    nid: u128,
    now: i64,
    r: Result<Notification, ModerationError>,
)
    requires
        b1.wf(),
        gained_pending(b0, b1, p),
        rejected(b1, b2, p.category, p.id, comment, nid, now, r),
        r is Ok,
    ensures
        !holds_id(b2.pending(), p.id),
        b2.published() == b1.published(),
        b2.accounts() == b1.accounts(),
        match r {
            Ok(n) => {
                &&& n.id == nid
                &&& n.recipient_id == p.author_id
                &&& !n.read
                &&& n.content.spec_type() == NotificationType::Rejection
                &&& (match n.content {
                    NotificationContent::PostRejection { comment: c, excerpt, citation } => c == comment
                        && excerpt == p.excerpt && citation == p.citation,
                    NotificationContent::PostApproval { .. } => false,
                })
                &&& exists|j: int| 0 <= j <= b1.mailbox().len() && b2.mailbox() == b1.mailbox().insert(j, n)
            },
            Err(_) => false,
        },
{
    b1.lemma_wf();
    lemma_stored_entry(b0, b1, p);
    lemma_entry_removed(b1.pending(), p.category, p.id);
}

/// Confirming or rejecting a submission that does not wait in that section
/// fails with `NotFound` and changes nothing: no post, no notification.
pub proof fn lemma_missing_submission(
    b0: Backend,
    b1: Backend,
    b2: Backend,
    c: Category,
    id: u128,
    comment: Option<String>,
    pid: u128,
    nid: u128,
    now: i64,
    r1: Result<Notification, ModerationError>,
    r2: Result<Notification, ModerationError>,
)
    requires
        !holds_match(b0.pending(), PostFilter::Entry(c, id)),
        confirmed(b0, b1, c, id, comment, pid, nid, now, r1),
        rejected(b0, b2, c, id, comment, nid, now, r2),
    ensures
        r1 == Err::<Notification, ModerationError>(ModerationError::NotFound),
        unchanged(b0, b1),
        r2 == Err::<Notification, ModerationError>(ModerationError::NotFound),
        unchanged(b0, b2),
{
}

/// The outcome of one moderation decision: a confirmation when `confirm`
/// holds, else a rejection.
pub open spec fn moderated(
    b0: Backend,
    b1: Backend,
    confirm: bool,
    c: Category,
    id: u128,
    comment: Option<String>,
    pid: u128,
    nid: u128,
    now: i64,
    r: Result<Notification, ModerationError>,
) -> bool {
    if confirm {
        confirmed(b0, b1, c, id, comment, pid, nid, now, r)
    } else {
        rejected(b0, b1, c, id, comment, nid, now, r)
    }
}

/// Once a submission has been confirmed or rejected, a second confirmation
/// or rejection of it fails with `NotFound` and changes nothing: no second
/// post and no second notification.
pub proof fn lemma_resolution_is_final(
    b0: Backend,
    b1: Backend,
    b2: Backend,
    c: Category,
    id: u128,
    first: bool,
    second: bool,
    comment1: Option<String>,
    comment2: Option<String>,
    pid1: u128,
    pid2: u128,
    nid1: u128,
    nid2: u128,
    now1: i64,
    now2: i64,
    r1: Result<Notification, ModerationError>,
    r2: Result<Notification, ModerationError>,
)
    requires
        b0.wf(),
        moderated(b0, b1, first, c, id, comment1, pid1, nid1, now1, r1),
        r1 is Ok,
        moderated(b1, b2, second, c, id, comment2, pid2, nid2, now2, r2),
    ensures
        r2 == Err::<Notification, ModerationError>(ModerationError::NotFound),
        unchanged(b1, b2),
{
    b0.lemma_wf();
    lemma_entry_removed(b0.pending(), c, id);
}

/// A user's scoped change or deletion never reaches a notification
/// addressed to someone else.
pub proof fn lemma_foreign_notification_untouched(b: Backend, uid: u128, i: int)
    requires
        b.wf(),
        0 <= i < b.mailbox().len(),
        b.mailbox()[i].recipient_id != uid,
    ensures
        !holds_match(b.mailbox(), NotificationFilter::Owned(uid, b.mailbox()[i].id)),
{
    b.lemma_wf();
    let s = b.mailbox();
    assert forall|j: int| 0 <= j < s.len() implies !NotificationFilter::Owned(uid, s[i].id).admits(#[trigger] s[j]) by {
        if j != i {
            assert(s[j].key() != s[i].key());
        }
    }
}

} // verus!
