use vstd::prelude::*;
use crate::backend::Backend;
use crate::ids::{fresh_id, now_seconds, uuid_string, uuid_text};
use crate::model::{NewPost, Notification, NotificationContent, NotificationType, Post, PostFilter};
use crate::section::{category_slug, Category};
use crate::table::{holds_id, holds_match, ids_unique, inserted_in_order, Row, Selector};
use crate::text::{lengths_ok, sanitize, sanitized, PostSubmissionForm};

verus! {

/// Why a confirmation or a rejection did not happen.
#[derive(Clone, Copy, Debug, PartialEq, Eq, Structural)]
pub enum ModerationError {
    /// No submission with that identifier waits in that section.
    NotFound,
    /// A freshly drawn identifier is already in use; nothing was changed.
    Conflict,
}

/// Why a submission was not stored.
#[derive(Clone, Copy, Debug, PartialEq, Eq, Structural)]
pub enum SubmissionError {
    /// The excerpt or the citation is too short or too long once sanitized.
    Invalid,
    /// Both identifiers drawn for it were already in use.
    Conflict,
}

/// The link to a published post.
pub open spec fn post_url(c: Category, id: u128) -> Seq<char> {
    "/posts/"@ + category_slug(c) + "?id="@ + uuid_text(id)
}

/// The position of the submission with this identifier in this section.
pub open spec fn entry_index(s: Seq<Post>, c: Category, id: u128) -> int {
    choose|i: int| 0 <= i < s.len() && s[i].id == id && s[i].category == c
}

/// No table changed.
pub open spec fn unchanged(b0: Backend, b1: Backend) -> bool {
    &&& b1.pending() == b0.pending()
    &&& b1.published() == b0.published()
    &&& b1.mailbox() == b0.mailbox()
    &&& b1.accounts() == b0.accounts()
}

/// An unread approval of submission `s`, addressed to its author and
/// linking to the post published as `pid`.
pub open spec fn is_approval(n: Notification, s: Post, pid: u128, nid: u128, comment: Option<String>, now: i64) -> bool {
    &&& n.id == nid
    &&& n.recipient_id == s.author_id
    &&& n.created_at == now
    &&& !n.read
    &&& match n.content {
        NotificationContent::PostApproval { url, comment: c } => url@ == post_url(s.category, pid) && c == comment,
        NotificationContent::PostRejection { .. } => false,
    }
}

/// An unread rejection of submission `s`, addressed to its author and
/// carrying its excerpt and citation.
pub open spec fn is_rejection(n: Notification, s: Post, nid: u128, comment: Option<String>, now: i64) -> bool {
    &&& n.id == nid
    &&& n.recipient_id == s.author_id
    &&& n.created_at == now
    &&& !n.read
    &&& match n.content {
        NotificationContent::PostRejection { comment: c, excerpt, citation } => c == comment && excerpt
            == s.excerpt && citation == s.citation,
        NotificationContent::PostApproval { .. } => false,
    }
}

/// The confirmation of submission `id` in section `c`, publishing it as
/// `pid` and notifying its author under `nid` at time `now`.
pub open spec fn confirmed(
    b0: Backend,
    b1: Backend,
    c: Category,
    id: u128,
    comment: Option<String>,
    pid: u128,
    nid: u128,
    now: i64,
    r: Result<Notification, ModerationError>,
) -> bool {
    if !holds_match(b0.pending(), PostFilter::Entry(c, id)) {
        r == Err::<Notification, ModerationError>(ModerationError::NotFound) && unchanged(b0, b1)
    } else if holds_id(b0.published(), pid) || holds_id(b0.mailbox(), nid) {
        r == Err::<Notification, ModerationError>(ModerationError::Conflict) && unchanged(b0, b1)
    } else {
        let i = entry_index(b0.pending(), c, id);
        let s = b0.pending()[i];
        match r {
            Ok(n) => {
                &&& is_approval(n, s, pid, nid, comment, now)
                &&& b1.pending() == b0.pending().remove(i)
                &&& inserted_in_order(b0.published(), b1.published(), s.spec_published(pid))
                &&& inserted_in_order(b0.mailbox(), b1.mailbox(), n)
                &&& b1.accounts() == b0.accounts()
            },
            Err(_) => false,
        }
    }
}

/// The rejection of submission `id` in section `c`, notifying its author
/// under `nid` at time `now`.
pub open spec fn rejected(
    b0: Backend,
    b1: Backend,
    c: Category,
    id: u128,
    comment: Option<String>,
    nid: u128,
    now: i64,
    r: Result<Notification, ModerationError>,
) -> bool {
    if !holds_match(b0.pending(), PostFilter::Entry(c, id)) {
        r == Err::<Notification, ModerationError>(ModerationError::NotFound) && unchanged(b0, b1)
    } else if holds_id(b0.mailbox(), nid) {
        r == Err::<Notification, ModerationError>(ModerationError::Conflict) && unchanged(b0, b1)
    } else {
        let i = entry_index(b0.pending(), c, id);
        let s = b0.pending()[i];
        match r {
            Ok(n) => {
                &&& is_rejection(n, s, nid, comment, now)
                &&& b1.pending() == b0.pending().remove(i)
                &&& b1.published() == b0.published()
                &&& inserted_in_order(b0.mailbox(), b1.mailbox(), n)
                &&& b1.accounts() == b0.accounts()
            },
            Err(_) => false,
        }
    }
}

/// The pending table gained the submission `p` and nothing else changed.
pub open spec fn gained_pending(b0: Backend, b1: Backend, p: Post) -> bool {
    &&& inserted_in_order(b0.pending(), b1.pending(), p)
    &&& b1.published() == b0.published()
    &&& b1.mailbox() == b0.mailbox()
    &&& b1.accounts() == b0.accounts()
}

/// A submission stored under `id` with the given sanitized text.
pub open spec fn stored_as(
    b0: Backend,
    b1: Backend,
    id: u128,
    c: Category,
    author: u128,
    excerpt: Seq<char>,
    citation: Seq<char>,
    now: i64,
) -> bool {
    exists|p: Post|
        gained_pending(b0, b1, p) && p.id == id && p.author_id == author && p.category == c
            && p.excerpt@ == excerpt && p.citation@ == citation && p.submitted_at == now
}

/// A submission of sanitized text: validated, then stored under `first`,
/// or under `second` when `first` is taken.
pub open spec fn submitted(
    b0: Backend,
    b1: Backend,
    c: Category,
    author: u128,
    excerpt: Seq<char>,
    citation: Seq<char>,
    first: u128,
    second: u128,
    now: i64,
    r: Result<u128, SubmissionError>,
) -> bool {
    if !lengths_ok(excerpt, citation) {
        r == Err::<u128, SubmissionError>(SubmissionError::Invalid) && unchanged(b0, b1)
    } else if !holds_id(b0.pending(), first) {
        r == Ok::<u128, SubmissionError>(first) && stored_as(b0, b1, first, c, author, excerpt, citation, now)
    } else if !holds_id(b0.pending(), second) {
        r == Ok::<u128, SubmissionError>(second) && stored_as(b0, b1, second, c, author, excerpt, citation, now)
    } else {
        r == Err::<u128, SubmissionError>(SubmissionError::Conflict) && unchanged(b0, b1)
    }
}

/// The link to a published post.
pub fn post_link(c: Category, id: u128) -> (r: String)
    ensures
        r@ == post_url(c, id),
{
    let mut url = String::from_str("/posts/");
    url.append(c.slug());
    url.append("?id=");
    let text = uuid_string(id);
    url.append(text.as_str());
    url
}

/// With unique identifiers, the position found is the one `entry_index` names.
proof fn lemma_entry_index(s: Seq<Post>, c: Category, id: u128, k: int)
    requires
        ids_unique(s),
        0 <= k < s.len(),
        s[k].id == id,
        s[k].category == c,
    ensures
        entry_index(s, c, id) == k,
        holds_match(s, PostFilter::Entry(c, id)),
{
    assert(PostFilter::Entry(c, id).admits(s[k]));
    let i = entry_index(s, c, id);
    if i != k {
        assert(s[i].key() != s[k].key());
    }
}

impl Backend {
    /// Confirms a submission: it leaves the pending table, a post with its
    /// author, section, text and submission time is published as `post_id`,
    /// and its author gets an approval under `notification_id`. Nothing
    /// changes when the submission is missing or an identifier is taken.
    pub fn confirm_with(
        &mut self,
        category: Category,
        id: u128,
        comment: Option<String>,
        post_id: u128,
        notification_id: u128,
        now: i64,
    ) -> (r: Result<Notification, ModerationError>)
        requires
            old(self).wf(),
        ensures
            final(self).wf(),
            confirmed(*old(self), *final(self), category, id, comment, post_id, notification_id, now, r),
    {
        proof {
            self.lemma_wf();
        }
        let k = match self.find_pending(category, id) {
            Some(k) => k,
            None => return Err(ModerationError::NotFound),
        };
        proof {
            lemma_entry_index(self.pending(), category, id, k as int);
        }
        if self.post_id_taken(post_id) || self.notification_id_taken(notification_id) {
            return Err(ModerationError::Conflict);
        }
        let ghost b0 = *self;
        let s = self.take_pending_at(k);
        let author = s.author_id;
        let submitted_at = s.submitted_at;
        let new_post = NewPost {
            id: post_id,
            author_id: s.author_id,
            category: s.category,
            excerpt: s.excerpt,
            citation: s.citation,
        };
        let created = self.create_post(new_post, submitted_at);
        let url = post_link(category, post_id);
        let content = NotificationContent::PostApproval { url, comment };
        let note = self.create_notification(notification_id, author, content, now);
        match note {
            Ok(n) => Ok(n),
            Err(_) => Err(ModerationError::Conflict),
        }
    }

    /// Rejects a submission: it leaves the pending table and its author gets
    /// a rejection under `notification_id` that carries its excerpt and
    /// citation. Nothing changes when the submission is missing or the
    /// identifier is taken.
    pub fn reject_with(
        &mut self,
        category: Category,
        id: u128,
        comment: Option<String>,
        notification_id: u128,
        now: i64,
    ) -> (r: Result<Notification, ModerationError>)
        requires
            old(self).wf(),
        ensures
            final(self).wf(),
            rejected(*old(self), *final(self), category, id, comment, notification_id, now, r),
    {
        proof {
            self.lemma_wf();
        }
        let k = match self.find_pending(category, id) {
            Some(k) => k,
            None => return Err(ModerationError::NotFound),
        };
        proof {
            lemma_entry_index(self.pending(), category, id, k as int);
        }
        if self.notification_id_taken(notification_id) {
            return Err(ModerationError::Conflict);
        }
        let s = self.take_pending_at(k);
        let content = NotificationContent::PostRejection { comment, excerpt: s.excerpt, citation: s.citation };
        let note = self.create_notification(notification_id, s.author_id, content, now);
        match note {
            Ok(n) => Ok(n),
            Err(_) => Err(ModerationError::Conflict),
        }
    }

    /// Confirms a submission under freshly drawn identifiers, at the current
    /// time.
    pub fn confirm_pending_post(&mut self, category: Category, id: u128, comment: Option<String>) -> (r: Result<
        Notification,
        ModerationError,
    >)
        requires
            old(self).wf(),
        ensures
            final(self).wf(),
            exists|pid: u128, nid: u128, now: i64|
                confirmed(*old(self), *final(self), category, id, comment, pid, nid, now, r),
    {
        let post_id = fresh_id();
        let notification_id = fresh_id();
        let now = now_seconds();
        self.confirm_with(category, id, comment, post_id, notification_id, now)
    }

    /// Rejects a submission under a freshly drawn identifier, at the current
    /// time.
    pub fn reject_pending_post(&mut self, category: Category, id: u128, comment: Option<String>) -> (r: Result<
        Notification,
        ModerationError,
    >)
        requires
            old(self).wf(),
        ensures
            final(self).wf(),
            exists|nid: u128, now: i64| rejected(*old(self), *final(self), category, id, comment, nid, now, r),
    {
        let notification_id = fresh_id();
        let now = now_seconds();
        self.reject_with(category, id, comment, notification_id, now)
    }

    /// Stores a sanitized submission under `first`, or under `second` when
    /// `first` is taken, once its lengths are checked.
    pub fn submit_with(
        &mut self,
        category: Category,
        author_id: u128,
        form: PostSubmissionForm,
        first: u128,
        second: u128,
        now: i64,
    ) -> (r: Result<u128, SubmissionError>)
        requires
            old(self).wf(),
        ensures
            final(self).wf(),
            submitted(*old(self), *final(self), category, author_id, form.excerpt@, form.citation@, first, second, now, r),
    {
        if !form.validate() {
            return Err(SubmissionError::Invalid);
        }
        let id = if !self.pending_id_taken(first) {
            first
        } else if !self.pending_id_taken(second) {
            second
        } else {
            return Err(SubmissionError::Conflict);
        };
        let ghost ex = form.excerpt;
        let ghost ci = form.citation;
        let new = NewPost { id, author_id, category, excerpt: form.excerpt, citation: form.citation };
        let ghost row = new.spec_at(now);
        let created = self.create_pending_post(new, now);
        proof {
            assert(gained_pending(*old(self), *self, row));
        }
        Ok(id)
    }

    /// Sanitizes and validates a new submission, then stores it under a
    /// freshly drawn identifier, drawing once more if that one is taken.
    /// Text whose sanitized length is out of bounds is refused before any
    /// table is touched.
    pub fn new_submission(&mut self, category: Category, author_id: u128, excerpt: &str, citation: &str) -> (r: Result<
        u128,
        SubmissionError,
    >)
        requires
            old(self).wf(),
        ensures
            final(self).wf(),
            r == Err::<u128, SubmissionError>(SubmissionError::Invalid) <==> !lengths_ok(
                sanitized(excerpt@),
                sanitized(citation@),
            ),
            r == Err::<u128, SubmissionError>(SubmissionError::Invalid) ==> unchanged(*old(self), *final(self)),
            exists|first: u128, second: u128, now: i64|
                submitted(
                    *old(self),
                    *final(self),
                    category,
                    author_id,
                    sanitized(excerpt@),
                    sanitized(citation@),
                    first,
                    second,
                    now,
                    r,
                ),
    {
        let form = PostSubmissionForm { excerpt: sanitize(excerpt), citation: sanitize(citation) };
        let first = fresh_id();
        let second = fresh_id();
        let now = now_seconds();
        self.submit_with(category, author_id, form, first, second, now)
    }
}

} // verus!
