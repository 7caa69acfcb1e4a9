use vstd::prelude::*;
use crate::model::{
    ByUsername, NewPost, NewUser, Notification, NotificationContent, NotificationFilter, Post, PostFilter,
    User, WhichNotifications,
};
use crate::pagination::{page_of, PaginationFields};
use crate::section::Category;
use crate::table::{holds_id, holds_match, inserted_in_order, newest_first, removed_first, select, Row, Selector, Table};

verus! {

/// Why a row could not be stored.
#[derive(Clone, Copy, Debug, PartialEq, Eq, Structural)]
pub enum StoreError {
    /// The identifier is already in use.
    Conflict,
}

/// Why an account could not be created.
#[derive(Clone, Copy, Debug, PartialEq, Eq, Structural)]
pub enum UserError {
    UsernameTaken,
    IdTaken,
}

/// No two accounts share a username.
pub open spec fn usernames_unique(s: Seq<User>) -> bool {
    forall|i: int, j: int|
        0 <= i < s.len() && 0 <= j < s.len() && i != j ==> #[trigger] s[i].username@ != #[trigger] s[j].username@
}

pub open spec fn username_taken(s: Seq<User>, name: Seq<char>) -> bool {
    exists|i: int| 0 <= i < s.len() && #[trigger] s[i].username@ == name
}

/// The pending posts, the published posts, the notifications and the
/// accounts of the service.
pub struct Backend {
    submissions: Table<Post>,
    posts: Table<Post>,
    notifications: Table<Notification>,
    users: Table<User>,
}

impl Backend {
    pub closed spec fn pending(&self) -> Seq<Post> {
        self.submissions.rows()
    }

    pub closed spec fn published(&self) -> Seq<Post> {
        self.posts.rows()
    }

    pub closed spec fn mailbox(&self) -> Seq<Notification> {
        self.notifications.rows()
    }

    pub closed spec fn accounts(&self) -> Seq<User> {
        self.users.rows()
    }

    pub closed spec fn wf(&self) -> bool {
        &&& self.submissions.wf()
        &&& self.posts.wf()
        &&& self.notifications.wf()
        &&& self.users.wf()
        &&& usernames_unique(self.users.rows())
    }

    /// What every table of a well-formed backend keeps.
    pub proof fn lemma_wf(&self)
        requires
            self.wf(),
        ensures
            crate::table::ids_unique(self.pending()),
            newest_first(self.pending()),
            crate::table::ids_unique(self.published()),
            newest_first(self.published()),
            crate::table::ids_unique(self.mailbox()),
            newest_first(self.mailbox()),
            crate::table::ids_unique(self.accounts()),
            usernames_unique(self.accounts()),
    {
    }

    pub fn new() -> (r: Backend)
        ensures
            r.wf(),
            r.pending() == Seq::<Post>::empty(),
            r.published() == Seq::<Post>::empty(),
            r.mailbox() == Seq::<Notification>::empty(),
            r.accounts() == Seq::<User>::empty(),
    {
        Backend { submissions: Table::new(), posts: Table::new(), notifications: Table::new(), users: Table::new() }
    }

    // ----- accounts -----

    /// Registers an account; usernames and identifiers are unique.
    pub fn create_user(&mut self, user: NewUser) -> (r: Result<(), UserError>)
        requires
            old(self).wf(),
        ensures
            final(self).wf(),
            final(self).pending() == old(self).pending(),
            final(self).published() == old(self).published(),
            final(self).mailbox() == old(self).mailbox(),
            r == (if username_taken(old(self).accounts(), user.username@) {
                Err(UserError::UsernameTaken)
            } else if holds_id(old(self).accounts(), user.id) {
                Err(UserError::IdTaken)
            } else {
                Ok(())
            }),
            r is Ok ==> final(self).accounts() == old(self).accounts().push(
                User { id: user.id, username: user.username, password: user.password, admin: user.admin },
            ),
            r is Err ==> final(self).accounts() == old(self).accounts(),
    {
        let sel = ByUsername { username: user.username.clone() };
        if self.users.find_first(&sel).is_some() {
            return Err(UserError::UsernameTaken);
        }
        proof {
            assert forall|i: int| 0 <= i < self.users.rows().len() implies #[trigger] self.users.rows()[i].username@
                != user.username@ by {
                assert(!sel.admits(self.users.rows()[i]));
            }
        }
        let row = User { id: user.id, username: user.username, password: user.password, admin: user.admin };
        let ghost before = self.users.rows();
        let added = self.users.insert(row);
        if !added {
            return Err(UserError::IdTaken);
        }
        proof {
            let after = self.users.rows();
            let i = choose|i: int|
                0 <= i <= before.len() && after == before.insert(i, row) && (forall|j: int|
                    0 <= j < i ==> #[trigger] before[j].stamp() >= row.stamp()) && (forall|j: int|
                    i <= j < before.len() ==> #[trigger] before[j].stamp() < row.stamp());
            if i < before.len() {
                assert(before[i].stamp() < row.stamp());
            }
            assert(i == before.len());
            assert(after =~= before.push(row));
            assert forall|a: int, b: int|
                0 <= a < after.len() && 0 <= b < after.len() && a != b implies #[trigger] after[a].username@
                != #[trigger] after[b].username@ by {
                if a < before.len() && b < before.len() {
                    assert(after[a] == before[a]);
                    assert(after[b] == before[b]);
                } else if a < before.len() {
                    assert(after[a] == before[a]);
                } else {
                    assert(after[b] == before[b]);
                }
            }
        }
        Ok(())
    }

    /// The account with a username.
    pub fn get_user(&self, username: &str) -> (r: Option<User>)
        requires
            self.wf(),
        ensures
            r is Some <==> username_taken(self.accounts(), username@),
            r matches Some(u) ==> self.accounts().contains(u) && u.username@ == username@,
    {
        let sel = ByUsername { username: String::from_str(username) };
        let r = self.users.first_match(&sel);
        proof {
            if r is Some {
                let u = r->0;
                let i = choose|i: int| 0 <= i < self.users.rows().len() && self.users.rows()[i] == u && sel.admits(u) && (forall|j: int|
                    0 <= j < i ==> !sel.admits(#[trigger] self.users.rows()[j]));
                assert(self.accounts()[i] == u);
            } else {
                assert forall|i: int| 0 <= i < self.accounts().len() implies #[trigger] self.accounts()[i].username@
                    != username@ by {
                    assert(!sel.admits(self.users.rows()[i]));
                }
            }
        }
        r
    }

    /// The account with an identifier.
    pub fn get_user_uid(&self, id: u128) -> (r: Option<User>)
        requires
            self.wf(),
        ensures
            r is Some <==> holds_id(self.accounts(), id),
            r matches Some(u) ==> self.accounts().contains(u) && u.id == id,
    {
        match self.users.find(id) {
            Some(i) => Some(self.users.get(i)),
            None => None,
        }
    }

    // ----- published posts -----

    /// Stores a published post.
    pub fn create_post(&mut self, new: NewPost, submitted_at: i64) -> (r: Result<(), StoreError>)
        requires
            old(self).wf(),
        ensures
            final(self).wf(),
            final(self).pending() == old(self).pending(),
            final(self).mailbox() == old(self).mailbox(),
            final(self).accounts() == old(self).accounts(),
            r is Ok <==> !holds_id(old(self).published(), new.id),
            r is Ok ==> inserted_in_order(old(self).published(), final(self).published(), new.spec_at(submitted_at)),
            r is Err ==> r == Err::<(), StoreError>(StoreError::Conflict) && final(self).published() == old(self).published(),
    {
        if self.posts.insert(new.at(submitted_at)) {
            Ok(())
        } else {
            Err(StoreError::Conflict)
        }
    }

    /// The published post with this identifier in this section.
    pub fn get_post(&self, category: Category, id: u128) -> (r: Option<Post>)
        requires
            self.wf(),
        ensures
            r is Some <==> holds_match(self.published(), PostFilter::Entry(category, id)),
            r matches Some(p) ==> self.published().contains(p) && p.id == id && p.category == category,
    {
        first_entry(&self.posts, &PostFilter::Entry(category, id))
    }

    /// The published post with this identifier, in any section.
    pub fn get_post_by_id(&self, id: u128) -> (r: Option<Post>)
        requires
            self.wf(),
        ensures
            r is Some <==> holds_id(self.published(), id),
            r matches Some(p) ==> self.published().contains(p) && p.id == id,
    {
        match self.posts.find(id) {
            Some(i) => Some(self.posts.get(i)),
            None => None,
        }
    }

    /// One page of a section's published posts, newest first.
    pub fn get_section_posts(&self, category: Category, p: PaginationFields) -> (r: Vec<Post>)
        requires
            self.wf(),
        ensures
            r@ == page_of(select(self.published(), PostFilter::Section(category)), p),
            newest_first(r@),
    {
        self.posts.list(&PostFilter::Section(category), p)
    }

    /// One page of an author's published posts, newest first.
    pub fn get_user_posts(&self, author_id: u128, p: PaginationFields) -> (r: Vec<Post>)
        requires
            self.wf(),
        ensures
            r@ == page_of(select(self.published(), PostFilter::Author(author_id)), p),
            newest_first(r@),
    {
        self.posts.list(&PostFilter::Author(author_id), p)
    }

    /// One page of an author's published posts in a section, newest first.
    pub fn get_user_posts_in_section(&self, category: Category, author_id: u128, p: PaginationFields) -> (r: Vec<Post>)
        requires
            self.wf(),
        ensures
            r@ == page_of(select(self.published(), PostFilter::AuthorInSection(category, author_id)), p),
            newest_first(r@),
    {
        self.posts.list(&PostFilter::AuthorInSection(category, author_id), p)
    }

    /// Deletes a published post; returns how many rows went.
    pub fn remove_post(&mut self, category: Category, id: u128) -> (r: u64)
        requires
            old(self).wf(),
        ensures
            final(self).wf(),
            final(self).pending() == old(self).pending(),
            final(self).mailbox() == old(self).mailbox(),
            final(self).accounts() == old(self).accounts(),
            r == (if holds_match(old(self).published(), PostFilter::Entry(category, id)) { 1u64 } else { 0u64 }),
            r == 1 ==> removed_first(old(self).published(), final(self).published(), PostFilter::Entry(category, id)),
            r == 0 ==> final(self).published() == old(self).published(),
    {
        self.posts.remove_first(&PostFilter::Entry(category, id))
    }

    // ----- pending posts -----

    /// Stores a new submission.
    pub fn create_pending_post(&mut self, new: NewPost, submitted_at: i64) -> (r: Result<(), StoreError>)
        requires
            old(self).wf(),
        ensures
            final(self).wf(),
            final(self).published() == old(self).published(),
            final(self).mailbox() == old(self).mailbox(),
            final(self).accounts() == old(self).accounts(),
            r is Ok <==> !holds_id(old(self).pending(), new.id),
            r is Ok ==> inserted_in_order(old(self).pending(), final(self).pending(), new.spec_at(submitted_at)),
            r is Err ==> r == Err::<(), StoreError>(StoreError::Conflict) && final(self).pending() == old(self).pending(),
    {
        if self.submissions.insert(new.at(submitted_at)) {
            Ok(())
        } else {
            Err(StoreError::Conflict)
        }
    }

    /// The submission with this identifier in this section.
    pub fn get_pending_post(&self, category: Category, id: u128) -> (r: Option<Post>)
        requires
            self.wf(),
        ensures
            r is Some <==> holds_match(self.pending(), PostFilter::Entry(category, id)),
            r matches Some(p) ==> self.pending().contains(p) && p.id == id && p.category == category,
    {
        first_entry(&self.submissions, &PostFilter::Entry(category, id))
    }

    /// The submission with this identifier, in any section.
    pub fn get_pending_post_by_id(&self, id: u128) -> (r: Option<Post>)
        requires
            self.wf(),
        ensures
            r is Some <==> holds_id(self.pending(), id),
            r matches Some(p) ==> self.pending().contains(p) && p.id == id,
    {
        match self.submissions.find(id) {
            Some(i) => Some(self.submissions.get(i)),
            None => None,
        }
    }

    /// One page of a section's submissions, newest first.
    pub fn get_section_pending_posts(&self, category: Category, p: PaginationFields) -> (r: Vec<Post>)
        requires
            self.wf(),
        ensures
            r@ == page_of(select(self.pending(), PostFilter::Section(category)), p),
            newest_first(r@),
    {
        self.submissions.list(&PostFilter::Section(category), p)
    }

    /// One page of an author's submissions, newest first.
    pub fn get_user_pending_posts(&self, author_id: u128, p: PaginationFields) -> (r: Vec<Post>)
        requires
            self.wf(),
        ensures
            r@ == page_of(select(self.pending(), PostFilter::Author(author_id)), p),
            newest_first(r@),
    {
        self.submissions.list(&PostFilter::Author(author_id), p)
    }

    /// One page of an author's submissions in a section, newest first.
    pub fn get_user_pending_posts_in_section(&self, category: Category, author_id: u128, p: PaginationFields) -> (r: Vec<Post>)
        requires
            self.wf(),
        ensures
            r@ == page_of(select(self.pending(), PostFilter::AuthorInSection(category, author_id)), p),
            newest_first(r@),
    {
        self.submissions.list(&PostFilter::AuthorInSection(category, author_id), p)
    }

    /// Deletes a submission; returns how many rows went.
    pub fn remove_pending_post(&mut self, category: Category, id: u128) -> (r: u64)
        requires
            old(self).wf(),
        ensures
            final(self).wf(),
            final(self).published() == old(self).published(),
            final(self).mailbox() == old(self).mailbox(),
            final(self).accounts() == old(self).accounts(),
            r == (if holds_match(old(self).pending(), PostFilter::Entry(category, id)) { 1u64 } else { 0u64 }),
            r == 1 ==> removed_first(old(self).pending(), final(self).pending(), PostFilter::Entry(category, id)),
            r == 0 ==> final(self).pending() == old(self).pending(),
    {
        self.submissions.remove_first(&PostFilter::Entry(category, id))
    }

    /// Takes the submission with this identifier out of this section.
    pub fn get_and_remove_pending_post(&mut self, category: Category, id: u128) -> (r: Option<Post>)
        requires
            old(self).wf(),
        ensures
            final(self).wf(),
            final(self).published() == old(self).published(),
            final(self).mailbox() == old(self).mailbox(),
            final(self).accounts() == old(self).accounts(),
            r is Some <==> holds_match(old(self).pending(), PostFilter::Entry(category, id)),
            r matches Some(p) ==> exists|i: int|
                0 <= i < old(self).pending().len() && old(self).pending()[i] == p && p.id == id && p.category
                    == category && final(self).pending() == old(self).pending().remove(i),
            r is None ==> final(self).pending() == old(self).pending(),
    {
        match self.submissions.find_first(&PostFilter::Entry(category, id)) {
            Some(i) => {
                let p = self.submissions.remove_at(i);
                proof {
                    assert(PostFilter::Entry(category, id).admits(p));
                    assert(old(self).pending()[i as int] == p);
                }
                Some(p)
            },
            None => None,
        }
    }

    /// Takes the submission at a position out of the pending table.
    pub(crate) fn take_pending_at(&mut self, i: usize) -> (r: Post)
        requires
            old(self).wf(),
            i < old(self).pending().len(),
        ensures
            final(self).wf(),
            r == old(self).pending()[i as int],
            final(self).pending() == old(self).pending().remove(i as int),
            final(self).published() == old(self).published(),
            final(self).mailbox() == old(self).mailbox(),
            final(self).accounts() == old(self).accounts(),
    {
        self.submissions.remove_at(i)
    }

    /// The position of the submission with this identifier in this section.
    pub(crate) fn find_pending(&self, category: Category, id: u128) -> (r: Option<usize>)
        ensures
            r matches Some(i) ==> i < self.pending().len() && self.pending()[i as int].id == id
                && self.pending()[i as int].category == category,
            r is None ==> !holds_match(self.pending(), PostFilter::Entry(category, id)),
    {
        self.submissions.find_first(&PostFilter::Entry(category, id))
    }

    pub(crate) fn post_id_taken(&self, id: u128) -> (r: bool)
        ensures
            r == holds_id(self.published(), id),
    {
        self.posts.find(id).is_some()
    }

    pub(crate) fn notification_id_taken(&self, id: u128) -> (r: bool)
        ensures
            r == holds_id(self.mailbox(), id),
    {
        self.notifications.find(id).is_some()
    }

    pub(crate) fn pending_id_taken(&self, id: u128) -> (r: bool)
        ensures
            r == holds_id(self.pending(), id),
    {
        self.submissions.find(id).is_some()
    }

    // ----- notifications -----

    /// Stores a notification for a user.
    pub fn create_notification(&mut self, id: u128, recipient_id: u128, content: NotificationContent, created_at: i64) -> (r: Result<Notification, StoreError>)
        requires
            old(self).wf(),
        ensures
            final(self).wf(),
            final(self).pending() == old(self).pending(),
            final(self).published() == old(self).published(),
            final(self).accounts() == old(self).accounts(),
            r is Ok <==> !holds_id(old(self).mailbox(), id),
            r matches Ok(n) ==> n == (Notification { id, created_at, recipient_id, read: false, content })
                && inserted_in_order(old(self).mailbox(), final(self).mailbox(), n),
            r matches Err(e) ==> e == StoreError::Conflict && final(self).mailbox() == old(self).mailbox(),
    {
        let n = Notification { id, created_at, recipient_id, read: false, content };
        let copy = n.duplicate();
        if self.notifications.insert(n) {
            Ok(copy)
        } else {
            Err(StoreError::Conflict)
        }
    }

    /// One page of a user's notifications, newest first.
    pub fn get_user_notifications(&self, user: u128, which: WhichNotifications, p: PaginationFields) -> (r: Vec<Notification>)
        requires
            self.wf(),
        ensures
            r@ == page_of(select(self.mailbox(), NotificationFilter::Mailbox(user, which)), p),
            newest_first(r@),
    {
        self.notifications.list(&NotificationFilter::Mailbox(user, which), p)
    }

    /// Marks a user's own notification read or unread; returns how many rows
    /// changed. Another user's notification is left alone.
    pub fn update_user_notification(&mut self, uid: u128, id: u128, read: bool) -> (r: u64)
        requires
            old(self).wf(),
        ensures
            final(self).wf(),
            final(self).pending() == old(self).pending(),
            final(self).published() == old(self).published(),
            final(self).accounts() == old(self).accounts(),
            r == (if holds_match(old(self).mailbox(), NotificationFilter::Owned(uid, id)) { 1u64 } else { 0u64 }),
            r == 1 ==> exists|i: int|
                0 <= i < old(self).mailbox().len() && old(self).mailbox()[i].id == id
                    && old(self).mailbox()[i].recipient_id == uid
                    && final(self).mailbox() == old(self).mailbox().update(i, Notification { read, ..old(self).mailbox()[i] }),
            r == 0 ==> final(self).mailbox() == old(self).mailbox(),
    {
        match self.notifications.find_first(&NotificationFilter::Owned(uid, id)) {
            Some(i) => {
                let n = self.notifications.get(i);
                let changed = Notification { read, ..n };
                self.notifications.replace_at(i, changed);
                1
            },
            None => 0,
        }
    }

    /// Deletes a user's own notification; returns how many rows went. A
    /// notification of another user is never deleted.
    pub fn delete_user_notification(&mut self, uid: u128, id: u128) -> (r: u64)
        requires
            old(self).wf(),
        ensures
            final(self).wf(),
            final(self).pending() == old(self).pending(),
            final(self).published() == old(self).published(),
            final(self).accounts() == old(self).accounts(),
            r == (if holds_match(old(self).mailbox(), NotificationFilter::Owned(uid, id)) { 1u64 } else { 0u64 }),
            r == 1 ==> removed_first(old(self).mailbox(), final(self).mailbox(), NotificationFilter::Owned(uid, id)),
            r == 0 ==> final(self).mailbox() == old(self).mailbox(),
    {
        self.notifications.remove_first(&NotificationFilter::Owned(uid, id))
    }

    /// Deletes any notification; returns how many rows went.
    pub fn delete_notification(&mut self, id: u128) -> (r: u64)
        requires
            old(self).wf(),
        ensures
            final(self).wf(),
            final(self).pending() == old(self).pending(),
            final(self).published() == old(self).published(),
            final(self).accounts() == old(self).accounts(),
            r == (if holds_id(old(self).mailbox(), id) { 1u64 } else { 0u64 }),
            r == 1 ==> removed_first(old(self).mailbox(), final(self).mailbox(), NotificationFilter::Id(id)),
            r == 0 ==> final(self).mailbox() == old(self).mailbox(),
    {
        let r = self.notifications.remove_first(&NotificationFilter::Id(id));
        proof {
            let s = old(self).notifications.rows();
            if holds_id(s, id) {
                let i = choose|i: int| 0 <= i < s.len() && #[trigger] s[i].key() == id;
                assert(NotificationFilter::Id(id).admits(s[i]));
            }
            if holds_match(s, NotificationFilter::Id(id)) {
                let i = choose|i: int| 0 <= i < s.len() && NotificationFilter::Id(id).admits(#[trigger] s[i]);
                assert(s[i].key() == id);
            }
        }
        r
    }
}

/// A copy of the first post that a filter admits.
fn first_entry(t: &Table<Post>, sel: &PostFilter) -> (r: Option<Post>)
    ensures
        r is Some <==> holds_match(t.rows(), *sel),
        r matches Some(p) ==> t.rows().contains(p) && sel.admits(p),
{
    let r = t.first_match(sel);
    proof {
        if r is Some {
            let p = r->0;
            let i = choose|i: int| 0 <= i < t.rows().len() && t.rows()[i] == p && sel.admits(p) && (forall|j: int|
                0 <= j < i ==> !sel.admits(#[trigger] t.rows()[j]));
            assert(t.rows()[i] == p);
        }
    }
    r
}

} // verus!
