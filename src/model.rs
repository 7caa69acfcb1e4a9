use vstd::prelude::*;
use crate::ids::{uuid_string, uuid_text};
use crate::section::Category;
use crate::table::{Row, Selector};

verus! {

/// A post: pending while it awaits moderation, published once confirmed.
/// `submitted_at` orders listings and survives confirmation.
pub struct Post {
    pub id: u128,
    pub author_id: u128,
    pub category: Category,
    pub excerpt: String,
    pub citation: String,
    pub submitted_at: i64,
}

/// A submission awaiting moderation has the shape of a post.
pub type PendingPost = Post;

/// The fields of a post that its creator chooses.
pub struct NewPost {
    pub id: u128,
    pub author_id: u128,
    pub category: Category,
    pub excerpt: String,
    pub citation: String,
}

/// A new submission has the fields of a new post.
pub type NewPendingPost = NewPost;

impl NewPost {
    /// The post that this becomes when stored at the given time.
    pub open spec fn spec_at(self, t: i64) -> Post {
        Post {
            id: self.id,
            author_id: self.author_id,
            category: self.category,
            excerpt: self.excerpt,
            citation: self.citation,
            submitted_at: t,
        }
    }

    pub fn at(self, t: i64) -> (r: Post)
        ensures
            r == self.spec_at(t),
    {
        Post {
            id: self.id,
            author_id: self.author_id,
            category: self.category,
            excerpt: self.excerpt,
            citation: self.citation,
            submitted_at: t,
        }
    }
}

impl Post {
    /// The published post that this submission becomes under a new identifier.
    pub open spec fn spec_published(self, id: u128) -> Post {
        Post { id, ..self }
    }

    /// A new post with this one's author, section and text.
    pub fn as_new_post(&self, id: u128) -> (r: NewPost)
        ensures
            r.id == id,
            r.author_id == self.author_id,
            r.category == self.category,
            r.excerpt == self.excerpt,
            r.citation == self.citation,
    {
        NewPost {
            id,
            author_id: self.author_id,
            category: self.category,
            excerpt: self.excerpt.clone(),
            citation: self.citation.clone(),
        }
    }
}

impl Row for Post {
    open spec fn key(&self) -> u128 {
        self.id
    }

    open spec fn stamp(&self) -> i64 {
        self.submitted_at
    }

    fn row_id(&self) -> (r: u128) {
        self.id
    }

    fn row_stamp(&self) -> (r: i64) {
        self.submitted_at
    }

    fn duplicate(&self) -> (r: Post) {
        Post {
            id: self.id,
            author_id: self.author_id,
            category: self.category,
            excerpt: self.excerpt.clone(),
            citation: self.citation.clone(),
            submitted_at: self.submitted_at,
        }
    }
}

/// Which posts a listing or a lookup takes.
#[derive(Clone, Copy, Debug, PartialEq, Eq, Structural)]
pub enum PostFilter {
    Section(Category),
    Author(u128),
    AuthorInSection(Category, u128),
    Entry(Category, u128),
}

impl Selector<Post> for PostFilter {
    open spec fn admits(&self, p: Post) -> bool {
        match *self {
            PostFilter::Section(c) => p.category == c,
            PostFilter::Author(a) => p.author_id == a,
            PostFilter::AuthorInSection(c, a) => p.category == c && p.author_id == a,
            PostFilter::Entry(c, id) => p.category == c && p.id == id,
        }
    }

    fn test(&self, p: &Post) -> (b: bool) {
        match *self {
            PostFilter::Section(c) => p.category == c,
            PostFilter::Author(a) => p.author_id == a,
            PostFilter::AuthorInSection(c, a) => p.category == c && p.author_id == a,
            PostFilter::Entry(c, id) => p.category == c && p.id == id,
        }
    }
}

#[derive(Clone, Copy, Debug, PartialEq, Eq, Structural)]
pub enum NotificationType {
    Approval,
    Rejection,
}

/// What a notification says, by kind.
pub enum NotificationContent {
    PostApproval { url: String, comment: Option<String> },
    PostRejection { comment: Option<String>, excerpt: String, citation: String },
}

pub fn copy_comment(c: &Option<String>) -> (r: Option<String>)
    ensures
        r == *c,
{
    match c {
        Some(s) => Some(s.clone()),
        None => None,
    }
}

impl NotificationContent {
    pub open spec fn spec_type(&self) -> NotificationType {
        match self {
            NotificationContent::PostApproval { .. } => NotificationType::Approval,
            NotificationContent::PostRejection { .. } => NotificationType::Rejection,
        }
    }

    /// The type tag that goes with this content.
    pub fn enum_type(&self) -> (r: NotificationType)
        ensures
            r == self.spec_type(),
    {
        match self {
            NotificationContent::PostApproval { .. } => NotificationType::Approval,
            NotificationContent::PostRejection { .. } => NotificationType::Rejection,
        }
    }

    pub fn duplicate(&self) -> (r: NotificationContent)
        ensures
            r == *self,
    {
        match self {
            NotificationContent::PostApproval { url, comment } => NotificationContent::PostApproval {
                url: url.clone(),
                comment: copy_comment(comment),
            },
            NotificationContent::PostRejection { comment, excerpt, citation } =>
                NotificationContent::PostRejection {
                comment: copy_comment(comment),
                excerpt: excerpt.clone(),
                citation: citation.clone(),
            },
        }
    }
}

/// A mailbox entry for one user. Its type is read off its content, so the
/// two cannot disagree.
pub struct Notification {
    pub id: u128,
    pub created_at: i64,
    pub recipient_id: u128,
    pub read: bool,
    pub content: NotificationContent,
}

/// A stored notification whose type tag does not match its content.
#[derive(Clone, Copy, Debug, PartialEq, Eq, Structural)]
pub struct CorruptNotification {
    pub id: u128,
}

impl Notification {
    pub fn n_type(&self) -> (r: NotificationType)
        ensures
            r == self.content.spec_type(),
    {
        self.content.enum_type()
    }

    /// Rebuilds a notification from its stored parts, refusing one whose
    /// stored type tag disagrees with its content.
    pub fn from_stored(
        id: u128,
        created_at: i64,
        recipient_id: u128,
        read: bool,
        n_type: NotificationType,
        content: NotificationContent,
    ) -> (r: Result<Notification, CorruptNotification>)
        ensures
            r is Ok <==> n_type == content.spec_type(),
            r matches Ok(n) ==> n == (Notification { id, created_at, recipient_id, read, content }),
            r matches Err(e) ==> e.id == id,
    {
        if n_type == content.enum_type() {
            Ok(Notification { id, created_at, recipient_id, read, content })
        } else {
            Err(CorruptNotification { id })
        }
    }
}

impl Row for Notification {
    open spec fn key(&self) -> u128 {
        self.id
    }

    open spec fn stamp(&self) -> i64 {
        self.created_at
    }

    fn row_id(&self) -> (r: u128) {
        self.id
    }

    fn row_stamp(&self) -> (r: i64) {
        self.created_at
    }

    fn duplicate(&self) -> (r: Notification) {
        Notification {
            id: self.id,
            created_at: self.created_at,
            recipient_id: self.recipient_id,
            read: self.read,
            content: self.content.duplicate(),
        }
    }
}

/// Which of a user's notifications to list.
#[derive(Clone, Copy, Debug, PartialEq, Eq, Structural)]
pub enum WhichNotifications {
    Read,
    Unread,
    All,
}

impl WhichNotifications {
    pub open spec fn spec_admits(self, read: bool) -> bool {
        match self {
            WhichNotifications::Read => read,
            WhichNotifications::Unread => !read,
            WhichNotifications::All => true,
        }
    }
}

/// Which notifications a listing or a change takes.
#[derive(Clone, Copy, Debug, PartialEq, Eq, Structural)]
pub enum NotificationFilter {
    Mailbox(u128, WhichNotifications),
    Owned(u128, u128),
    Id(u128),
}

impl Selector<Notification> for NotificationFilter {
    open spec fn admits(&self, n: Notification) -> bool {
        match *self {
            NotificationFilter::Mailbox(u, w) => n.recipient_id == u && w.spec_admits(n.read),
            NotificationFilter::Owned(u, id) => n.recipient_id == u && n.id == id,
            NotificationFilter::Id(id) => n.id == id,
        }
    }

    fn test(&self, n: &Notification) -> (b: bool) {
        match *self {
            NotificationFilter::Mailbox(u, w) => n.recipient_id == u && match w {
                WhichNotifications::Read => n.read,
                WhichNotifications::Unread => !n.read,
                WhichNotifications::All => true,
            },
            NotificationFilter::Owned(u, id) => n.recipient_id == u && n.id == id,
            NotificationFilter::Id(id) => n.id == id,
        }
    }
}

/// A registered account.
pub struct User {
    pub id: u128,
    pub username: String,
    pub password: String,
    pub admin: bool,
}

/// The fields of an account at sign-up.
pub struct NewUser {
    pub id: u128,
    pub username: String,
    pub password: String,
    pub admin: bool,
}

impl Row for User {
    open spec fn key(&self) -> u128 {
        self.id
    }

    open spec fn stamp(&self) -> i64 {
        0
    }

    fn row_id(&self) -> (r: u128) {
        self.id
    }

    fn row_stamp(&self) -> (r: i64) {
        0
    }

    fn duplicate(&self) -> (r: User) {
        User {
            id: self.id,
            username: self.username.clone(),
            password: self.password.clone(),
            admin: self.admin,
        }
    }
}

/// Picks the account with a given username.
pub struct ByUsername {
    pub username: String,
}

impl Selector<User> for ByUsername {
    open spec fn admits(&self, u: User) -> bool {
        u.username@ == self.username@
    }

    fn test(&self, u: &User) -> (b: bool) {
        u.username == self.username
    }
}

/// A post as the browsing pages show it.
pub struct BrowsePost {
    pub id: String,
    pub excerpt: String,
    pub citation: String,
}

impl BrowsePost {
    /// How a published post is shown when browsing a section.
    pub fn from_post(p: &Post) -> (r: BrowsePost)
        ensures
            r.id@ == uuid_text(p.id),
            r.excerpt == p.excerpt,
            r.citation == p.citation,
    {
        BrowsePost { id: uuid_string(p.id), excerpt: p.excerpt.clone(), citation: p.citation.clone() }
    }
}

/// The answer to a successful sign-in or sign-up.
pub struct LoginResponse {
    pub token: String,
}

} // verus!
