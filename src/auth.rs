use vstd::prelude::*;
use crate::backend::{username_taken, Backend, UserError};
use crate::ids::fresh_id;
use crate::model::{NewUser, Notification, NotificationFilter, User, WhichNotifications};
use crate::pagination::{page_of, PaginationFields};
use crate::table::{newest_first, select};
use crate::table::{holds_id, holds_match, removed_first, Row, Selector};
use crate::text::{lowercase_of, trimmed, username_valid, LoginForm};

verus! {

/// The two tiers of access.
#[derive(Clone, Copy, Debug, PartialEq, Eq, Structural)]
pub enum AuthLevel {
    User,
    Admin,
}

/// What a verified bearer credential says: who holds it, until when (in
/// seconds since the Unix epoch), and whether they are an administrator.
#[derive(Clone, Copy, Debug, PartialEq, Eq, Structural)]
pub struct Claims {
    pub sub: u128,
    pub exp: u64,
    pub admin: bool,
}

#[derive(Clone, Copy, Debug, PartialEq, Eq, Structural)]
pub enum AuthError {
    Unauthorized,
}

/// How long a credential stays valid: six hours.
pub const TOKEN_LIFETIME_SECS: i64 = 21600;

impl Claims {
    /// The claims of a credential issued at `now` (seconds since the Unix
    /// epoch); none when its expiry is not a representable time.
    pub fn issue(subject: u128, admin: bool, now: i64) -> (r: Option<Claims>)
        ensures
            r is Some <==> 0 <= now + TOKEN_LIFETIME_SECS <= i64::MAX,
            r matches Some(c) ==> c.sub == subject && c.admin == admin && c.exp == now + TOKEN_LIFETIME_SECS,
    {
        if now > i64::MAX - TOKEN_LIFETIME_SECS || now < -TOKEN_LIFETIME_SECS {
            None
        } else {
            Some(Claims { sub: subject, exp: (now + TOKEN_LIFETIME_SECS) as u64, admin })
        }
    }
}

impl AuthLevel {
    pub open spec fn spec_admits(self, c: Claims) -> bool {
        match self {
            AuthLevel::User => true,
            AuthLevel::Admin => c.admin,
        }
    }

    /// Whether claims reach this tier.
    pub fn admits(&self, c: &Claims) -> (r: bool)
        ensures
            r == self.spec_admits(*c),
    {
        match self {
            AuthLevel::User => true,
            AuthLevel::Admin => c.admin,
        }
    }
}

/// `s` with every occurrence of `pat` removed, matches taken from the left
/// without overlap, as `str::replace(pat, "")` does.
pub open spec fn erase_all(s: Seq<char>, pat: Seq<char>) -> Seq<char>
    decreases s.len(),
{
    if s.len() == 0 {
        s
    } else if 0 < pat.len() <= s.len() && s.take(pat.len() as int) == pat {
        erase_all(s.skip(pat.len() as int), pat)
    } else {
        seq![s[0]] + erase_all(s.skip(1), pat)
    }
}

/// Whether `pat` occurs in `s` at position `i`.
fn occurs_at(s: &str, n: usize, i: usize, pat: &str, m: usize) -> (r: bool)
    requires
        n == s@.len(),
        m == pat@.len(),
        i <= n,
    ensures
        r == (m <= n - i && s@.subrange(i as int, i + m) == pat@),
{
    if m > n - i {
        return false;
    }
    let mut k: usize = 0;
    while k < m
        invariant
            m <= n - i,
            n == s@.len(),
            m == pat@.len(),
            k <= m,
            forall|j: int| 0 <= j < k ==> s@[i + j] == #[trigger] pat@[j],
        decreases m - k,
    {
        if s.get_char(i + k) != pat.get_char(k) {
            assert(s@.subrange(i as int, i + m)[k as int] != pat@[k as int]);
            return false;
        }
        k = k + 1;
    }
    assert(s@.subrange(i as int, i + m) =~= pat@);
    true
}

/// Removes every occurrence of `pat` from `s`.
pub fn erase(s: &str, pat: &str) -> (r: String)
    ensures
        r@ == erase_all(s@, pat@),
{
    let n = s.unicode_len();
    let m = pat.unicode_len();
    let mut out = String::new();
    let mut i: usize = 0;
    proof {
        assert(s@.skip(0) =~= s@);
        assert(out@ + erase_all(s@, pat@) =~= erase_all(s@, pat@));
    }
    while i < n
        invariant
            n == s@.len(),
            m == pat@.len(),
            i <= n,
            out@ + erase_all(s@.skip(i as int), pat@) == erase_all(s@, pat@),
        decreases n - i,
    {
        let ghost rest = s@.skip(i as int);
        if m > 0 && occurs_at(s, n, i, pat, m) {
            proof {
                assert(rest.take(m as int) =~= s@.subrange(i as int, i + m));
                assert(rest.skip(m as int) =~= s@.skip(i + m));
            }
            i = i + m;
        } else {
            let piece = s.substring_char(i, i + 1);
            proof {
                if 0 < m <= rest.len() {
                    assert(rest.take(m as int) =~= s@.subrange(i as int, i + m));
                }
                assert(rest.skip(1) =~= s@.skip(i + 1));
                assert(piece@ =~= seq![rest[0]]);
                assert(out@ + piece@ + erase_all(s@.skip(i + 1), pat@) =~= out@ + erase_all(rest, pat@));
            }
            out.append(piece);
            i = i + 1;
        }
    }
    proof {
        assert(s@.skip(n as int) =~= Seq::<char>::empty());
        assert(out@ + erase_all(s@.skip(n as int), pat@) =~= out@);
    }
    out
}

/// A bearer credential taken from an `Authorization` header, with the tier
/// that the route asks for.
pub struct AuthHeader {
    pub token: String,
    pub level: AuthLevel,
}

impl AuthHeader {
    /// Reads the credential from the header's value; a missing header is
    /// refused.
    pub fn from_request(header: Option<&str>, level: AuthLevel) -> (r: Result<AuthHeader, AuthError>)
        ensures
            header is None ==> r == Err::<AuthHeader, AuthError>(AuthError::Unauthorized),
            header matches Some(h) ==> r matches Ok(a) && a.token@ == erase_all(h@, "Bearer "@) && a.level == level,
    {
        match header {
            None => Err(AuthError::Unauthorized),
            Some(h) => Ok(AuthHeader { token: erase(h, "Bearer "), level }),
        }
    }

    /// Accepts the claims that decoding this credential gave, if they reach
    /// the header's tier; refuses a credential that did not decode.
    pub fn verify(&self, decoded: Option<Claims>) -> (r: Result<Claims, AuthError>)
        ensures
            r == (match decoded {
                Some(c) => if self.level.spec_admits(c) {
                    Ok(c)
                } else {
                    Err(AuthError::Unauthorized)
                },
                None => Err(AuthError::Unauthorized),
            }),
    {
        match decoded {
            Some(c) => if self.level.admits(&c) {
                Ok(c)
            } else {
                Err(AuthError::Unauthorized)
            },
            None => Err(AuthError::Unauthorized),
        }
    }
}

/// Why a sign-in or a sign-up was refused.
#[derive(Clone, Copy, Debug, PartialEq, Eq, Structural)]
pub enum AccountError {
    /// The username is malformed.
    BadRequest,
    /// No account matches, or the password is wrong.
    Unauthorized,
    /// The username is already registered.
    Taken,
}

/// A sign-up with the given raw username and password under `id`: a
/// malformed username is refused; a taken username or identifier leaves
/// the accounts as they were; otherwise one non-administrator account with
/// the sanitized credentials is added.
pub open spec fn signed_up(
    b0: Backend,
    b1: Backend,
    username: Seq<char>,
    password: Seq<char>,
    id: u128,
    r: Result<u128, AccountError>,
) -> bool {
    &&& b1.pending() == b0.pending()
    &&& b1.published() == b0.published()
    &&& b1.mailbox() == b0.mailbox()
    &&& if !username_valid(username) {
        r == Err::<u128, AccountError>(AccountError::BadRequest) && b1.accounts() == b0.accounts()
    } else if username_taken(b0.accounts(), lowercase_of(trimmed(username))) || holds_id(b0.accounts(), id) {
        r == Err::<u128, AccountError>(AccountError::Taken) && b1.accounts() == b0.accounts()
    } else {
        r == Ok::<u128, AccountError>(id) && exists|u: User|
            b1.accounts() == b0.accounts().push(u) && u.id == id && !u.admin && u.username@ == lowercase_of(
                trimmed(username),
            ) && u.password@ == trimmed(password)
    }
}

/// Why an attachment to a submission was refused.
#[derive(Clone, Copy, Debug, PartialEq, Eq, Structural)]
pub enum AccessError {
    NotFound,
    Unauthorized,
}

impl Backend {
    /// Checks a sign-in: the username is validated as sent, then trimmed and
    /// lower-cased; the account must exist and its password must match the
    /// trimmed one.
    pub fn sign_in(&self, form: LoginForm) -> (r: Result<User, AccountError>)
        requires
            self.wf(),
        ensures
            !username_valid(form.username@) ==> r == Err::<User, AccountError>(AccountError::BadRequest),
            username_valid(form.username@) ==> (r is Ok <==> exists|i: int|
                0 <= i < self.accounts().len() && #[trigger] self.accounts()[i].username@ == lowercase_of(
                    trimmed(form.username@),
                ) && self.accounts()[i].password@ == trimmed(form.password@)),
            r is Err && username_valid(form.username@) ==> r == Err::<User, AccountError>(AccountError::Unauthorized),
            r matches Ok(u) ==> self.accounts().contains(u) && u.username@ == lowercase_of(trimmed(form.username@))
                && u.password@ == trimmed(form.password@),
    {
        let form = match form.sanitize_and_validate() {
            Some(f) => f,
            None => return Err(AccountError::BadRequest),
        };
        match self.get_user(form.username.as_str()) {
            None => Err(AccountError::Unauthorized),
            Some(u) => {
                proof {
                    self.lemma_wf();
                }
                if u.password == form.password {
                    Ok(u)
                } else {
                    proof {
                        let k = choose|k: int| 0 <= k < self.accounts().len() && self.accounts()[k] == u;
                        assert forall|i: int|
                            0 <= i < self.accounts().len() && #[trigger] self.accounts()[i].username@
                                == form.username@ implies self.accounts()[i].password@ != form.password@ by {
                            if i != k {
                                assert(self.accounts()[i].username@ != self.accounts()[k].username@);
                            }
                        }
                    }
                    Err(AccountError::Unauthorized)
                }
            },
        }
    }

    /// Registers a non-administrator account under `id` after validating
    /// and sanitizing the form.
    pub fn sign_up_with(&mut self, form: LoginForm, id: u128) -> (r: Result<u128, AccountError>)
        requires
            old(self).wf(),
        ensures
            final(self).wf(),
            signed_up(*old(self), *final(self), form.username@, form.password@, id, r),
    {
        let form = match form.sanitize_and_validate() {
            Some(f) => f,
            None => return Err(AccountError::BadRequest),
        };
        let ghost name = form.username;
        let ghost pass = form.password;
        match self.create_user(NewUser { id, username: form.username, password: form.password, admin: false }) {
            Ok(()) => {
                proof {
                    let u = User { id, username: name, password: pass, admin: false };
                    assert(self.accounts() == old(self).accounts().push(u));
                }
                Ok(id)
            },
            Err(_) => Err(AccountError::Taken),
        }
    }

    /// Registers an account under a freshly drawn identifier.
    pub fn sign_up(&mut self, form: LoginForm) -> (r: Result<u128, AccountError>)
        requires
            old(self).wf(),
        ensures
            final(self).wf(),
            exists|id: u128| signed_up(*old(self), *final(self), form.username@, form.password@, id, r),
    {
        let id = fresh_id();
        self.sign_up_with(form, id)
    }

    /// Deletes a notification on behalf of a user: an administrator may
    /// delete any, anyone else only their own.
    pub fn delete_notification_as(&mut self, actor: &Claims, id: u128) -> (r: u64)
        requires
            old(self).wf(),
        ensures
            final(self).wf(),
            final(self).pending() == old(self).pending(),
            final(self).published() == old(self).published(),
            final(self).accounts() == old(self).accounts(),
            !actor.admin ==> r == (if holds_match(old(self).mailbox(), NotificationFilter::Owned(actor.sub, id)) {
                1u64
            } else {
                0u64
            }),
            actor.admin ==> r == (if holds_id(old(self).mailbox(), id) { 1u64 } else { 0u64 }),
            r == 0 ==> final(self).mailbox() == old(self).mailbox(),
            r == 1 && !actor.admin ==> removed_first(old(self).mailbox(), final(self).mailbox(), NotificationFilter::Owned(actor.sub, id)),
            r == 1 && actor.admin ==> removed_first(old(self).mailbox(), final(self).mailbox(), NotificationFilter::Id(id)),
    {
        if !actor.admin {
            self.delete_user_notification(actor.sub, id)
        } else {
            self.delete_notification(id)
        }
    }

    /// Whether a user may attach an image to a submission: it must exist,
    /// and the user must be its author or an administrator.
    pub fn attachment_allowed(&self, actor: &Claims, submission_id: u128) -> (r: Result<(), AccessError>)
        requires
            self.wf(),
        ensures
            !holds_id(self.pending(), submission_id) ==> r == Err::<(), AccessError>(AccessError::NotFound),
            holds_id(self.pending(), submission_id) ==> (r is Ok <==> (actor.admin || exists|i: int|
                0 <= i < self.pending().len() && #[trigger] self.pending()[i].id == submission_id
                    && self.pending()[i].author_id == actor.sub)),
            r is Err && holds_id(self.pending(), submission_id) ==> r == Err::<(), AccessError>(AccessError::Unauthorized),
    {
        match self.get_pending_post_by_id(submission_id) {
            None => Err(AccessError::NotFound),
            Some(p) => {
                proof {
                    self.lemma_wf();
                    let k = choose|k: int| 0 <= k < self.pending().len() && self.pending()[k] == p;
                    assert forall|i: int| 0 <= i < self.pending().len() && #[trigger] self.pending()[i].id
                        == submission_id implies i == k by {
                        if i != k {
                            assert(self.pending()[i].key() != self.pending()[k].key());
                        }
                    }
                }
                if actor.admin || p.author_id == actor.sub {
                    Ok(())
                } else {
                    Err(AccessError::Unauthorized)
                }
            },
        }
    }
}

/// A change of the read flag of one notification.
#[derive(Clone, Copy, Debug, PartialEq, Eq, Structural)]
pub struct PatchNotificationBody {
    pub notification_id: u128,
    pub read: bool,
}

/// The mailbox after the user `uid` sets the read flag of their own
/// notification `id`; unchanged when they own no such notification.
pub open spec fn with_read_flag(s: Seq<Notification>, uid: u128, id: u128, read: bool) -> Seq<Notification> {
    if holds_match(s, NotificationFilter::Owned(uid, id)) {
        let i = choose|i: int| 0 <= i < s.len() && NotificationFilter::Owned(uid, id).admits(#[trigger] s[i]);
        s.update(i, Notification { read, ..s[i] })
    } else {
        s
    }
}

/// The mailbox after applying patches in order.
pub open spec fn patched(s: Seq<Notification>, uid: u128, patches: Seq<PatchNotificationBody>) -> Seq<Notification>
    decreases patches.len(),
{
    if patches.len() == 0 {
        s
    } else {
        let last = patches.last();
        with_read_flag(patched(s, uid, patches.drop_last()), uid, last.notification_id, last.read)
    }
}

impl Backend {
    /// One page of the caller's own notifications; unread ones when no
    /// filter is given.
    pub fn notifications_for(&self, actor: &Claims, which: Option<WhichNotifications>, p: PaginationFields) -> (r: Vec<Notification>)
        requires
            self.wf(),
        ensures
            r@ == page_of(
                select(
                    self.mailbox(),
                    NotificationFilter::Mailbox(
                        actor.sub,
                        match which {
                            Some(w) => w,
                            None => WhichNotifications::Unread,
                        },
                    ),
                ),
                p,
            ),
            newest_first(r@),
    {
        let w = match which {
            Some(w) => w,
            None => WhichNotifications::Unread,
        };
        self.get_user_notifications(actor.sub, w, p)
    }

    /// Applies read-flag changes to the caller's own notifications, in
    /// order; changes aimed at other users' notifications do nothing.
    pub fn patch_notifications(&mut self, actor: &Claims, patches: &Vec<PatchNotificationBody>)
        requires
            old(self).wf(),
        ensures
            final(self).wf(),
            final(self).mailbox() == patched(old(self).mailbox(), actor.sub, patches@),
            final(self).pending() == old(self).pending(),
            final(self).published() == old(self).published(),
            final(self).accounts() == old(self).accounts(),
    {
        let mut k: usize = 0;
        while k < patches.len()
            invariant
                self.wf(),
                k <= patches@.len(),
                self.mailbox() == patched(old(self).mailbox(), actor.sub, patches@.take(k as int)),
                self.pending() == old(self).pending(),
                self.published() == old(self).published(),
                self.accounts() == old(self).accounts(),
            decreases patches@.len() - k,
        {
            let p = patches[k];
            let ghost before = self.mailbox();
            proof {
                self.lemma_wf();
            }
            let changed = self.update_user_notification(actor.sub, p.notification_id, p.read);
            proof {
                assert(patches@.take(k + 1).drop_last() =~= patches@.take(k as int));
                let f = NotificationFilter::Owned(actor.sub, p.notification_id);
                if changed == 1 {
                    let i = choose|i: int|
                        0 <= i < before.len() && before[i].id == p.notification_id && before[i].recipient_id
                            == actor.sub && self.mailbox() == before.update(i, Notification { read: p.read, ..before[i] });
                    let j = choose|j: int| 0 <= j < before.len() && f.admits(#[trigger] before[j]);
                    if i != j {
                        assert(before[i].key() != before[j].key());
                    }
                }
            }
            k = k + 1;
        }
        proof {
            assert(patches@.take(patches@.len() as int) =~= patches@);
        }
    }
}

} // verus!
