use excerpts::backend::{Backend, StoreError};
use excerpts::ids::UuidField;
use excerpts::model::{NewPost, NotificationContent, NotificationType, WhichNotifications};
use excerpts::moderation::{post_link, ModerationError, SubmissionError};
use excerpts::pagination::PaginationFields;
use excerpts::section::Category;
use excerpts::text::PostSubmissionForm;

const AUTHOR: u128 = 0x11;
const OTHER: u128 = 0x22;

fn form(excerpt: &str, citation: &str) -> PostSubmissionForm {
    PostSubmissionForm { excerpt: excerpt.to_string(), citation: citation.to_string() }
}

fn page(page: u32, per_page: u32) -> PaginationFields {
    PaginationFields { page, per_page }
}

fn new_post(id: u128, author: u128, category: Category) -> NewPost {
    NewPost {
        id,
        author_id: author,
        category,
        excerpt: "an excerpt of some length".to_string(),
        citation: "a citation, p. 1".to_string(),
    }
}

fn id_from_url(url: &str) -> u128 {
    let at = url.find("?id=").expect("the link names the post");
    UuidField::from_value(&url[at + 4..]).expect("a well-formed identifier").0
}

#[test]
fn submit_then_confirm_publishes_the_post() {
    let mut b = Backend::new();
    let id = b
        .new_submission(Category::Islamism, AUTHOR, "This is a sufficiently long excerpt text", "Source, p. 12")
        .expect("a valid submission is stored");
    let pending = b.get_pending_post(Category::Islamism, id).expect("the submission waits");
    assert_eq!(pending.author_id, AUTHOR);
    assert_eq!(pending.excerpt, "<p>This is a sufficiently long excerpt text</p>\n");
    assert_eq!(pending.citation, "<p>Source, p. 12</p>\n");

    let n = b
        .confirm_pending_post(Category::Islamism, id, Some("Looks good".to_string()))
        .expect("the submission is confirmed");
    assert_eq!(n.n_type(), NotificationType::Approval);
    assert_eq!(n.recipient_id, AUTHOR);
    assert!(!n.read);
    let new_id = match &n.content {
        NotificationContent::PostApproval { url, comment } => {
            assert!(url.starts_with("/posts/islamism?id="));
            assert_eq!(comment.as_deref(), Some("Looks good"));
            id_from_url(url)
        }
        NotificationContent::PostRejection { .. } => panic!("an approval was expected"),
    };
    assert_ne!(new_id, id);
    let post = b.get_post(Category::Islamism, new_id).expect("the post is published");
    assert_eq!(post.author_id, AUTHOR);
    assert_eq!(post.excerpt, pending.excerpt);
    assert_eq!(post.citation, pending.citation);
    assert_eq!(post.submitted_at, pending.submitted_at);
    assert!(b.get_pending_post(Category::Islamism, id).is_none());
    assert_eq!(b.get_section_posts(Category::Islamism, page(1, 10)).len(), 1);
    let mailbox = b.get_user_notifications(AUTHOR, WhichNotifications::All, page(1, 10));
    assert_eq!(mailbox.len(), 1);
    assert_eq!(mailbox[0].id, n.id);
}

#[test]
fn rejection_reaches_the_unread_mailbox() {
    let mut b = Backend::new();
    b.submit_with(Category::Modernity, AUTHOR, form("<p>an excerpt long enough</p>", "<p>a citation</p>"), 5, 6, 100)
        .unwrap();
    let n = b.reject_with(Category::Modernity, 5, Some("Needs more sourcing".to_string()), 77, 200).unwrap();
    assert_eq!(n.id, 77);
    assert_eq!(n.created_at, 200);
    let unread = b.get_user_notifications(AUTHOR, WhichNotifications::Unread, PaginationFields::new());
    assert_eq!(unread.len(), 1);
    assert_eq!(unread[0].n_type(), NotificationType::Rejection);
    match &unread[0].content {
        NotificationContent::PostRejection { comment, excerpt, citation } => {
            assert_eq!(comment.as_deref(), Some("Needs more sourcing"));
            assert_eq!(excerpt, "<p>an excerpt long enough</p>");
            assert_eq!(citation, "<p>a citation</p>");
        }
        NotificationContent::PostApproval { .. } => panic!("a rejection was expected"),
    }
    assert!(b.get_pending_post_by_id(5).is_none());
    assert_eq!(b.get_section_posts(Category::Modernity, PaginationFields::new()).len(), 0);
}

#[test]
fn confirm_with_given_identifiers() {
    let mut b = Backend::new();
    b.submit_with(Category::Feminism, AUTHOR, form("an excerpt long enough", "a citation!"), 1, 2, 42).unwrap();
    let n = b.confirm_with(Category::Feminism, 1, None, 0x67e5504410b1426f9247bb680e5fe0c8, 9, 50).unwrap();
    match &n.content {
        NotificationContent::PostApproval { url, comment } => {
            assert_eq!(url, "/posts/feminism?id=67e55044-10b1-426f-9247-bb680e5fe0c8");
            assert!(comment.is_none());
        }
        NotificationContent::PostRejection { .. } => panic!("an approval was expected"),
    }
    assert_eq!(n.created_at, 50);
    let post = b.get_post_by_id(0x67e5504410b1426f9247bb680e5fe0c8).unwrap();
    assert_eq!(post.category, Category::Feminism);
    assert_eq!(post.submitted_at, 42);
}

#[test]
fn missing_submission_is_not_found() {
    let mut b = Backend::new();
    b.submit_with(Category::Islamism, AUTHOR, form("an excerpt long enough", "a citation!"), 1, 2, 0).unwrap();
    assert_eq!(b.confirm_with(Category::Islamism, 3, None, 10, 11, 0).err(), Some(ModerationError::NotFound));
    assert_eq!(b.reject_with(Category::Islamism, 3, None, 11, 0).err(), Some(ModerationError::NotFound));
    // The right identifier in the wrong section is not found either.
    assert_eq!(b.confirm_with(Category::Secularism, 1, None, 10, 11, 0).err(), Some(ModerationError::NotFound));
    assert!(b.get_post_by_id(10).is_none());
    assert_eq!(b.get_user_notifications(AUTHOR, WhichNotifications::All, page(1, 10)).len(), 0);
    assert!(b.get_pending_post(Category::Islamism, 1).is_some());
}

#[test]
fn second_resolution_is_a_no_op() {
    let mut b = Backend::new();
    b.submit_with(Category::Islamism, AUTHOR, form("an excerpt long enough", "a citation!"), 1, 2, 0).unwrap();
    b.confirm_with(Category::Islamism, 1, None, 10, 11, 5).unwrap();
    assert_eq!(b.confirm_with(Category::Islamism, 1, None, 12, 13, 6).err(), Some(ModerationError::NotFound));
    assert_eq!(b.reject_with(Category::Islamism, 1, None, 14, 7).err(), Some(ModerationError::NotFound));
    assert_eq!(b.get_section_posts(Category::Islamism, page(1, 10)).len(), 1);
    assert_eq!(b.get_user_notifications(AUTHOR, WhichNotifications::All, page(1, 10)).len(), 1);
}

#[test]
fn taken_identifiers_change_nothing() {
    let mut b = Backend::new();
    b.submit_with(Category::Islamism, AUTHOR, form("an excerpt long enough", "a citation!"), 1, 2, 0).unwrap();
    b.submit_with(Category::Islamism, AUTHOR, form("another excerpt here", "a citation!"), 3, 4, 1).unwrap();
    b.confirm_with(Category::Islamism, 1, None, 10, 11, 5).unwrap();
    assert_eq!(b.confirm_with(Category::Islamism, 3, None, 10, 12, 6).err(), Some(ModerationError::Conflict));
    assert_eq!(b.confirm_with(Category::Islamism, 3, None, 13, 11, 6).err(), Some(ModerationError::Conflict));
    assert_eq!(b.reject_with(Category::Islamism, 3, None, 11, 6).err(), Some(ModerationError::Conflict));
    assert!(b.get_pending_post(Category::Islamism, 3).is_some());
}

#[test]
fn submission_retries_once_on_a_taken_identifier() {
    let mut b = Backend::new();
    assert_eq!(b.submit_with(Category::Islamism, AUTHOR, form("an excerpt long enough", "a citation!"), 1, 2, 0), Ok(1));
    assert_eq!(b.submit_with(Category::Islamism, AUTHOR, form("an excerpt long enough", "a citation!"), 1, 2, 0), Ok(2));
    assert_eq!(
        b.submit_with(Category::Islamism, AUTHOR, form("an excerpt long enough", "a citation!"), 1, 2, 0),
        Err(SubmissionError::Conflict)
    );
    assert_eq!(b.get_section_pending_posts(Category::Islamism, page(1, 10)).len(), 2);
}

#[test]
fn out_of_bounds_text_is_refused_before_storing() {
    let mut b = Backend::new();
    let long = "x".repeat(1501);
    assert_eq!(b.submit_with(Category::Islamism, AUTHOR, form("too short", "a citation!"), 1, 2, 0), Err(SubmissionError::Invalid));
    assert_eq!(b.submit_with(Category::Islamism, AUTHOR, form(&long, "a citation!"), 1, 2, 0), Err(SubmissionError::Invalid));
    assert_eq!(b.submit_with(Category::Islamism, AUTHOR, form("exactly10!", "123456789"), 1, 2, 0), Err(SubmissionError::Invalid));
    assert_eq!(b.submit_with(Category::Islamism, AUTHOR, form("exactly10!", &"c".repeat(201)), 1, 2, 0), Err(SubmissionError::Invalid));
    // Nothing is left of a script once cleaned.
    assert_eq!(
        b.new_submission(Category::Islamism, AUTHOR, "<script>alert(1)</script>", "Source, p. 12"),
        Err(SubmissionError::Invalid)
    );
    assert_eq!(b.new_submission(Category::Islamism, AUTHOR, "", "Source, p. 12"), Err(SubmissionError::Invalid));
    assert!(b.get_pending_post_by_id(1).is_none());
    assert_eq!(b.get_user_pending_posts(AUTHOR, page(1, 10)).len(), 0);
    assert_eq!(b.submit_with(Category::Islamism, AUTHOR, form("exactly10!", "1234567890"), 1, 2, 0), Ok(1));
    let max = "y".repeat(1500);
    assert_eq!(b.submit_with(Category::Islamism, AUTHOR, form(&max, &"c".repeat(200)), 3, 4, 0), Ok(3));
}

#[test]
fn listings_are_newest_first_and_paged() {
    let mut b = Backend::new();
    for (id, t) in [(1u128, 5i64), (2, 10), (3, 7), (4, 1), (5, 12)] {
        b.create_post(new_post(id, AUTHOR, Category::Secularism), t).unwrap();
    }
    b.create_post(new_post(6, OTHER, Category::Secularism), 8).unwrap();
    b.create_post(new_post(7, AUTHOR, Category::Modernity), 9).unwrap();
    let all: Vec<i64> = b.get_section_posts(Category::Secularism, page(1, 10)).iter().map(|p| p.submitted_at).collect();
    assert_eq!(all, vec![12, 10, 8, 7, 5, 1]);
    let second: Vec<u128> = b.get_section_posts(Category::Secularism, page(2, 2)).iter().map(|p| p.id).collect();
    assert_eq!(second, vec![6, 3]);
    let beyond = b.get_section_posts(Category::Secularism, page(5, 2));
    assert!(beyond.is_empty());
    let mine: Vec<u128> = b.get_user_posts(AUTHOR, page(1, 10)).iter().map(|p| p.id).collect();
    assert_eq!(mine, vec![5, 2, 7, 3, 1, 4]);
    let mine_here: Vec<u128> =
        b.get_user_posts_in_section(Category::Modernity, AUTHOR, page(1, 10)).iter().map(|p| p.id).collect();
    assert_eq!(mine_here, vec![7]);
    assert_eq!(b.create_post(new_post(2, AUTHOR, Category::Feminism), 3).err(), Some(StoreError::Conflict));
}

#[test]
fn removing_posts_counts_rows() {
    let mut b = Backend::new();
    b.create_post(new_post(1, AUTHOR, Category::Islamism), 0).unwrap();
    assert_eq!(b.remove_post(Category::Modernity, 1), 0);
    assert_eq!(b.remove_post(Category::Islamism, 1), 1);
    assert_eq!(b.remove_post(Category::Islamism, 1), 0);
    assert!(b.get_post(Category::Islamism, 1).is_none());
    b.create_pending_post(new_post(2, AUTHOR, Category::Islamism), 0).unwrap();
    assert_eq!(b.create_pending_post(new_post(2, OTHER, Category::Modernity), 0).err(), Some(StoreError::Conflict));
    assert_eq!(b.remove_pending_post(Category::Islamism, 2), 1);
    assert_eq!(b.remove_pending_post(Category::Islamism, 2), 0);
}

#[test]
fn get_and_remove_takes_the_submission() {
    let mut b = Backend::new();
    b.create_pending_post(new_post(2, AUTHOR, Category::Feminism), 4).unwrap();
    assert!(b.get_and_remove_pending_post(Category::Islamism, 2).is_none());
    let p = b.get_and_remove_pending_post(Category::Feminism, 2).unwrap();
    assert_eq!(p.author_id, AUTHOR);
    assert_eq!(p.submitted_at, 4);
    assert!(b.get_pending_post_by_id(2).is_none());
}

#[test]
fn pending_listings_filter_by_author_and_section() {
    let mut b = Backend::new();
    b.create_pending_post(new_post(1, AUTHOR, Category::Islamism), 1).unwrap();
    b.create_pending_post(new_post(2, OTHER, Category::Islamism), 2).unwrap();
    b.create_pending_post(new_post(3, AUTHOR, Category::Feminism), 3).unwrap();
    let ids = |v: Vec<excerpts::model::Post>| v.iter().map(|p| p.id).collect::<Vec<u128>>();
    assert_eq!(ids(b.get_section_pending_posts(Category::Islamism, page(1, 10))), vec![2, 1]);
    assert_eq!(ids(b.get_user_pending_posts(AUTHOR, page(1, 10))), vec![3, 1]);
    assert_eq!(ids(b.get_user_pending_posts_in_section(Category::Islamism, AUTHOR, page(1, 10))), vec![1]);
}

#[test]
fn post_links_name_section_and_identifier() {
    assert_eq!(post_link(Category::Modernity, 1), "/posts/modernity?id=00000000-0000-0000-0000-000000000001");
}
