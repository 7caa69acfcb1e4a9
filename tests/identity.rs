use excerpts::auth::{AccessError, AccountError, AuthError, AuthHeader, AuthLevel, Claims};
use excerpts::backend::Backend;
use excerpts::ids::{uuid_string, UuidField};
use excerpts::model::NewPost;
use excerpts::section::Category;
use excerpts::text::LoginForm;

fn login(username: &str, password: &str) -> LoginForm {
    LoginForm { username: username.to_string(), password: password.to_string() }
}

#[test]
fn identifiers_print_hyphenated() {
    assert_eq!(uuid_string(0x67e5504410b1426f9247bb680e5fe0c8), "67e55044-10b1-426f-9247-bb680e5fe0c8");
    assert_eq!(uuid_string(0), "00000000-0000-0000-0000-000000000000");
}

#[test]
fn identifiers_read_from_form_fields() {
    assert_eq!(
        UuidField::from_value(" 67e55044-10b1-426f-9247-bb680e5fe0c8\n"),
        Some(UuidField(0x67e5504410b1426f9247bb680e5fe0c8))
    );
    assert_eq!(
        UuidField::from_value("67e5504410b1426f9247bb680e5fe0c8"),
        Some(UuidField(0x67e5504410b1426f9247bb680e5fe0c8))
    );
    assert_eq!(UuidField::from_value("not an id"), None);
    assert_eq!(UuidField::from_value(""), None);
}

#[test]
fn sections_parse_without_case() {
    assert_eq!(Category::from_param("islamism"), Some(Category::Islamism));
    assert_eq!(Category::from_param("FeMiNiSm"), Some(Category::Feminism));
    assert_eq!(Category::from_param("Secularism"), Some(Category::Secularism));
    assert_eq!(Category::from_param("modernity "), None);
    assert_eq!(Category::from_param(""), None);
    assert_eq!(Category::Modernity.to_string(), "Modernity");
    assert_eq!(Category::Islamism.slug(), "islamism");
    assert_eq!(Category::all().len(), 4);
}

#[test]
fn bearer_prefix_is_removed() {
    let h = AuthHeader::from_request(Some("Bearer abc.def"), AuthLevel::User).ok().unwrap();
    assert_eq!(h.token, "abc.def");
    let h = AuthHeader::from_request(Some("abc"), AuthLevel::User).ok().unwrap();
    assert_eq!(h.token, "abc");
    let h = AuthHeader::from_request(Some("Bearer Bearer x"), AuthLevel::User).ok().unwrap();
    assert_eq!(h.token, "x");
    assert_eq!(AuthHeader::from_request(None, AuthLevel::User).err(), Some(AuthError::Unauthorized));
}

#[test]
fn admin_tier_needs_the_admin_flag() {
    let user = Claims { sub: 1, exp: 100, admin: false };
    let admin = Claims { sub: 2, exp: 100, admin: true };
    let h = AuthHeader { token: "t".to_string(), level: AuthLevel::Admin };
    assert_eq!(h.verify(Some(user)), Err(AuthError::Unauthorized));
    assert_eq!(h.verify(Some(admin)), Ok(admin));
    assert_eq!(h.verify(None), Err(AuthError::Unauthorized));
    let h = AuthHeader { token: "t".to_string(), level: AuthLevel::User };
    assert_eq!(h.verify(Some(user)), Ok(user));
}

#[test]
fn credentials_expire_after_six_hours() {
    assert_eq!(Claims::issue(7, true, 1_000), Some(Claims { sub: 7, exp: 22_600, admin: true }));
    assert_eq!(Claims::issue(7, false, i64::MAX), None);
    assert_eq!(Claims::issue(7, false, -21_601), None);
}

#[test]
fn sign_up_then_sign_in() {
    let mut b = Backend::new();
    assert_eq!(b.sign_up_with(login(" Alice ", "pw"), 5), Ok(5));
    assert_eq!(b.sign_up_with(login("alice", "other"), 6), Err(AccountError::Taken));
    assert_eq!(b.sign_up_with(login("bob", "pw"), 5), Err(AccountError::Taken));
    assert_eq!(b.sign_up_with(login("x", "pw"), 7), Err(AccountError::BadRequest));
    let u = b.sign_in(login("ALICE", " pw ")).ok().expect("the credentials match");
    assert_eq!(u.id, 5);
    assert!(!u.admin);
    assert_eq!(b.sign_in(login("alice", "wrong")).err(), Some(AccountError::Unauthorized));
    assert_eq!(b.sign_in(login("carol", "pw")).err(), Some(AccountError::Unauthorized));
    assert_eq!(b.sign_in(login("  ", "pw")).err(), Some(AccountError::BadRequest));
    assert!(b.get_user_uid(5).is_some());
    assert!(b.get_user("alice").is_some());
    assert!(b.sign_up(login("dave", "pw")).is_ok());
}

#[test]
fn only_author_or_admin_may_attach() {
    let mut b = Backend::new();
    b.create_pending_post(
        NewPost {
            id: 3,
            author_id: 1,
            category: Category::Islamism,
            excerpt: "an excerpt".to_string(),
            citation: "a citation".to_string(),
        },
        0,
    )
    .unwrap();
    let author = Claims { sub: 1, exp: 0, admin: false };
    let stranger = Claims { sub: 2, exp: 0, admin: false };
    let admin = Claims { sub: 9, exp: 0, admin: true };
    assert_eq!(b.attachment_allowed(&author, 3), Ok(()));
    assert_eq!(b.attachment_allowed(&admin, 3), Ok(()));
    assert_eq!(b.attachment_allowed(&stranger, 3), Err(AccessError::Unauthorized));
    assert_eq!(b.attachment_allowed(&admin, 4), Err(AccessError::NotFound));
}
