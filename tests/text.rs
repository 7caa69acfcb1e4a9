use excerpts::text::{sanitize, sanitize_and_validate, validate_username, LoginForm, PostSubmissionForm, ValidationError};

#[test]
fn markdown_becomes_clean_html() {
    assert_eq!(sanitize("  This is a sufficiently long excerpt text"), "<p>This is a sufficiently long excerpt text</p>\n");
    assert_eq!(sanitize("**bold**"), "<p><strong>bold</strong></p>\n");
    assert_eq!(sanitize(""), "");
}

#[test]
fn unsafe_markup_is_stripped() {
    let out = sanitize("Hello <script>alert(1)</script> world");
    assert!(!out.contains("script"));
    assert!(out.contains("Hello"));
    let out = sanitize("<a href=\"x\" onclick=\"steal()\">link</a>");
    assert!(!out.contains("onclick"));
}

#[test]
fn sanitizing_twice_changes_nothing_here() {
    for raw in ["This is a sufficiently long excerpt text", "Source, p. 12", "*emphasis* and `code`", "a <b>bold</b> move"] {
        let once = sanitize(raw);
        assert_eq!(sanitize(&once), once);
    }
}

#[test]
fn sanitize_then_validate_checks_sanitized_lengths() {
    let ok = sanitize_and_validate(PostSubmissionForm {
        excerpt: "This is a sufficiently long excerpt text".to_string(),
        citation: "Source, p. 12".to_string(),
    })
    .expect("within bounds");
    assert_eq!(ok.excerpt, "<p>This is a sufficiently long excerpt text</p>\n");
    assert_eq!(ok.citation, "<p>Source, p. 12</p>\n");
    // Sanitizing makes "abc" long enough ("<p>abc</p>\n" has eleven characters).
    assert!(sanitize_and_validate(PostSubmissionForm { excerpt: "abc".to_string(), citation: "abc".to_string() }).is_some());
    // Nothing but a script: empty once cleaned.
    assert!(sanitize_and_validate(PostSubmissionForm {
        excerpt: "<script>alert(1)</script>".to_string(),
        citation: "Source, p. 12".to_string(),
    })
    .is_none());
    assert!(sanitize_and_validate(PostSubmissionForm {
        excerpt: "This is a sufficiently long excerpt text".to_string(),
        citation: "c".repeat(300),
    })
    .is_none());
}

#[test]
fn usernames_need_visible_ascii() {
    assert_eq!(validate_username("alice"), Ok(()));
    assert_eq!(validate_username(" \t "), Err(ValidationError::InvalidUsername));
    assert_eq!(validate_username("éé"), Err(ValidationError::InvalidUsername));
    assert_eq!(validate_username(""), Err(ValidationError::InvalidUsername));
}

#[test]
fn login_forms_are_validated_then_sanitized() {
    let f = LoginForm { username: "  Alice ".to_string(), password: " secret ".to_string() }
        .sanitize_and_validate()
        .expect("a valid username");
    assert_eq!(f.username, "alice");
    assert_eq!(f.password, "secret");
    assert!(LoginForm { username: "ab".to_string(), password: "p".to_string() }.sanitize_and_validate().is_none());
    assert!(LoginForm { username: "a".repeat(51), password: "p".to_string() }.sanitize_and_validate().is_none());
    assert!(LoginForm { username: "a".repeat(50), password: "p".to_string() }.sanitize_and_validate().is_some());
    assert!(LoginForm { username: "   ".to_string(), password: "p".to_string() }.sanitize_and_validate().is_none());
}
