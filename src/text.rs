use vstd::prelude::*;

verus! {

/// The characters that Unicode gives the `White_Space` property, which is
/// what `char::is_whitespace` tests.
pub open spec fn is_white_space(c: char) -> bool {
    ||| ('\u{9}' <= c && c <= '\u{d}')
    ||| c == ' '
    ||| c == '\u{85}'
    ||| c == '\u{a0}'
    ||| c == '\u{1680}'
    ||| ('\u{2000}' <= c && c <= '\u{200a}')
    ||| c == '\u{2028}'
    ||| c == '\u{2029}'
    ||| c == '\u{202f}'
    ||| c == '\u{205f}'
    ||| c == '\u{3000}'
}

pub open spec fn trim_start(s: Seq<char>) -> Seq<char>
    decreases s.len(),
{
    if s.len() > 0 && is_white_space(s[0]) {
        trim_start(s.drop_first())
    } else {
        s
    }
}

pub open spec fn trim_end(s: Seq<char>) -> Seq<char>
    decreases s.len(),
{
    if s.len() > 0 && is_white_space(s.last()) {
        trim_end(s.drop_last())
    } else {
        s
    }
}

/// A string without its leading and trailing white space.
pub open spec fn trimmed(s: Seq<char>) -> Seq<char> {
    trim_end(trim_start(s))
}

/// What lower-casing every character of a string gives.
pub uninterp spec fn lowercase_of(s: Seq<char>) -> Seq<char>;

/// The HTML that a Markdown text renders to.
pub uninterp spec fn markdown_html_of(s: Seq<char>) -> Seq<char>;

/// What remains of an HTML text once disallowed tags and attributes are stripped.
pub uninterp spec fn cleaned_html_of(s: Seq<char>) -> Seq<char>;

/// The stored form of user-supplied markup: rendered from Markdown to HTML,
/// then cleaned.
pub open spec fn sanitized(s: Seq<char>) -> Seq<char> {
    cleaned_html_of(markdown_html_of(s))
}

/// Relies on sanitizer's `StringSanitizer::trim`, which is `str::trim`:
/// white space is removed at both ends.
#[verifier::external_body]
fn trim_white_space(s: &str) -> (r: String)
    ensures
        r@ == trimmed(s@),
{
    let mut t = sanitizer::StringSanitizer::from(s);
    t.trim();
    t.get()
}

/// Relies on sanitizer's `StringSanitizer::to_lowercase`, which is
/// `str::to_lowercase`: the result depends on the characters alone.
#[verifier::external_body]
fn lower_case(s: &str) -> (r: String)
    ensures
        r@ == lowercase_of(s@),
{
    let mut t = sanitizer::StringSanitizer::from(s);
    t.to_lowercase();
    t.get()
}

/// Relies on pulldown-cmark's `html::push_html` over a `Parser` of the text:
/// the HTML rendering of a Markdown text, a function of the text alone.
#[verifier::external_body]
fn render_markdown(s: &str) -> (r: String)
    ensures
        r@ == markdown_html_of(s@),
{
    let mut out = String::new();
    pulldown_cmark::html::push_html(&mut out, pulldown_cmark::Parser::new(s));
    out
}

/// Relies on `ammonia::clean`: the HTML with the default allow-list applied,
/// a function of its input alone.
#[verifier::external_body]
fn clean_html(s: &str) -> (r: String)
    ensures
        r@ == cleaned_html_of(s@),
{
    ammonia::clean(s)
}

/// The sanitizer applied to excerpts and citations: renders Markdown to
/// HTML and strips everything unsafe from it.
pub fn sanitize(raw: &str) -> (r: String)
    ensures
        r@ == sanitized(raw@),
{
    let html = render_markdown(raw);
    clean_html(html.as_str())
}

pub fn is_white_space_char(c: char) -> (r: bool)
    ensures
        r == is_white_space(c),
{
    ('\u{9}' <= c && c <= '\u{d}') || c == ' ' || c == '\u{85}' || c == '\u{a0}' || c == '\u{1680}'
        || ('\u{2000}' <= c && c <= '\u{200a}') || c == '\u{2028}' || c == '\u{2029}' || c
        == '\u{202f}' || c == '\u{205f}' || c == '\u{3000}'
}

pub open spec fn is_ascii_char(c: char) -> bool {
    (c as u32) < 128
}

pub const EXCERPT_MIN: usize = 10;

pub const EXCERPT_MAX: usize = 1500;

pub const CITATION_MIN: usize = 10;

pub const CITATION_MAX: usize = 200;

pub const USERNAME_MIN: usize = 3;

pub const USERNAME_MAX: usize = 50;

/// Excerpt and citation lengths, in characters, that a submission must have.
pub open spec fn lengths_ok(excerpt: Seq<char>, citation: Seq<char>) -> bool {
    &&& EXCERPT_MIN <= excerpt.len() <= EXCERPT_MAX
    &&& CITATION_MIN <= citation.len() <= CITATION_MAX
}

/// Whether a string's length in characters lies in `[min, max]`.
pub fn length_within(s: &str, min: usize, max: usize) -> (r: bool)
    ensures
        r == (min <= s@.len() <= max),
{
    let n = s.unicode_len();
    min <= n && n <= max
}

/// A username is usable when something other than white space and
/// non-ASCII characters is left in it.
pub open spec fn username_has_content(s: Seq<char>) -> bool {
    exists|i: int| 0 <= i < s.len() && !is_white_space(#[trigger] s[i]) && is_ascii_char(s[i])
}

#[derive(Clone, Copy, Debug, PartialEq, Eq, Structural)]
pub enum ValidationError {
    InvalidUsername,
}

/// Rejects a username that holds nothing but white space and non-ASCII
/// characters.
pub fn validate_username(username: &str) -> (r: Result<(), ValidationError>)
    ensures
        r is Ok <==> username_has_content(username@),
        r matches Err(e) ==> e == ValidationError::InvalidUsername,
{
    let n = username.unicode_len();
    let mut i: usize = 0;
    while i < n
        invariant
            n == username@.len(),
            i <= n,
            forall|j: int| 0 <= j < i ==> !(!is_white_space(#[trigger] username@[j]) && is_ascii_char(username@[j])),
        decreases n - i,
    {
        let c = username.get_char(i);
        if !is_white_space_char(c) && (c as u32) < 128 {
            return Ok(());
        }
        i = i + 1;
    }
    Err(ValidationError::InvalidUsername)
}

/// The body of a new submission.
pub struct PostSubmissionForm {
    pub excerpt: String,
    pub citation: String,
}

impl PostSubmissionForm {
    /// Sanitizes both fields in place.
    pub fn sanitize(&mut self)
        ensures
            final(self).excerpt@ == sanitized(old(self).excerpt@),
            final(self).citation@ == sanitized(old(self).citation@),
    {
        self.excerpt = sanitize(self.excerpt.as_str());
        self.citation = sanitize(self.citation.as_str());
    }

    /// Whether both fields have lengths within their bounds.
    pub fn validate(&self) -> (r: bool)
        ensures
            r == lengths_ok(self.excerpt@, self.citation@),
    {
        length_within(self.excerpt.as_str(), EXCERPT_MIN, EXCERPT_MAX) && length_within(
            self.citation.as_str(),
            CITATION_MIN,
            CITATION_MAX,
        )
    }
}

/// Sanitizes a submission, then checks the lengths of what sanitizing left.
pub fn sanitize_and_validate(form: PostSubmissionForm) -> (r: Option<PostSubmissionForm>)
    ensures
        r is Some <==> lengths_ok(sanitized(form.excerpt@), sanitized(form.citation@)),
        r matches Some(f) ==> f.excerpt@ == sanitized(form.excerpt@) && f.citation@ == sanitized(
            form.citation@,
        ),
{
    let mut form = form;
    form.sanitize();
    if form.validate() {
        Some(form)
    } else {
        None
    }
}

/// The credentials of a sign-in or a sign-up.
pub struct LoginForm {
    pub username: String,
    pub password: String,
}

/// A sign-up carries the same fields as a sign-in.
pub type SignUpForm = LoginForm;

/// Whether a raw username may be used: its length and its content.
pub open spec fn username_valid(s: Seq<char>) -> bool {
    USERNAME_MIN <= s.len() <= USERNAME_MAX && username_has_content(s)
}

impl LoginForm {
    /// Checks the raw username, as the form arrived.
    pub fn validate(&self) -> (r: bool)
        ensures
            r == username_valid(self.username@),
    {
        length_within(self.username.as_str(), USERNAME_MIN, USERNAME_MAX) && validate_username(
            self.username.as_str(),
        ).is_ok()
    }

    /// Trims both fields and lower-cases the username.
    pub fn sanitize(&mut self)
        ensures
            final(self).username@ == lowercase_of(trimmed(old(self).username@)),
            final(self).password@ == trimmed(old(self).password@),
    {
        let t = trim_white_space(self.username.as_str());
        self.username = lower_case(t.as_str());
        self.password = trim_white_space(self.password.as_str());
    }

    /// Validates the raw form, then sanitizes it.
    pub fn sanitize_and_validate(self) -> (r: Option<LoginForm>)
        ensures
            r is Some <==> username_valid(self.username@),
            r matches Some(f) ==> f.username@ == lowercase_of(trimmed(self.username@))
                && f.password@ == trimmed(self.password@),
    {
        let mut form = self;
        if !form.validate() {
            return None;
        }
        form.sanitize();
        Some(form)
    }
}

} // verus!
