use vstd::prelude::*;

verus! {

/// The fixed set of topical sections that every post belongs to.
#[derive(Clone, Copy, Debug, PartialEq, Eq, Structural)]
pub enum Category {
    Islamism,
    Modernity,
    Secularism,
    Feminism,
}

/// The section type under the name that routes use for it.
pub type Sections = Category;

/// The display name of a section ("Islamism").
pub open spec fn category_name(c: Category) -> Seq<char> {
    match c {
        Category::Islamism => "Islamism"@,
        Category::Modernity => "Modernity"@,
        Category::Secularism => "Secularism"@,
        Category::Feminism => "Feminism"@,
    }
}

/// The lower-case path segment of a section ("islamism").
pub open spec fn category_slug(c: Category) -> Seq<char> {
    match c {
        Category::Islamism => "islamism"@,
        Category::Modernity => "modernity"@,
        Category::Secularism => "secularism"@,
        Category::Feminism => "feminism"@,
    }
}

/// A character code with ASCII upper-case letters folded to lower case.
pub open spec fn ascii_fold(c: char) -> u32 {
    if 'A' <= c && c <= 'Z' {
        ((c as u32) + 32) as u32
    } else {
        c as u32
    }
}

/// Two strings are equal when ASCII letters are compared without case.
pub open spec fn eq_ignore_ascii_case(a: Seq<char>, b: Seq<char>) -> bool {
    &&& a.len() == b.len()
    &&& forall|i: int| 0 <= i < a.len() ==> #[trigger] ascii_fold(a[i]) == ascii_fold(b[i])
}

/// The section that a path parameter names, ASCII letters taken in either case.
pub open spec fn parse_category(s: Seq<char>) -> Option<Category> {
    if eq_ignore_ascii_case(s, category_slug(Category::Islamism)) {
        Some(Category::Islamism)
    } else if eq_ignore_ascii_case(s, category_slug(Category::Modernity)) {
        Some(Category::Modernity)
    } else if eq_ignore_ascii_case(s, category_slug(Category::Secularism)) {
        Some(Category::Secularism)
    } else if eq_ignore_ascii_case(s, category_slug(Category::Feminism)) {
        Some(Category::Feminism)
    } else {
        None
    }
}

fn fold_char(c: char) -> (r: u32)
    ensures
        r == ascii_fold(c),
{
    if 'A' <= c && c <= 'Z' {
        (c as u32) + 32
    } else {
        c as u32
    }
}

fn same_ignoring_ascii_case(a: &str, b: &str) -> (r: bool)
    ensures
        r == eq_ignore_ascii_case(a@, b@),
{
    let n = a.unicode_len();
    if n != b.unicode_len() {
        return false;
    }
    let mut i: usize = 0;
    while i < n
        invariant
            n == a@.len(),
            n == b@.len(),
            i <= n,
            forall|j: int| 0 <= j < i ==> #[trigger] ascii_fold(a@[j]) == ascii_fold(b@[j]),
        decreases n - i,
    {
        if fold_char(a.get_char(i)) != fold_char(b.get_char(i)) {
            return false;
        }
        i = i + 1;
    }
    true
}

impl Category {
    /// Every section, in their fixed order.
    pub fn all() -> (r: [Category; 4])
        ensures
            r@ == seq![Category::Islamism, Category::Modernity, Category::Secularism, Category::Feminism],
    {
        let r = [Category::Islamism, Category::Modernity, Category::Secularism, Category::Feminism];
        assert(r@ =~= seq![Category::Islamism, Category::Modernity, Category::Secularism, Category::Feminism]);
        r
    }

    pub fn name(&self) -> (r: &'static str)
        ensures
            r@ == category_name(*self),
    {
        match self {
            Category::Islamism => "Islamism",
            Category::Modernity => "Modernity",
            Category::Secularism => "Secularism",
            Category::Feminism => "Feminism",
        }
    }

    /// The display name as an owned string.
    pub fn to_string(&self) -> (r: String)
        ensures
            r@ == category_name(*self),
    {
        String::from_str(self.name())
    }

    /// The lower-case path segment, as used in links to a post.
    pub fn slug(&self) -> (r: &'static str)
        ensures
            r@ == category_slug(*self),
    {
        match self {
            Category::Islamism => "islamism",
            Category::Modernity => "modernity",
            Category::Secularism => "secularism",
            Category::Feminism => "feminism",
        }
    }

    /// Reads a section from a path parameter; ASCII letters match in either case.
    pub fn from_param(param: &str) -> (r: Option<Category>)
        ensures
            r == parse_category(param@),
    {
        if same_ignoring_ascii_case(param, "islamism") {
            Some(Category::Islamism)
        } else if same_ignoring_ascii_case(param, "modernity") {
            Some(Category::Modernity)
        } else if same_ignoring_ascii_case(param, "secularism") {
            Some(Category::Secularism)
        } else if same_ignoring_ascii_case(param, "feminism") {
            Some(Category::Feminism)
        } else {
            None
        }
    }
}

} // verus!
