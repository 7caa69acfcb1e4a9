use vstd::prelude::*;
use crate::text::{is_ascii_char, is_white_space, is_white_space_char};

verus! {

/// The sixteen lower-case hexadecimal digits.
pub open spec fn hex_digits() -> Seq<char> {
    seq!['0', '1', '2', '3', '4', '5', '6', '7', '8', '9', 'a', 'b', 'c', 'd', 'e', 'f']
}

/// The `k`-th of the 32 hexadecimal digits of an identifier, most
/// significant first.
pub open spec fn nibble(v: u128, k: int) -> int {
    ((v as int) / vstd::arithmetic::power::pow(16, (31 - k) as nat)) % 16
}

/// Which hexadecimal digit stands at position `i` of the hyphenated form.
pub open spec fn digit_at(i: int) -> int {
    if i < 8 {
        i
    } else if i < 13 {
        i - 1
    } else if i < 18 {
        i - 2
    } else if i < 23 {
        i - 3
    } else {
        i - 4
    }
}

/// The hyphenated lower-case text of an identifier, in groups of 8, 4, 4, 4
/// and 12 digits ("67e55044-10b1-426f-9247-bb680e5fe0c8").
pub open spec fn uuid_text(v: u128) -> Seq<char> {
    Seq::new(
        36,
        |i: int|
            if i == 8 || i == 13 || i == 18 || i == 23 {
                '-'
            } else {
                hex_digits()[nibble(v, digit_at(i))]
            },
    )
}

/// The identifier that a text denotes, if any.
pub uninterp spec fn uuid_parsed(s: Seq<char>) -> Option<u128>;

/// Relies on `uuid::Uuid::new_v4`: a random identifier. Nothing is known of
/// its value.
#[verifier::external_body]
pub(crate) fn fresh_id() -> (r: u128) {
    uuid::Uuid::new_v4().as_u128()
}

/// Relies on uuid's `Display` for `Uuid` (its hyphenated lower-case form),
/// on the identifier built by `Uuid::from_u128`, whose bytes are the
/// integer's, most significant first.
#[verifier::external_body]
pub fn uuid_string(v: u128) -> (r: String)
    ensures
        r@ == uuid_text(v),
{
    uuid::Uuid::from_u128(v).to_string()
}

/// Relies on `uuid::Uuid::parse_str`, which reads every form that uuid
/// writes, the hyphenated one among them.
#[verifier::external_body]
fn parse_uuid(s: &str) -> (r: Option<u128>)
    ensures
        r == uuid_parsed(s@),
        forall|v: u128| s@ == uuid_text(v) ==> r == Some(v),
{
    match uuid::Uuid::parse_str(s) {
        Ok(u) => Some(u.as_u128()),
        Err(_) => None,
    }
}

/// The characters of a string that are ASCII and not white space, in order.
pub open spec fn kept_chars(s: Seq<char>) -> Seq<char> {
    s.filter(|c: char| !is_white_space(c) && is_ascii_char(c))
}

/// Removes white space and non-ASCII characters.
pub fn strip_to_ascii(s: &str) -> (r: String)
    ensures
        r@ == kept_chars(s@),
{
    let n = s.unicode_len();
    let mut out = String::new();
    let mut i: usize = 0;
    while i < n
        invariant
            n == s@.len(),
            i <= n,
            out@ == kept_chars(s@.take(i as int)),
        decreases n - i,
    {
        let c = s.get_char(i);
        proof {
            assert(s@.take(i + 1).drop_last() =~= s@.take(i as int));
            reveal(Seq::filter);
        }
        if !is_white_space_char(c) && (c as u32) < 128 {
            let piece = s.substring_char(i, i + 1);
            proof {
                assert(piece@ =~= seq![c]);
            }
            out.append(piece);
        }
        i = i + 1;
    }
    proof {
        assert(s@.take(n as int) =~= s@);
    }
    out
}

/// An identifier read from a form field.
#[derive(Clone, Copy, Debug, PartialEq, Eq, Structural)]
pub struct UuidField(pub u128);

impl UuidField {
    /// Reads an identifier after dropping white space and non-ASCII
    /// characters from the field.
    pub fn from_value(value: &str) -> (r: Option<UuidField>)
        ensures
            r == (match uuid_parsed(kept_chars(value@)) {
                Some(v) => Some(UuidField(v)),
                None => None,
            }),
    {
        let kept = strip_to_ascii(value);
        match parse_uuid(kept.as_str()) {
            Some(v) => Some(UuidField(v)),
            None => None,
        }
    }
}

/// Relies on chrono's `Utc::now().timestamp()`: the seconds since the Unix
/// epoch at the moment of the call. Nothing is known of its value.
#[verifier::external_body]
pub(crate) fn now_seconds() -> (r: i64) {
    chrono::Utc::now().timestamp()
}

} // verus!
