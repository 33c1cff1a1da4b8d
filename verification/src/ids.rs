//! What the library takes from outside crates: fresh identifiers, the
//! stylesheet hash and date parsing.
use vstd::prelude::*;

verus! {

/// Whether `c` belongs to the URL-safe alphabet of task ids:
/// `_`, `-`, digits and ASCII letters.
pub open spec fn is_url_safe_char(c: char) -> bool {
    ||| c == '_'
    ||| c == '-'
    ||| '0' <= c <= '9'
    ||| 'a' <= c <= 'z'
    ||| 'A' <= c <= 'Z'
}

/// Whether `s` has the form of a task id: 21 URL-safe characters.
pub open spec fn is_task_id(s: Seq<char>) -> bool {
    &&& s.len() == 21
    &&& forall|i: int| 0 <= i < s.len() ==> is_url_safe_char(#[trigger] s[i])
}

/// Whether `c` is a lowercase hexadecimal digit.
pub open spec fn is_lower_hex(c: char) -> bool {
    '0' <= c <= '9' || 'a' <= c <= 'f'
}

/// Whether `s` is the hyphenated lowercase text of a random (version 4,
/// RFC 4122 variant) UUID, such as `67e55044-10b1-426f-9247-bb680e5fe0c8`.
pub open spec fn is_uuid_v4_text(s: Seq<char>) -> bool {
    &&& s.len() == 36
    &&& forall|i: int|
        0 <= i < 36 ==> if i == 8 || i == 13 || i == 18 || i == 23 {
            #[trigger] s[i] == '-'
        } else {
            is_lower_hex(s[i])
        }
    &&& s[14] == '4'
    &&& (s[19] == '8' || s[19] == '9' || s[19] == 'a' || s[19] == 'b')
}

/// A fresh task id: `nanoid::format` with the default random source, the
/// URL-safe alphabet `nanoid::alphabet::SAFE` and size 21, as the
/// `nanoid!()` macro expands. The contract claims the id's length and
/// alphabet, which `format` guarantees; which id comes out is left open.
/// `format` panics only when the system gives no randomness.
#[verifier::external_body]
pub(crate) fn new_task_id() -> (id: String)
    ensures
        is_task_id(id@),
{
    nanoid::format(nanoid::rngs::default, &nanoid::alphabet::SAFE, 21)
}

/// A fresh user id: `uuid::Uuid::new_v4`, written out by its `Display`
/// impl. The contract claims the hyphenated lowercase form with the version
/// and variant bits that `new_v4` sets; which id comes out is left open.
/// `new_v4` panics only when the system gives no randomness.
#[verifier::external_body]
pub(crate) fn new_user_id() -> (id: String)
    ensures
        is_uuid_v4_text(id@),
{
    uuid::Uuid::new_v4().to_string()
}

/// The SeaHash digest of a byte string, as `seahash::hash` computes it.
pub uninterp spec fn seahash_digest(data: Seq<u8>) -> u64;

/// `seahash::hash`: the contract names its result and claims nothing more.
#[verifier::external_body]
pub(crate) fn seahash_bytes(data: &[u8]) -> (h: u64)
    ensures
        h == seahash_digest(data@),
{
    seahash::hash(data)
}

/// What `chrono::NaiveDate::parse_from_str(s, "%Y-%m-%d")` makes of `s`:
/// the date in its canonical `Display` text (`YYYY-MM-DD`, with a sign
/// for years outside 0..=9999), or `None` where parsing fails.
pub uninterp spec fn ymd_date(s: Seq<char>) -> Option<Seq<char>>;

/// `serde_with::chrono::NaiveDate::parse_from_str` with the format
/// `%Y-%m-%d`, the parsed date turned into its `Display` text. The
/// contract names the result and claims nothing more.
#[verifier::external_body]
pub(crate) fn parse_ymd_date(s: &str) -> (d: Option<String>)
    ensures
        match d {
            Some(t) => ymd_date(s@) == Some(t@),
            None => ymd_date(s@) is None,
        },
{
    match serde_with::chrono::NaiveDate::parse_from_str(s, "%Y-%m-%d") {
        Ok(date) => Some(date.to_string()),
        Err(_) => None,
    }
}

} // verus!
