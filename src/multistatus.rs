//! The typed shape of a WebDAV multistatus reply. The envelope is the same
//! for every query; only the property payload `T` changes.
use vstd::prelude::*;
use vstd::string::*;

use crate::card::{CardError, Timestamp};

verus! {

/// The responses of a multistatus reply, in document order.
#[derive(Debug)]
pub struct Multistatus<T> {
    pub responses: Vec<Response<T>>,
}

/// The result for one resource.
#[derive(Debug)]
pub struct Response<T> {
    pub href: Href,
    pub propstat: Propstat<T>,
}

/// The properties found for a resource, with the status line that came with them.
#[derive(Debug)]
pub struct Propstat<T> {
    pub prop: T,
    pub status: Option<Status>,
}

#[derive(Clone, Debug)]
pub struct Href {
    pub value: String,
}

/// An HTTP status line, such as `HTTP/1.1 200 OK`.
#[derive(Clone, Debug)]
pub struct Status {
    pub value: String,
}

/// A collection's change tag.
#[derive(Clone, Debug)]
pub struct Ctag {
    pub value: String,
}

/// A resource's entity tag.
#[derive(Clone, Debug)]
pub struct Etag {
    pub value: String,
}

/// The last modification time of a resource.
#[derive(Clone, Copy, Debug)]
pub struct LastModified {
    pub value: Timestamp,
}

#[derive(Debug)]
pub struct CurrentUserPrincipalProp {
    pub current_user_principal: CurrentUserPrincipal,
}

#[derive(Debug)]
pub struct CurrentUserPrincipal {
    pub href: Href,
}

#[derive(Debug)]
pub struct AddressbookHomeSetProp {
    pub addressbook_home_set: AddressbookHomeSet,
}

#[derive(Debug)]
pub struct AddressbookHomeSet {
    pub href: Href,
}

#[derive(Debug)]
pub struct AddressbookProp {
    pub resourcetype: AddressbookResourceType,
}

/// The resource type of a collection: the marker is there when the
/// collection is an addressbook.
#[derive(Debug)]
pub struct AddressbookResourceType {
    pub addressbook: Option<Addressbook>,
}

#[derive(Clone, Copy, Debug)]
pub struct Addressbook {}

#[derive(Debug)]
pub struct AddressDataProp {
    pub address_data: AddressData,
    pub getetag: Etag,
    pub getlastmodified: LastModified,
}

/// The vCard text of a resource.
#[derive(Clone, Debug)]
pub struct AddressData {
    pub value: String,
}

#[derive(Debug)]
pub struct CtagProp {
    pub getctag: Ctag,
}

/// The UTC instant that an RFC 2822 date-time denotes, as seconds since the
/// epoch and nanoseconds; none where the text is not such a date-time.
pub uninterp spec fn rfc2822_instant(s: Seq<char>) -> Option<(i64, u32)>;

/// Relies on chrono's `DateTime::parse_from_rfc2822`, whose result is taken to
/// UTC by `timestamp` and `timestamp_subsec_nanos`; a leap second gives at most
/// 1_999_999_999 nanoseconds.
#[verifier::external_body]
fn parse_rfc2822(s: &str) -> (r: Option<(i64, u32)>)
    ensures
        r == rfc2822_instant(s@),
        r matches Some(p) ==> p.1 < crate::card::NANOS_LIMIT,
{
    chrono::DateTime::parse_from_rfc2822(s).ok().map(|d| (d.timestamp(), d.timestamp_subsec_nanos()))
}

pub open spec fn last_modified_context() -> Seq<char> {
    "last modification date"@
}

impl LastModified {
    /// The value for a parsed date-time, or a parse error where there is none.
    pub fn from_instant(instant: Option<(i64, u32)>) -> (r: Result<LastModified, CardError>)
        ensures
            match instant {
                Some(p) if p.1 < crate::card::NANOS_LIMIT => r matches Ok(m)
                    && m.value.secs == p.0 && m.value.nanos == p.1,
                _ => r matches Err(CardError::Parse { context })
                    && context@ == last_modified_context(),
            },
            r matches Ok(m) ==> m.value.wf(),
    {
        match instant {
            Some((secs, nanos)) => match Timestamp::new(secs, nanos) {
                Some(t) => Ok(LastModified { value: t }),
                None => Err(CardError::Parse { context: String::from_str("last modification date") }),
            },
            None => Err(CardError::Parse { context: String::from_str("last modification date") }),
        }
    }

    /// Decodes the text of a last-modified element, an RFC 2822 date-time.
    pub fn parse(text: &str) -> (r: Result<LastModified, CardError>)
        ensures
            r is Ok <==> rfc2822_instant(text@) is Some,
            r matches Ok(m) ==> Some((m.value.secs, m.value.nanos)) == rfc2822_instant(text@)
                && m.value.wf(),
            r matches Err(e) ==> e matches CardError::Parse { context }
                && context@ == last_modified_context(),
    {
        LastModified::from_instant(parse_rfc2822(text))
    }
}

/// `s` ends with `suffix`.
pub open spec fn ends_with(s: Seq<char>, suffix: Seq<char>) -> bool {
    suffix.len() <= s.len() && s.subrange(s.len() - suffix.len(), s.len() as int) == suffix
}

/// Tells whether `s` ends with `suffix`.
pub fn str_ends_with(s: &str, suffix: &str) -> (r: bool)
    ensures
        r == ends_with(s@, suffix@),
{
    let n = s.unicode_len();
    let m = suffix.unicode_len();
    if m > n {
        return false;
    }
    let off: usize = n - m;
    let mut i: usize = 0;
    while i < m
        invariant
            n == s@.len(),
            m == suffix@.len(),
            off == n - m,
            i <= m,
            forall|j: int| 0 <= j < i ==> s@[off + j] == suffix@[j],
        decreases m - i,
    {
        if s.get_char(off + i) != suffix.get_char(i) {
            assert(s@.subrange(off as int, n as int)[i as int] != suffix@[i as int]);
            return false;
        }
        i = i + 1;
    }
    assert(s@.subrange(off as int, n as int) =~= suffix@);
    true
}

} // verus!
