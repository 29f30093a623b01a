use vstd::prelude::*;

use crate::error::ClipError;
use crate::field::{Content, Expires, Hits, Password, Posted, ShortCode, Title};
use crate::model;
use crate::time::Time;

verus! {

/// What uuid reads from `s`: the UUID's 128 bits, or nothing where `s` is
/// not a UUID in one of the forms uuid accepts.
pub uninterp spec fn uuid_value(s: Seq<char>) -> Option<u128>;

/// How uuid writes the UUID with bits `v`: hyphenated, lower-case hex.
pub uninterp spec fn uuid_text(v: u128) -> Seq<char>;

/// Relies on `uuid::Uuid::new_v4`: a random version 4 UUID.
#[verifier::external_body]
fn random_uuid() -> (r: u128) {
    uuid::Uuid::new_v4().as_u128()
}

/// Relies on `uuid::Uuid::parse_str`, read as the UUID's 128 bits.
#[verifier::external_body]
fn parse_uuid(s: &str) -> (r: Result<u128, uuid::Error>)
    ensures
        r is Ok <==> uuid_value(s@) is Some,
        r matches Ok(v) ==> uuid_value(s@) == Some(v),
{
    uuid::Uuid::parse_str(s).map(|u| u.as_u128())
}

/// Relies on uuid's `Display for Uuid`: the hyphenated text of a UUID.
#[verifier::external_body]
fn uuid_string(v: u128) -> (r: String)
    ensures
        r@ == uuid_text(v),
{
    uuid::Uuid::from_u128(v).to_string()
}

/// Relies on `TryFrom<i64> for u64`, which accepts exactly the values that
/// are not negative.
#[verifier::external_body]
fn count_from(n: i64) -> (r: Result<u64, std::num::TryFromIntError>)
    ensures
        r is Ok <==> n >= 0,
        r matches Ok(v) ==> v == n,
{
    u64::try_from(n)
}

/// A database identifier: a UUID, held as its 128 bits.
#[derive(Debug, Clone, Copy, PartialEq, Eq, Structural)]
pub struct DbId(u128);

impl View for DbId {
    type V = u128;

    closed spec fn view(&self) -> u128 {
        self.0
    }
}

impl DbId {
    /// A fresh random identifier.
    pub fn new() -> (r: DbId) {
        DbId(random_uuid())
    }

    /// The nil UUID, all of whose bits are zero.
    pub fn nil() -> (r: DbId)
        ensures
            r@ == 0,
    {
        DbId(0)
    }

    /// Reads an identifier written as a UUID.
    pub fn parse(id: &str) -> (r: Result<DbId, uuid::Error>)
        ensures
            r is Ok <==> uuid_value(id@) is Some,
            r matches Ok(d) ==> uuid_value(id@) == Some(d@),
    {
        match parse_uuid(id) {
            Ok(v) => Ok(DbId(v)),
            Err(e) => Err(e),
        }
    }

    /// The identifier written as a hyphenated UUID.
    pub fn to_text(&self) -> (r: String)
        ensures
            r@ == uuid_text(self@),
    {
        uuid_string(self.0)
    }
}

impl Default for DbId {
    fn default() -> (r: Self) {
        DbId::new()
    }
}

impl std::str::FromStr for DbId {
    type Err = uuid::Error;

    fn from_str(id: &str) -> Result<DbId, uuid::Error> {
        DbId::parse(id)
    }
}

impl From<DbId> for String {
    fn from(id: DbId) -> (r: String) {
        id.to_text()
    }
}

impl vstd::std_specs::convert::FromSpecImpl<DbId> for String {
    open spec fn obeys_from_spec() -> bool {
        false
    }

    open spec fn from_spec(id: DbId) -> String {
        vstd::pervasive::arbitrary()
    }
}

/// The identifier of a clip.
#[derive(Debug, Clone, Copy, PartialEq, Eq, Structural)]
pub struct ClipId(DbId);

impl View for ClipId {
    type V = u128;

    closed spec fn view(&self) -> u128 {
        self.0@
    }
}

impl ClipId {
    pub fn new(id: DbId) -> (r: ClipId)
        ensures
            r@ == id@,
    {
        ClipId(id)
    }

    pub fn into_inner(self) -> (r: DbId)
        ensures
            r@ == self@,
    {
        self.0
    }
}

impl From<DbId> for ClipId {
    fn from(id: DbId) -> (r: ClipId) {
        ClipId(id)
    }
}

impl vstd::std_specs::convert::FromSpecImpl<DbId> for ClipId {
    open spec fn obeys_from_spec() -> bool {
        true
    }

    closed spec fn from_spec(id: DbId) -> ClipId {
        ClipId(id)
    }
}

impl Default for ClipId {
    fn default() -> (r: Self)
        ensures
            r@ == 0,
    {
        ClipId(DbId::nil())
    }
}

/// A clip, every field of it valid.
#[derive(Debug)]
pub struct Clip {
    pub clip_id: ClipId,
    pub shortcode: ShortCode,
    pub content: Content,
    pub title: Title,
    pub posted: Posted,
    pub expires: Expires,
    pub password: Password,
    pub hits: Hits,
}

impl Clone for Clip {
    fn clone(&self) -> (r: Self)
        ensures
            r.clip_id == self.clip_id,
            r.shortcode@ == self.shortcode@,
            r.content@ == self.content@,
            r.title@ == self.title@,
            r.posted == self.posted,
            r.expires == self.expires,
            r.password@ == self.password@,
            r.hits == self.hits,
    {
        Clip {
            clip_id: self.clip_id,
            shortcode: self.shortcode.clone(),
            content: self.content.clone(),
            title: self.title.clone(),
            posted: self.posted,
            expires: self.expires,
            password: self.password.clone(),
            hits: self.hits,
        }
    }
}

impl Clip {
    /// The clip that a stored record describes. The record is refused where
    /// its identifier is not a UUID, its content is blank, or its hit count
    /// is negative, checked in that order.
    pub fn from_record(record: model::Clip) -> (r: Result<Clip, ClipError>)
        ensures
            r is Ok <==> (uuid_value(record.clip_id@) is Some && !crate::text::is_blank(
                record.content@,
            ) && record.hits >= 0),
            uuid_value(record.clip_id@) is None ==> (r matches Err(e) && e is Id),
            uuid_value(record.clip_id@) is Some && crate::text::is_blank(record.content@) ==> (
            r matches Err(e) && e == ClipError::EmptyContent),
            uuid_value(record.clip_id@) is Some && !crate::text::is_blank(record.content@)
                && record.hits < 0 ==> (r matches Err(e) && e is Hits),
            r matches Ok(c) ==> {
                &&& Some(c.clip_id@) == uuid_value(record.clip_id@)
                &&& c.shortcode@ == record.shortcode@
                &&& c.content@ == record.content@
                &&& c.title@ == crate::field::non_blank(crate::field::opt_text(record.title))
                &&& c.posted.into_time()@ == record.posted
                &&& c.expires@ == record.expires
                &&& c.password@ == crate::field::non_blank(crate::field::opt_text(record.password))
                &&& c.hits@ == record.hits
            },
    {
        let id = match DbId::parse(record.clip_id.as_str()) {
            Ok(id) => id,
            Err(e) => {
                return Err(ClipError::Id(e));
            },
        };
        let content = match Content::new(record.content.as_str()) {
            Ok(c) => c,
            Err(e) => {
                return Err(e);
            },
        };
        let password = match Password::new(record.password) {
            Ok(p) => p,
            Err(e) => {
                return Err(e);
            },
        };
        let hits = match count_from(record.hits) {
            Ok(h) => h,
            Err(e) => {
                return Err(ClipError::Hits(e));
            },
        };
        let expires = match record.expires {
            Some(t) => Expires::new(Some(Time::from_seconds(t))),
            None => Expires::new(None),
        };
        Ok(Clip {
            clip_id: ClipId::new(id),
            shortcode: ShortCode::from_text(record.shortcode.as_str()),
            content,
            title: Title::new(record.title),
            posted: Posted::new(Time::from_seconds(record.posted)),
            expires,
            password,
            hits: Hits::new(hits),
        })
    }
}

} // verus!
