use vstd::prelude::*;

verus! {

/// chrono's `ParseError`, carried as it is by [`ClipError::DateParse`].
#[verifier::external_type_specification]
#[verifier::external_body]
pub struct ExDateParseError(chrono::ParseError);

/// uuid's `Error`, carried as it is by [`ClipError::Id`].
#[verifier::external_type_specification]
#[verifier::external_body]
pub struct ExUuidError(uuid::Error);

/// Why a clip or one of its fields was refused.
#[derive(Debug, PartialEq)]
pub enum ClipError {
    InvalidPassword(String),
    InvalidTitle(String),
    EmptyContent,
    InvalidDate(String),
    DateParse(chrono::ParseError),
    Id(uuid::Error),
    Hits(std::num::TryFromIntError),
}

/// Relies on chrono's `Display for ParseError`: a description of the error.
#[verifier::external_body]
fn date_error_text(e: &chrono::ParseError) -> (r: String) {
    e.to_string()
}

/// Relies on uuid's `Display for Error`: a description of the error.
#[verifier::external_body]
fn uuid_error_text(e: &uuid::Error) -> (r: String) {
    e.to_string()
}

/// Relies on `Display for TryFromIntError`: a description of the error.
#[verifier::external_body]
fn int_error_text(e: &std::num::TryFromIntError) -> (r: String) {
    e.to_string()
}

/// `prefix` followed by `detail`.
fn joined(prefix: &str, detail: &str) -> (r: String)
    ensures
        r@ == prefix@ + detail@,
{
    let mut text = prefix.to_owned();
    text.append(detail);
    text
}

impl ClipError {
    /// The description of an error that carries no error of another
    /// library; `None` for one that does.
    pub open spec fn message_text(&self) -> Option<Seq<char>> {
        match self {
            ClipError::InvalidPassword(s) => Some("invalid password: "@ + s@),
            ClipError::InvalidTitle(s) => Some("invalid title: "@ + s@),
            ClipError::EmptyContent => Some("empty content"@),
            ClipError::InvalidDate(s) => Some("invalid date: "@ + s@),
            _ => None,
        }
    }

    /// The text that opens the description of the error.
    pub open spec fn message_prefix(&self) -> Seq<char> {
        match self {
            ClipError::InvalidPassword(_) => "invalid password: "@,
            ClipError::InvalidTitle(_) => "invalid title: "@,
            ClipError::EmptyContent => "empty content"@,
            ClipError::InvalidDate(_) => "invalid date: "@,
            ClipError::DateParse(_) => "date parse error: "@,
            ClipError::Id(_) => "id parse error: "@,
            ClipError::Hits(_) => "hits parse error: "@,
        }
    }

    /// A description of the error, for people to read.
    pub fn message(&self) -> (r: String)
        ensures
            self.message_text() matches Some(t) ==> r@ == t,
            r@.len() >= self.message_prefix().len(),
            r@.subrange(0, self.message_prefix().len() as int) == self.message_prefix(),
    {
        let r = match self {
            ClipError::InvalidPassword(s) => joined("invalid password: ", s.as_str()),
            ClipError::InvalidTitle(s) => joined("invalid title: ", s.as_str()),
            ClipError::EmptyContent => "empty content".to_owned(),
            ClipError::InvalidDate(s) => joined("invalid date: ", s.as_str()),
            ClipError::DateParse(e) => joined("date parse error: ", date_error_text(e).as_str()),
            ClipError::Id(e) => joined("id parse error: ", uuid_error_text(e).as_str()),
            ClipError::Hits(e) => joined("hits parse error: ", int_error_text(e).as_str()),
        };
        proof {
            let p = self.message_prefix();
            assert(r@.subrange(0, p.len() as int) =~= p);
        }
        r
    }
}

/// A failure of the persistent store, with the store's own description.
#[derive(Debug)]
pub enum DataError {
    Database(String),
}

/// Why a service request failed.
#[derive(Debug)]
pub enum ServiceError {
    Clip(ClipError),
    Data(DataError),
    NotFound,
    PermissionError(String),
}

} // verus!
