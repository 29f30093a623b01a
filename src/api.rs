use vstd::prelude::*;

use base64::engine::{general_purpose, Engine};

use crate::error::ServiceError;

verus! {

/// How base64's standard engine writes `b`: the standard alphabet, padded.
pub uninterp spec fn base64_of(b: Seq<u8>) -> Seq<char>;

/// What base64's standard engine reads from `s`: the bytes, or nothing
/// where `s` is not padded standard base64.
pub uninterp spec fn base64_bytes(s: Seq<char>) -> Option<Seq<u8>>;

/// The longest input whose base64 text still has a length that fits in a `usize`.
pub open spec fn encodable_len(n: nat) -> bool {
    n <= (usize::MAX - 4) / 4 * 3
}

/// Relies on `general_purpose::STANDARD.encode` of base64.
#[verifier::external_body]
fn encode_standard(b: &[u8]) -> (r: String)
    requires
        encodable_len(b@.len()),
    ensures
        r@ == base64_of(b@),
{
    general_purpose::STANDARD.encode(b)
}

/// Relies on `general_purpose::STANDARD.decode` of base64; a refusal comes
/// back with base64's description of it.
#[verifier::external_body]
fn decode_standard(s: &str) -> (r: Result<Vec<u8>, String>)
    ensures
        r is Ok <==> base64_bytes(s@) is Some,
        r matches Ok(b) ==> base64_bytes(s@) == Some(b@),
{
    general_purpose::STANDARD.decode(s).map_err(|e| e.to_string())
}

/// Relies on `rand::random::<u8>`: any byte.
#[verifier::external_body]
fn random_byte() -> (r: u8) {
    rand::random::<u8>()
}

/// Whether `a` and `b` hold the same bytes.
fn same_bytes(a: &Vec<u8>, b: &Vec<u8>) -> (r: bool)
    ensures
        r == (a@ == b@),
{
    if a.len() != b.len() {
        return false;
    }
    let mut i: usize = 0;
    while i < a.len()
        invariant
            a@.len() == b@.len(),
            0 <= i <= a@.len(),
            forall|j: int| 0 <= j < i ==> a@[j] == b@[j],
        decreases a@.len() - i,
    {
        if a[i] != b[i] {
            return false;
        }
        i += 1;
    }
    proof {
        assert(a@ =~= b@);
    }
    true
}

/// The request header that carries an API key.
pub const API_KEY_HEADER: &'static str = "x-api-key";

/// Number of bytes of a generated API key.
pub const API_KEY_LEN: usize = 16;

/// An API key: opaque bytes, written as base64 where text is needed.
#[derive(Debug)]
pub struct ApiKey(Vec<u8>);

impl View for ApiKey {
    type V = Seq<u8>;

    closed spec fn view(&self) -> Seq<u8> {
        self.0@
    }
}

/// Why an API key was refused.
#[derive(Debug)]
pub enum ApiKeyError {
    NotFound(String),
    DecodeError(String),
}

/// An error answered by the API, with the text that the answer carries.
#[derive(Debug)]
pub enum ApiError {
    NotFound(String),
    Server(String),
    User(String),
    KeyError(ApiKeyError),
}

impl ApiKey {
    /// The key made of `bytes`.
    pub fn new(bytes: Vec<u8>) -> (r: ApiKey)
        ensures
            r@ == bytes@,
    {
        ApiKey(bytes)
    }

    /// The key written in standard, padded base64.
    pub fn to_base64(&self) -> (r: String)
        requires
            encodable_len(self@.len()),
        ensures
            r@ == base64_of(self@),
    {
        encode_standard(self.0.as_slice())
    }

    /// The key's bytes.
    pub fn into_inner(self) -> (r: Vec<u8>)
        ensures
            r@ == self@,
    {
        self.0
    }

    /// Reads a key written in standard, padded base64.
    pub fn decode(key: &str) -> (r: Result<ApiKey, ApiKeyError>)
        ensures
            r is Ok <==> base64_bytes(key@) is Some,
            r matches Ok(k) ==> base64_bytes(key@) == Some(k@),
            r matches Err(e) ==> e is DecodeError,
    {
        match decode_standard(key) {
            Ok(bytes) => Ok(ApiKey(bytes)),
            Err(msg) => Err(ApiKeyError::DecodeError(msg)),
        }
    }
}

impl ApiKey {
    /// Reads the key from the value of the [`API_KEY_HEADER`] header: a
    /// missing header and a value that is not base64 are refused as key
    /// errors.
    pub fn from_header(header: Option<&str>) -> (r: Result<ApiKey, ApiError>)
        ensures
            header is None ==> (r matches Err(ApiError::KeyError(ApiKeyError::NotFound(m))) && m@
                == "API key not found"@),
            header matches Some(h) ==> (r is Ok <==> base64_bytes(h@) is Some),
            header matches Some(h) ==> (r matches Ok(k) ==> base64_bytes(h@) == Some(k@)),
            header matches Some(h) ==> (r matches Err(e) ==> e matches ApiError::KeyError(
                ApiKeyError::DecodeError(_),
            )),
    {
        match header {
            None => Err(ApiError::KeyError(ApiKeyError::NotFound("API key not found".to_owned()))),
            Some(h) => match ApiKey::decode(h) {
                Ok(key) => Ok(key),
                Err(e) => Err(ApiError::KeyError(e)),
            },
        }
    }

    /// Settles a key once the store has said whether it knows it: a known
    /// key is accepted, an unknown one refused as not found, and a failure
    /// of the store is the server's error.
    pub fn settle(self, known: Result<bool, ServiceError>) -> (r: Result<ApiKey, ApiError>)
        ensures
            known matches Ok(true) ==> (r matches Ok(k) && k@ == self@),
            known matches Ok(false) ==> (r matches Err(ApiError::KeyError(ApiKeyError::NotFound(m)))
                && m@ == "API key not found"@),
            known is Err ==> (r matches Err(ApiError::Server(m)) && m@ == "server error"@),
    {
        match known {
            Ok(true) => Ok(self),
            Ok(false) => Err(ApiError::KeyError(ApiKeyError::NotFound("API key not found".to_owned()))),
            Err(_) => Err(ApiError::Server("server error".to_owned())),
        }
    }
}

impl Default for ApiKey {
    /// A fresh key of [`API_KEY_LEN`] random bytes.
    fn default() -> (r: Self)
        ensures
            r@.len() == API_KEY_LEN,
    {
        let mut key: Vec<u8> = Vec::new();
        let mut i: usize = 0;
        while i < API_KEY_LEN
            invariant
                0 <= i <= API_KEY_LEN,
                key@.len() == i,
            decreases API_KEY_LEN - i,
        {
            key.push(random_byte());
            i += 1;
        }
        ApiKey(key)
    }
}

impl std::str::FromStr for ApiKey {
    type Err = ApiKeyError;

    fn from_str(key: &str) -> Result<ApiKey, ApiKeyError> {
        ApiKey::decode(key)
    }
}

impl PartialEq for ApiKey {
    fn eq(&self, other: &ApiKey) -> (r: bool) {
        same_bytes(&self.0, &other.0)
    }
}

impl vstd::std_specs::cmp::PartialEqSpecImpl for ApiKey {
    open spec fn obeys_eq_spec() -> bool {
        true
    }

    open spec fn eq_spec(&self, other: &ApiKey) -> bool {
        self@ == other@
    }
}

impl Clone for ApiKey {
    fn clone(&self) -> (r: Self)
        ensures
            r@ == self@,
    {
        ApiKey(self.0.clone())
    }
}

impl ApiError {
    /// The answer to a failed service request: a refused clip and a refused
    /// password are the user's error, a missing clip is not found, and a
    /// failure of the store is the server's error, whose details stay out of
    /// the answer.
    pub fn from_service(err: ServiceError) -> (r: ApiError)
        ensures
            err is Clip ==> (r matches ApiError::User(m) && m@.len() >= 20 && m@.subrange(0, 20)
                == "clip parsing error: "@ && (err->Clip_0.message_text() matches Some(t) ==> m@
                == "clip parsing error: "@ + t)),
            err is NotFound ==> (r matches ApiError::NotFound(m) && m@ == "entity not found"@),
            err is Data ==> (r matches ApiError::Server(m) && m@ == "a server error occurred"@),
            err is PermissionError ==> (r matches ApiError::User(m) && m@
                == err->PermissionError_0@),
    {
        match err {
            ServiceError::Clip(c) => {
                let mut text = "clip parsing error: ".to_owned();
                let detail = c.message();
                text.append(detail.as_str());
                proof {
                    reveal_strlit("clip parsing error: ");
                    assert(text@.subrange(0, 20) =~= "clip parsing error: "@);
                }
                ApiError::User(text)
            },
            ServiceError::NotFound => ApiError::NotFound("entity not found".to_owned()),
            ServiceError::Data(_) => ApiError::Server("a server error occurred".to_owned()),
            ServiceError::PermissionError(msg) => ApiError::User(msg),
        }
    }
}

impl From<ServiceError> for ApiError {
    fn from(err: ServiceError) -> (r: ApiError) {
        ApiError::from_service(err)
    }
}

impl vstd::std_specs::convert::FromSpecImpl<ServiceError> for ApiError {
    open spec fn obeys_from_spec() -> bool {
        false
    }

    open spec fn from_spec(err: ServiceError) -> ApiError {
        vstd::pervasive::arbitrary()
    }
}

} // verus!
