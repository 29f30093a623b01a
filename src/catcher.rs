use vstd::prelude::*;

verus! {

/// The answer to a request for something that does not exist.
pub fn not_found() -> (r: &'static str)
    ensures
        r@ == "404"@,
{
    "404"
}

/// The answer to a request that is not authorised.
pub fn request_error() -> (r: &'static str)
    ensures
        r@ == "request error"@,
{
    "request error"
}

/// The answer to an API request without a valid key.
pub fn missing_api_key() -> (r: &'static str)
    ensures
        r@ == "API key missing or invalid"@,
{
    "API key missing or invalid"
}

/// The answer to a request that failed on the server's side.
pub fn internal_error() -> (r: &'static str)
    ensures
        r@ == "internal server error"@,
{
    "internal server error"
}

/// The answer to any other failed request.
pub fn default() -> (r: &'static str)
    ensures
        r@ == "something went wrong..."@,
{
    "something went wrong..."
}

} // verus!
