use vstd::prelude::*;

use crate::field::{Content, Expires, Password, ShortCode, Title};

verus! {

/// A request for a new clip.
#[derive(Debug)]
pub struct NewClip {
    pub content: Content,
    pub title: Title,
    pub expires: Expires,
    pub password: Password,
}

/// A request for a clip by its short code, with the password offered for it.
#[derive(Debug)]
pub struct GetClip {
    pub shortcode: ShortCode,
    pub password: Password,
}

impl GetClip {
    /// A request for the clip with code `shortcode`, offering no password.
    pub fn from_raw(shortcode: &str) -> (r: GetClip)
        ensures
            r.shortcode@ == shortcode@,
            r.password@ is None,
    {
        GetClip { shortcode: ShortCode::from_text(shortcode), password: Password::default() }
    }

    /// A request for the clip with code `shortcode`, offering no password.
    pub fn from_shortcode(shortcode: ShortCode) -> (r: GetClip)
        ensures
            r.shortcode@ == shortcode@,
            r.password@ is None,
    {
        GetClip { shortcode, password: Password::default() }
    }
}

impl From<ShortCode> for GetClip {
    fn from(shortcode: ShortCode) -> (r: GetClip) {
        GetClip::from_shortcode(shortcode)
    }
}

impl vstd::std_specs::convert::FromSpecImpl<ShortCode> for GetClip {
    open spec fn obeys_from_spec() -> bool {
        false
    }

    open spec fn from_spec(shortcode: ShortCode) -> GetClip {
        vstd::pervasive::arbitrary()
    }
}

impl<'a> From<&'a str> for GetClip {
    fn from(raw: &'a str) -> (r: GetClip) {
        GetClip::from_raw(raw)
    }
}

impl<'a> vstd::std_specs::convert::FromSpecImpl<&'a str> for GetClip {
    open spec fn obeys_from_spec() -> bool {
        false
    }

    open spec fn from_spec(raw: &'a str) -> GetClip {
        vstd::pervasive::arbitrary()
    }
}

} // verus!
