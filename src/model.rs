use vstd::prelude::*;

use crate::field::ShortCode;

verus! {

/// A clip as the store keeps it, instants in seconds since the epoch.
#[derive(Debug)]
pub struct Clip {
    pub clip_id: String,
    pub shortcode: String,
    pub content: String,
    pub title: Option<String>,
    pub posted: i64,
    pub expires: Option<i64>,
    pub password: Option<String>,
    pub hits: i64,
}

/// The key by which the store looks a clip up.
#[derive(Debug)]
pub struct GetClip {
    pub shortcode: String,
}

impl GetClip {
    pub fn new(shortcode: &ShortCode) -> (r: GetClip)
        ensures
            r.shortcode@ == shortcode@,
    {
        GetClip { shortcode: shortcode.as_str().to_owned() }
    }
}

/// Whether revoking an API key removed it.
#[derive(Debug, Clone, Copy, PartialEq, Eq, Structural)]
pub enum RevocationStatus {
    Revoked,
    NotFound,
}

impl RevocationStatus {
    /// The status of a revocation that removed `rows` stored keys: a key
    /// that removed nothing was not found.
    pub fn from_rows_affected(rows: u64) -> (r: RevocationStatus)
        ensures
            r == (if rows == 0 {
                RevocationStatus::NotFound
            } else {
                RevocationStatus::Revoked
            }),
    {
        if rows == 0 {
            RevocationStatus::NotFound
        } else {
            RevocationStatus::Revoked
        }
    }
}

} // verus!
