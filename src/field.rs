use vstd::prelude::*;

use rand::seq::SliceRandom;

use crate::error::ClipError;
use crate::form::ValueField;
use crate::text::{is_blank, is_blank_str};
use crate::time::{midnight_text, rfc3339_seconds, Time};

verus! {

/// The text of an optional string.
pub open spec fn opt_text(s: Option<String>) -> Option<Seq<char>> {
    match s {
        Some(t) => Some(t@),
        None => None,
    }
}

/// An optional text with a blank text taken as no text.
pub open spec fn non_blank(t: Option<Seq<char>>) -> Option<Seq<char>> {
    match t {
        Some(s) => if is_blank(s) {
            None
        } else {
            Some(s)
        },
        None => None,
    }
}

/// `s` with a blank text taken as no text.
fn keep_non_blank(s: Option<String>) -> (r: Option<String>)
    ensures
        opt_text(r) == non_blank(opt_text(s)),
{
    match s {
        Some(t) => if is_blank_str(t.as_str()) {
            None
        } else {
            Some(t)
        },
        None => None,
    }
}

/// Optional texts compared by their characters.
fn same_opt_text(a: &Option<String>, b: &Option<String>) -> (r: bool)
    ensures
        r == (opt_text(*a) == opt_text(*b)),
{
    match (a, b) {
        (Some(x), Some(y)) => *x == *y,
        (None, None) => true,
        _ => false,
    }
}

/// The characters a generated short code is drawn from.
pub open spec fn is_code_char(c: char) -> bool {
    c == 'a' || c == 'b' || c == 'c' || c == 'd' || c == '1' || c == '2' || c == '3' || c == '4'
}

/// Number of characters in a generated short code.
pub const CODE_LEN: usize = 10;

/// Relies on rand's `SliceRandom::choose` with the thread's generator: it
/// picks one of the items of a slice that is not empty.
#[verifier::external_body]
fn choose_char(chars: &[char]) -> (r: char)
    requires
        chars@.len() > 0,
    ensures
        chars@.contains(r),
{
    *chars.choose(&mut rand::thread_rng()).unwrap()
}

/// Relies on `String::push`, which appends one character.
#[verifier::external_body]
fn push_char(s: &mut String, c: char)
    ensures
        final(s)@ == old(s)@.push(c),
{
    s.push(c)
}

/// The short code that identifies a clip in URLs.
#[derive(Debug)]
pub struct ShortCode(String);

impl View for ShortCode {
    type V = Seq<char>;

    closed spec fn view(&self) -> Seq<char> {
        self.0@
    }
}

impl ShortCode {
    /// A fresh code of [`CODE_LEN`] characters, each drawn at random from
    /// `a b c d 1 2 3 4`.
    pub fn new() -> (r: ShortCode)
        ensures
            r@.len() == CODE_LEN,
            forall|i: int| 0 <= i < r@.len() ==> is_code_char(#[trigger] r@[i]),
    {
        let allowed: [char; 8] = ['a', 'b', 'c', 'd', '1', '2', '3', '4'];
        let mut code = String::new();
        let mut i: usize = 0;
        while i < CODE_LEN
            invariant
                allowed@ == seq!['a', 'b', 'c', 'd', '1', '2', '3', '4'],
                0 <= i <= CODE_LEN,
                code@.len() == i,
                forall|j: int| 0 <= j < i ==> is_code_char(#[trigger] code@[j]),
            decreases CODE_LEN - i,
        {
            let c = choose_char(allowed.as_slice());
            push_char(&mut code, c);
            i += 1;
        }
        ShortCode(code)
    }

    /// The code made of the characters of `code`, whatever they are.
    pub fn from_text(code: &str) -> (r: ShortCode)
        ensures
            r@ == code@,
    {
        ShortCode(code.to_owned())
    }

    /// Takes a code from a URL path segment; any segment is accepted.
    pub fn from_param(param: &str) -> (r: Result<ShortCode, ClipError>)
        ensures
            r matches Ok(c) && c@ == param@,
    {
        Ok(ShortCode::from_text(param))
    }

    /// The code as a string slice.
    pub fn as_str(&self) -> (r: &str)
        ensures
            r@ == self@,
    {
        self.0.as_str()
    }

    /// The code as an owned string.
    pub fn into_inner(self) -> (r: String)
        ensures
            r@ == self@,
    {
        self.0
    }
}

impl PartialEq for ShortCode {
    fn eq(&self, other: &ShortCode) -> (r: bool) {
        self.0 == other.0
    }
}

impl vstd::std_specs::cmp::PartialEqSpecImpl for ShortCode {
    open spec fn obeys_eq_spec() -> bool {
        true
    }

    open spec fn eq_spec(&self, other: &ShortCode) -> bool {
        self@ == other@
    }
}

impl Clone for ShortCode {
    fn clone(&self) -> (r: Self)
        ensures
            r@ == self@,
    {
        ShortCode(self.0.clone())
    }
}

impl Default for ShortCode {
    fn default() -> (r: Self)
        ensures
            r@.len() == CODE_LEN,
            forall|i: int| 0 <= i < r@.len() ==> is_code_char(#[trigger] r@[i]),
    {
        ShortCode::new()
    }
}

impl From<String> for ShortCode {
    fn from(code: String) -> (r: ShortCode) {
        ShortCode(code)
    }
}

impl vstd::std_specs::convert::FromSpecImpl<String> for ShortCode {
    open spec fn obeys_from_spec() -> bool {
        true
    }

    closed spec fn from_spec(code: String) -> ShortCode {
        ShortCode(code)
    }
}

impl<'a> From<&'a str> for ShortCode {
    fn from(code: &'a str) -> (r: ShortCode) {
        ShortCode::from_text(code)
    }
}

impl<'a> vstd::std_specs::convert::FromSpecImpl<&'a str> for ShortCode {
    open spec fn obeys_from_spec() -> bool {
        false
    }

    open spec fn from_spec(code: &'a str) -> ShortCode {
        vstd::pervasive::arbitrary()
    }
}

impl From<ShortCode> for String {
    fn from(code: ShortCode) -> (r: String) {
        code.0
    }
}

impl vstd::std_specs::convert::FromSpecImpl<ShortCode> for String {
    open spec fn obeys_from_spec() -> bool {
        true
    }

    closed spec fn from_spec(code: ShortCode) -> String {
        code.0
    }
}

impl std::str::FromStr for ShortCode {
    type Err = ClipError;

    fn from_str(s: &str) -> Result<ShortCode, ClipError> {
        Ok(ShortCode::from_text(s))
    }
}

/// The text of a clip, never blank.
#[derive(Debug)]
pub struct Content(String);

impl View for Content {
    type V = Seq<char>;

    closed spec fn view(&self) -> Seq<char> {
        self.0@
    }
}

impl Content {
    /// Accepts `content` unless it holds nothing but white space.
    pub fn new(content: &str) -> (r: Result<Content, ClipError>)
        ensures
            r is Ok <==> !is_blank(content@),
            r matches Ok(c) ==> c@ == content@,
            r matches Err(e) ==> e == ClipError::EmptyContent,
    {
        if !is_blank_str(content) {
            Ok(Content(content.to_owned()))
        } else {
            Err(ClipError::EmptyContent)
        }
    }

    /// The text as an owned string.
    pub fn into_inner(self) -> (r: String)
        ensures
            r@ == self@,
    {
        self.0
    }

    /// The text as a string slice.
    pub fn as_str(&self) -> (r: &str)
        ensures
            r@ == self@,
    {
        self.0.as_str()
    }

    /// The content given by a form field: its value, as [`Content::new`] takes it.
    pub fn from_value(field: ValueField) -> (r: Result<Content, ClipError>)
        ensures
            r is Ok <==> !is_blank(field.value@),
            r matches Ok(c) ==> c@ == field.value@,
            r matches Err(e) ==> e == ClipError::EmptyContent,
    {
        Content::new(field.value.as_str())
    }
}

impl PartialEq for Content {
    fn eq(&self, other: &Content) -> (r: bool) {
        self.0 == other.0
    }
}

impl vstd::std_specs::cmp::PartialEqSpecImpl for Content {
    open spec fn obeys_eq_spec() -> bool {
        true
    }

    open spec fn eq_spec(&self, other: &Content) -> bool {
        self@ == other@
    }
}

impl Clone for Content {
    fn clone(&self) -> (r: Self)
        ensures
            r@ == self@,
    {
        Content(self.0.clone())
    }
}

/// The optional title of a clip; a blank title is no title.
#[derive(Debug)]
pub struct Title(Option<String>);

impl View for Title {
    type V = Option<Seq<char>>;

    closed spec fn view(&self) -> Option<Seq<char>> {
        opt_text(self.0)
    }
}

impl Title {
    /// The title `title`, or no title where it is missing or blank.
    pub fn new(title: Option<String>) -> (r: Title)
        ensures
            r@ == non_blank(opt_text(title)),
    {
        Title(keep_non_blank(title))
    }

    /// The title as an optional owned string.
    pub fn into_inner(self) -> (r: Option<String>)
        ensures
            opt_text(r) == self@,
    {
        self.0
    }

    /// The title given by a form field's value.
    pub fn from_value(field: ValueField) -> (r: Result<Title, ClipError>)
        ensures
            r matches Ok(t) && t@ == non_blank(Some(field.value@)),
    {
        Ok(Title::new(Some(field.value)))
    }
}

impl Default for Title {
    fn default() -> (r: Self)
        ensures
            r@ == None::<Seq<char>>,
    {
        Title::new(None)
    }
}

impl std::str::FromStr for Title {
    type Err = ClipError;

    fn from_str(s: &str) -> Result<Title, ClipError> {
        Ok(Title::new(Some(s.to_owned())))
    }
}

impl PartialEq for Title {
    fn eq(&self, other: &Title) -> (r: bool) {
        same_opt_text(&self.0, &other.0)
    }
}

impl vstd::std_specs::cmp::PartialEqSpecImpl for Title {
    open spec fn obeys_eq_spec() -> bool {
        true
    }

    open spec fn eq_spec(&self, other: &Title) -> bool {
        self@ == other@
    }
}

impl Clone for Title {
    fn clone(&self) -> (r: Self)
        ensures
            r@ == self@,
    {
        Title(self.0.clone())
    }
}

/// The optional password that protects a clip; a blank password is none.
#[derive(Debug)]
pub struct Password(Option<String>);

impl View for Password {
    type V = Option<Seq<char>>;

    closed spec fn view(&self) -> Option<Seq<char>> {
        opt_text(self.0)
    }
}

impl Password {
    /// The password `password`, or none where it is missing or blank.
    /// Every input is accepted.
    pub fn new(password: Option<String>) -> (r: Result<Password, ClipError>)
        ensures
            r matches Ok(p) && p@ == non_blank(opt_text(password)),
    {
        Ok(Password(keep_non_blank(password)))
    }

    /// The password as an optional owned string.
    pub fn into_inner(self) -> (r: Option<String>)
        ensures
            opt_text(r) == self@,
    {
        self.0
    }

    /// Whether there is a password.
    pub fn has_password(&self) -> (r: bool)
        ensures
            r == self@.is_some(),
    {
        self.0.is_some()
    }

    /// The password given by a form field's value.
    pub fn from_value(field: ValueField) -> (r: Result<Password, ClipError>)
        ensures
            r matches Ok(p) && p@ == non_blank(Some(field.value@)),
    {
        Password::new(Some(field.value))
    }

    /// Whether `self` and `other` are the same password, or both none.
    pub fn matches(&self, other: &Password) -> (r: bool)
        ensures
            r == (self@ == other@),
    {
        same_opt_text(&self.0, &other.0)
    }
}

impl Default for Password {
    fn default() -> (r: Self)
        ensures
            r@ == None::<Seq<char>>,
    {
        Password(None)
    }
}

impl std::str::FromStr for Password {
    type Err = ClipError;

    fn from_str(s: &str) -> Result<Password, ClipError> {
        Password::new(Some(s.to_owned()))
    }
}

impl PartialEq for Password {
    fn eq(&self, other: &Password) -> (r: bool) {
        same_opt_text(&self.0, &other.0)
    }
}

impl vstd::std_specs::cmp::PartialEqSpecImpl for Password {
    open spec fn obeys_eq_spec() -> bool {
        true
    }

    open spec fn eq_spec(&self, other: &Password) -> bool {
        self@ == other@
    }
}

impl Clone for Password {
    fn clone(&self) -> (r: Self)
        ensures
            r@ == self@,
    {
        Password(self.0.clone())
    }
}

/// How many times a clip has been viewed.
#[derive(Debug, Clone, Copy, PartialEq, Eq, Structural)]
pub struct Hits(u64);

impl View for Hits {
    type V = u64;

    closed spec fn view(&self) -> u64 {
        self.0
    }
}

impl Hits {
    /// A count of `hits` views.
    pub fn new(hits: u64) -> (r: Hits)
        ensures
            r@ == hits,
    {
        Hits(hits)
    }

    /// The number of views.
    pub fn into_inner(self) -> (r: u64)
        ensures
            r == self@,
    {
        self.0
    }
}

} // verus!

verus! {

/// When a clip stops being served, if ever.
#[derive(Debug, Clone, Copy, PartialEq, Eq, Structural)]
pub struct Expires(Option<Time>);

impl View for Expires {
    type V = Option<i64>;

    closed spec fn view(&self) -> Option<i64> {
        match self.0 {
            Some(t) => Some(t@),
            None => None,
        }
    }
}

/// Whether a clip with expiry `expires` is expired at `now`: it has an
/// expiry, and the expiry is not after `now`.
pub open spec fn expired_at(expires: Option<i64>, now: i64) -> bool {
    match expires {
        Some(t) => t <= now,
        None => false,
    }
}

impl Expires {
    /// The expiry `expires`; `None` never expires.
    pub fn new(expires: Option<Time>) -> (r: Expires)
        ensures
            r@ == (match expires {
                Some(t) => Some(t@),
                None => None::<i64>,
            }),
    {
        Expires(expires)
    }

    /// The expiry, if any.
    pub fn into_inner(self) -> (r: Option<Time>)
        ensures
            self@ == (match r {
                Some(t) => Some(t@),
                None => None::<i64>,
            }),
    {
        self.0
    }

    /// Reads an expiry: an empty text is no expiry, any other text a date
    /// `YYYY-MM-DD`, which expires at its first midnight UTC.
    pub fn parse(raw: &str) -> (r: Result<Expires, ClipError>)
        ensures
            raw@.len() == 0 ==> (r matches Ok(e) && e@ is None),
            raw@.len() > 0 ==> (r is Ok <==> rfc3339_seconds(midnight_text(raw@)) is Some),
            raw@.len() > 0 ==> (r matches Ok(e) ==> (e@ matches Some(t)
                && rfc3339_seconds(midnight_text(raw@)) == Some(t as int))),
            r matches Err(e) ==> e is DateParse,
    {
        if raw.is_empty() {
            Ok(Expires(None))
        } else {
            match Time::from_date(raw) {
                Ok(time) => Ok(Expires(Some(time))),
                Err(e) => Err(ClipError::DateParse(e)),
            }
        }
    }

    /// The expiry given by a form field: a blank value is no expiry, any
    /// other value is read as [`Expires::parse`] reads it.
    pub fn from_value(field: ValueField) -> (r: Result<Expires, ClipError>)
        ensures
            is_blank(field.value@) ==> (r matches Ok(e) && e@ is None),
            !is_blank(field.value@) ==> (r is Ok <==> rfc3339_seconds(
                midnight_text(field.value@),
            ) is Some),
            !is_blank(field.value@) ==> (r matches Ok(e) ==> (e@ matches Some(t)
                && rfc3339_seconds(midnight_text(field.value@)) == Some(t as int))),
    {
        if is_blank_str(field.value.as_str()) {
            Ok(Expires(None))
        } else {
            Expires::parse(field.value.as_str())
        }
    }

    /// Whether the clip is expired at `now`.
    pub fn has_expired_at(&self, now: Time) -> (r: bool)
        ensures
            r == expired_at(self@, now@),
    {
        match self.0 {
            Some(t) => t.timestamp() <= now.timestamp(),
            None => false,
        }
    }
}

impl Default for Expires {
    fn default() -> (r: Self)
        ensures
            r@ is None,
    {
        Expires(None)
    }
}

impl std::str::FromStr for Expires {
    type Err = ClipError;

    fn from_str(raw: &str) -> Result<Expires, ClipError> {
        Expires::parse(raw)
    }
}

/// When a clip was posted.
#[derive(Debug, Clone, Copy, PartialEq, Eq, Structural)]
pub struct Posted(Time);

impl Posted {
    /// Posted at `posted`.
    pub fn new(posted: Time) -> (r: Posted)
        ensures
            r.into_time() == posted,
    {
        Posted(posted)
    }

    /// The instant of posting.
    pub closed spec fn into_time(self) -> Time {
        self.0
    }

    /// The instant of posting.
    pub fn into_inner(self) -> (r: Time)
        ensures
            r == self.into_time(),
    {
        self.0
    }
}

} // verus!
