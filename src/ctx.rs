use vstd::prelude::*;

use crate::clip::Clip;
use crate::field::ShortCode;

verus! {

/// What a page tells its template: the page's title, its template, and the
/// layout it is rendered in.
pub trait PageContext {
    spec fn title_text(&self) -> Seq<char>;

    spec fn template_text(&self) -> Seq<char>;

    spec fn parent_text(&self) -> Seq<char>;

    fn title(&self) -> (r: &str)
        ensures
            r@ == self.title_text(),
    ;

    fn template_path(&self) -> (r: &str)
        ensures
            r@ == self.template_text(),
    ;

    fn parent(&self) -> (r: &str)
        ensures
            r@ == self.parent_text(),
    ;
}

/// The home page.
#[derive(Debug)]
pub struct Home {}

impl Default for Home {
    fn default() -> (r: Self) {
        Home {  }
    }
}

impl PageContext for Home {
    open spec fn title_text(&self) -> Seq<char> {
        "Stash Your Clipboard!"@
    }

    open spec fn template_text(&self) -> Seq<char> {
        "home"@
    }

    open spec fn parent_text(&self) -> Seq<char> {
        "base"@
    }

    fn title(&self) -> (r: &str) {
        "Stash Your Clipboard!"
    }

    fn template_path(&self) -> (r: &str) {
        "home"
    }

    fn parent(&self) -> (r: &str) {
        "base"
    }
}

/// The page that shows a clip.
#[derive(Debug)]
pub struct ViewClip {
    pub clip: Clip,
}

impl ViewClip {
    pub fn new(clip: Clip) -> (r: ViewClip)
        ensures
            r.clip == clip,
    {
        ViewClip { clip }
    }
}

impl PageContext for ViewClip {
    open spec fn title_text(&self) -> Seq<char> {
        "View Clip"@
    }

    open spec fn template_text(&self) -> Seq<char> {
        "clip"@
    }

    open spec fn parent_text(&self) -> Seq<char> {
        "base"@
    }

    fn title(&self) -> (r: &str) {
        "View Clip"
    }

    fn template_path(&self) -> (r: &str) {
        "clip"
    }

    fn parent(&self) -> (r: &str) {
        "base"
    }
}

/// The page that asks for a protected clip's password.
#[derive(Debug)]
pub struct PasswordRequired {
    shortcode: ShortCode,
}

impl PasswordRequired {
    pub fn new(shortcode: ShortCode) -> (r: PasswordRequired)
        ensures
            r.code() == shortcode@,
    {
        PasswordRequired { shortcode }
    }

    /// The code of the clip asked for.
    pub closed spec fn code(&self) -> Seq<char> {
        self.shortcode@
    }

    /// The code of the clip asked for.
    pub fn shortcode(&self) -> (r: &ShortCode)
        ensures
            r@ == self.code(),
    {
        &self.shortcode
    }
}

impl PageContext for PasswordRequired {
    open spec fn title_text(&self) -> Seq<char> {
        "Password Required"@
    }

    open spec fn template_text(&self) -> Seq<char> {
        "clip_need_password"@
    }

    open spec fn parent_text(&self) -> Seq<char> {
        "base"@
    }

    fn title(&self) -> (r: &str) {
        "Password Required"
    }

    fn template_path(&self) -> (r: &str) {
        "clip_need_password"
    }

    fn parent(&self) -> (r: &str) {
        "base"
    }
}

} // verus!
