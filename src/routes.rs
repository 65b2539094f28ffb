//! The pages of the client, and the appearance theme.

use vstd::prelude::*;

use crate::text::same_text;

verus! {

/// The pages that the client can show.
#[derive(Clone, Copy, Debug, PartialEq, Eq, Structural)]
pub enum Route {
    Home,
    Media,
    Video,
    Image,
    Chat,
}

impl Route {
    /// Whether the page belongs to the media section of the navigation.
    pub fn is_media_section(&self) -> (r: bool)
        ensures
            r == (*self is Media || *self is Video || *self is Image),
    {
        match self {
            Route::Media | Route::Video | Route::Image => true,
            _ => false,
        }
    }
}

/// The theme that toggling switches to: `"dark"` after `"light"`, `"light"`
/// after anything else.
pub fn next_theme(current: &str) -> (r: String)
    ensures
        r@ == (if current@ == "light"@ {
            "dark"@
        } else {
            "light"@
        }),
{
    if same_text(current, "light") {
        String::from_str("dark")
    } else {
        String::from_str("light")
    }
}

} // verus!
