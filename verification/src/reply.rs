//! What the bot sends back: plain descriptions of chat embeds, built by the
//! command logic and turned into chat-service messages at the edge.

use vstd::prelude::*;

verus! {

/// A colour given by its red, green and blue parts.
#[derive(Clone, Copy, Debug, PartialEq, Eq, Structural)]
pub struct Rgb {
    pub red: u8,
    pub green: u8,
    pub blue: u8,
}

/// The accent used for successful lookups.
pub open spec fn blue_view() -> Rgb {
    Rgb { red: 137, green: 180, blue: 250 }
}

/// The accent used for failures.
pub open spec fn red_view() -> Rgb {
    Rgb { red: 243, green: 139, blue: 168 }
}

/// The accent used for warnings.
pub open spec fn yellow_view() -> Rgb {
    Rgb { red: 249, green: 226, blue: 175 }
}

/// The accent used for successful lookups.
pub fn blue() -> (c: Rgb)
    ensures
        c == blue_view(),
{
    Rgb { red: 137, green: 180, blue: 250 }
}

/// The accent used for failures.
pub fn red() -> (c: Rgb)
    ensures
        c == red_view(),
{
    Rgb { red: 243, green: 139, blue: 168 }
}

/// The accent used for warnings.
pub fn yellow() -> (c: Rgb)
    ensures
        c == yellow_view(),
{
    Rgb { red: 249, green: 226, blue: 175 }
}

/// A rich message: every part is optional, as in the chat service.
#[derive(Debug)]
pub struct Embed {
    pub author: Option<String>,
    pub title: Option<String>,
    pub description: Option<String>,
    pub color: Option<Rgb>,
    pub footer: Option<String>,
}

/// The same embed with characters in place of strings.
pub struct EmbedView {
    pub author: Option<Seq<char>>,
    pub title: Option<Seq<char>>,
    pub description: Option<Seq<char>>,
    pub color: Option<Rgb>,
    pub footer: Option<Seq<char>>,
}

/// The characters of an optional string.
pub open spec fn opt_view(s: Option<String>) -> Option<Seq<char>> {
    match s {
        Some(t) => Some(t@),
        None => None,
    }
}

impl View for Embed {
    type V = EmbedView;

    open spec fn view(&self) -> EmbedView {
        EmbedView {
            author: opt_view(self.author),
            title: opt_view(self.title),
            description: opt_view(self.description),
            color: self.color,
            footer: opt_view(self.footer),
        }
    }
}

} // verus!
