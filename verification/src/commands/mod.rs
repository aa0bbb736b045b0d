//! The bot's commands: for each, what it asks for and what it answers.

pub mod admin;
pub mod animals;
pub mod cat;
pub mod define;
pub mod delfin;
pub mod inat;

use vstd::prelude::*;

verus! {

/// The picture that the `eminem` command posts.
pub const EMINEM_GIF: &'static str =
    "https://media.tenor.com/-5B-JLo2q1cAAAAC/eminem-now-this-looks-like-a-job-for-me.gif";

/// The picture that the `kleanthis` command posts.
pub const KLEANTHIS_EMOJI: &'static str = "https://discordemoji.com/assets/emoji/KannaSip.png";

} // verus!
