//! The decisions and text handling behind the Alfred chat bot: replies to its
//! commands, the rules for turning command switches on and off, the
//! configuration it starts from, and the cleanup of documents it renders.

pub mod text;
pub mod reply;
pub mod typst_doc;
pub mod config;
pub mod json_value;
pub mod random;
pub mod commands;
pub mod errors;
pub mod db;
pub mod state;
