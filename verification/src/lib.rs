//! Glyphic: the command interpreter, the plugin model and the message-handling
//! decisions of the glyph client, server and dispatcher, with their contracts.

pub mod channel_interface;
pub mod client;
pub mod counter_glyph;
pub mod dispatch;
pub mod glyph;
pub mod interpreter;
pub mod operator;
