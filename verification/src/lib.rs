//! A small framework for nodes of a line-delimited JSON request/reply
//! protocol: a message envelope with a JSON codec, an init handshake, a
//! sequential driver, and three handlers (echo, unique ids, broadcast).
pub mod broadcast;
pub mod digits;
pub mod driver;
pub mod echo;
pub mod json;
pub mod msg;
pub mod node;
pub mod unique;
