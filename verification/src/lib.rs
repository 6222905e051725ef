//! Verified core of a terminal chat client: a bounded message log with a
//! selection cursor, the key-dispatch rules of the render/input loop, and the
//! framing steps of the network reader and writer.

pub mod app;
pub mod net;
pub mod text;
