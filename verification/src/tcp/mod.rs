//! State of the transparent TCP sockets.

pub mod mark;
