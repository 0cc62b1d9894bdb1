//! Expansion of short (8.3-style) Windows paths into their long form, offered
//! to a JavaScript host through one fallible operation.
//!
//! The crate holds everything that is decided around the single call into the
//! operating system: which platforms are served at all, what a failure says,
//! and how an outcome is handed to the host. The call itself is made by the
//! embedding module, which passes the operating system's answer back in.

pub mod failure;
pub mod resolver;
pub mod boundary;
