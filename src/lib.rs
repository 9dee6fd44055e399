//! Hand a terminal user interface's screen to an external editor process and
//! take it back afterwards.
//!
//! The verified part of the crate decides which editor to run, which file to
//! hand it, in which order the editor's arguments go, and in which order the
//! screen is suspended and restored around the process. Reading the
//! environment, spawning the process and drawing the screen are left to the
//! caller, who feeds what happened back into an [`session::EditSession`].
pub mod session;
pub mod strategy;
