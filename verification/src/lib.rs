//! Command marshaling for a desktop shell around an external Mandelbrot renderer.
//!
//! The shell lets a user pick a rectangle of the complex plane and shows the
//! image that a separate renderer executable produces for it. This crate holds
//! the part of the shell that is pure computation: the text of the renderer's
//! command line, and the string that a finished call hands back to the
//! display layer. Launching the renderer and reading its output file are left
//! to the caller.

pub mod command;
pub mod decimal;
pub mod encoding;
pub mod reply;
