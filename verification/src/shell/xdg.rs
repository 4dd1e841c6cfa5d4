//! Surfaces of the desktop shell.

pub mod window;
