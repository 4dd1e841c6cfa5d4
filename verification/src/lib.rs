//! Core of a Wayland embedder for a GUI runtime's rendering engine: the
//! platform-message codec and multiplexer, the view registry, surface size
//! negotiation and the software compositor's bookkeeping.
//!
//! Everything here is pure logic on plain values. The event loop, the
//! windowing transport and the engine itself live with the caller, which
//! performs the effects that these functions decide on.

pub mod config;
pub mod damage;
pub mod double;
pub mod embedder;
pub mod platform_message;
pub mod pool;
pub mod registry;
pub mod seat;
pub mod session;
pub mod shell;
pub mod view;
