//! A verified core for a single-shot display-probe session.
//!
//! The library models a short-lived client of a compositor-managed display:
//! it checks that the protocol globals the session needs were advertised,
//! describes the full-screen overlay surface the session creates, drives a
//! state machine over the protocol events the server delivers, and computes
//! the placement of a popup window from the captured screen dimensions and
//! pointer position. All connection handling and event delivery is left to
//! the caller; the library takes plain values and returns plain values.

pub mod bootstrap;
pub mod geometry;
pub mod scrape;
pub mod session;
pub mod surface;
