//! A browser for the folders and assets of a remote asset store, as a state
//! machine. The store is reached by a command-line tool, one call at a time;
//! the browser itself never calls it. It takes key presses, mouse events and
//! the responses of the tool, keeps what is shown, a cache of listings and a
//! log of the calls, and hands out the next request when it needs one.
//!
//! `state`, `keys` and `ops` give every transition as a function of the
//! mathematical state; `app` and `steps` carry the transitions out; `laws`
//! states what holds of them all.

pub mod app;
pub mod cache;
pub mod clock;
pub mod input;
pub mod invocation;
pub mod keys;
pub mod laws;
pub mod listing;
pub mod log;
pub mod metadata;
pub mod model;
pub mod ops;
pub mod protocol;
pub mod screen;
pub mod state;
pub mod steps;
pub mod text;
