//! Core of a profile view counter badge service: the in-process view counter
//! with debounced persistence, and the badge template cache that substitutes
//! the decimal count into a cached SVG template instead of re-fetching the
//! remote badge renderer on every request.

pub mod badge;
pub mod datastore;
pub mod digits;
pub mod fetcher;
pub mod handler;
pub mod state;
pub mod text;
