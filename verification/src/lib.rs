//! A reactive "preferred color scheme" hook for a component-based UI runtime.
//!
//! The library reads the host environment's live "dark appearance preferred"
//! condition, reports it as a [`scheme::PreferredColorScheme`], and attaches a
//! change listener to the condition at most once per process, so that every
//! later change of the preference triggers the UI runtime's re-render
//! mechanism.

pub mod guard;
pub mod hook;
pub mod host;
pub mod scheme;
