//! Runtime core of a desktop status-bar shell: a debounced file watcher
//! feeding settled change events into a reload pipeline that parses a
//! configuration or stylesheet document, atomically publishes it to shared
//! application state, and reconciles the set of open bar windows with the
//! new configuration.

pub mod broadcast;
pub mod debounce;
pub mod events;
pub mod model;
pub mod pipeline;
pub mod reconcile;
pub mod state;
pub mod tray;
