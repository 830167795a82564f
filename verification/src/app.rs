//! The application state and how keys and HTTP results change it.
pub mod encoding;
pub mod events;
pub mod keys;
pub mod modal;
pub mod send;
pub mod state;
pub mod types;
