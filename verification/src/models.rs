//! The data the client edits, sends and keeps.
pub mod collection;
pub mod environment;
pub mod history;
pub mod request;
pub mod response;
