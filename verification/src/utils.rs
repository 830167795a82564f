//! Text transformations applied to requests and responses.
pub mod env_interpolation;
pub mod json_format;
