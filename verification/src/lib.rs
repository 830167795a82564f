pub mod app;
pub mod event;
pub mod ids;
pub mod models;
pub mod storage;
pub mod text;
pub mod utils;
pub mod view;
