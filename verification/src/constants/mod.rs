//! Values fixed for the whole application.

pub mod app;
pub mod srs;
pub mod ui;
