//! Terminal client state machine for the Ramflux local SDK bus.

pub mod json;
pub mod text;
pub mod state;
pub mod a2ui;
pub mod parsing;
pub mod render;
pub mod bus;
pub mod app;
pub mod task;
pub mod requests;
pub mod laws;
