//! What each operation gives for its inputs, value by value.

pub mod calls;
pub mod control;
pub mod manager;
pub mod session;
pub mod text;
pub mod transport;
pub mod views;
