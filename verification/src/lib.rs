//! A verified core for an interactive command console: the application state,
//! the key handling and command dispatch that change it, the screen layout
//! drawn from it, and the lifecycle of the terminal session around them.

pub mod command;
pub mod input;
pub mod render;
pub mod session;
pub mod state;
pub mod text;
