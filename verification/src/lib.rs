//! The core of a terminal chat client: the state of the conversations and their
//! message caches, and the reducer that applies one event at a time to it.

pub mod app;
pub mod chat;
pub mod job;
pub mod laws;
pub mod message;
pub mod model;
pub mod screen;
pub mod terminal;
pub mod ui;
pub mod worker;
