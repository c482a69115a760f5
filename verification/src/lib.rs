//! State keeping and request handling of a desktop pet.
pub mod autostart;
pub mod event;
pub mod http;
pub mod json;
pub mod manager;
pub mod routes;
pub mod session;
pub mod shell;
pub mod state;
pub mod text;
pub mod webui;
pub mod window;
