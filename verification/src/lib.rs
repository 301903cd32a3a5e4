//! A local WebSocket RPC and pub-sub gateway: message protocol, handler and
//! connection registries, frame dispatch and lifecycle, with the rules around
//! the application's todo, pomodoro and tray features.
//!
//! The gateway itself is in `message`, `registry`, `connection`, `router`,
//! `lifecycle` and `notification`. Sockets, tasks and the database belong to
//! the application; the library decides what is queued, for whom, and what
//! is stored.

pub mod api;
pub mod caldav;
pub mod connection;
pub mod database;
pub mod json;
pub mod lifecycle;
pub mod message;
pub mod migration;
pub mod notification;
pub mod pomodoro;
pub mod registry;
pub mod router;
pub mod settings;
pub mod text;
pub mod time;
pub mod todo;
pub mod tray;
pub mod window;
