//! The gateway instance: sessions, ownership directory, routing and ingress.

pub mod args;
pub mod config;
pub mod delivery;
pub mod directory;
pub mod handlers;
pub mod lifecycle;
pub mod logger;
pub mod messages;
pub mod router;
pub mod routes;
pub mod server;
pub mod sessions;
pub mod ws;
