//! A synchronized-timer service: the data model of stored timers, the
//! migrations from older stored shapes, and the rules that the HTTP and
//! WebSocket layers apply.
pub mod api;
pub mod assets;
pub mod auth;
pub mod color;
pub mod keyspace;
pub mod models;
pub mod redis_migrations;
pub mod timer;
pub mod ws;
