pub mod app;
pub mod clock;
pub mod commands;
pub mod config;
pub mod control;
pub mod dispatch;
pub mod framing;
pub mod handlers;
pub mod input;
pub mod keys;
pub mod logger;
pub mod macros;
pub mod ports;
pub mod search;
pub mod serial;
pub mod text;
pub mod view;
