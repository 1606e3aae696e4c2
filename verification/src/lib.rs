//! Socket activation and admin server start-up for a sidecar process.

pub mod text;
pub mod decimal;
pub mod activation_name;
pub mod error;
pub mod activation_env;
pub mod activation_sockets;
pub mod handover;
pub mod activation;
pub mod admin_server;
