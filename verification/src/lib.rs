//! The core of a self-hosted password vault: device enrollment, per-device
//! encrypted sessions, and the request pipeline that ties them together.

pub mod app;
pub mod body;
pub mod command;
pub mod config;
pub mod crypto;
pub mod device;
pub mod error;
pub mod id;
pub mod net;
pub mod password;
pub mod protocol;
pub mod route;
pub mod store;
pub mod text;
pub mod tor;
pub mod types;
