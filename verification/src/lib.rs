//! Chat service: shared message types, validation, wire framing and the
//! decision logic of the server and the client.

pub mod constant;

pub mod error;
pub mod validate;
pub mod request;
pub mod community;
pub mod event;
pub mod message;
pub mod response;
pub mod user;
pub mod text;
pub mod utils;
pub mod network;
pub mod server;
pub mod order;
pub mod client;
