//! The client's logic: its configuration, how it reads the server's answers, its session
//! and the state its window shows.

use vstd::prelude::*;

use crate::utils::TOML;

pub mod gui;
pub mod network;
pub mod request;

verus! {

/// The application's name, shown in the title bar.
pub const NAME: &'static str = "Yumush";

/// Which server the client connects to.
pub struct ClientConfig {
    server_address: String,
    server_name: String,
}

impl ClientConfig {
    pub closed spec fn server_address(&self) -> Seq<char> {
        self.server_address@
    }

    pub closed spec fn server_name(&self) -> Seq<char> {
        self.server_name@
    }

    /// Reads the configuration's fields; `None` when one of them is missing.
    pub fn from_toml(toml: &TOML) -> (config: Option<ClientConfig>)
        ensures
            config is Some <==> toml.field_view().dom().contains("server_address"@)
                && toml.field_view().dom().contains("server_name"@),
            config matches Some(config) ==> config.server_address() == toml.field_view()[
                "server_address"@] && config.server_name() == toml.field_view()["server_name"@],
    {
        match (toml.get("server_address"), toml.get("server_name")) {
            (Some(server_address), Some(server_name)) => Some(
                ClientConfig {
                    server_address: server_address.to_owned(),
                    server_name: server_name.to_owned(),
                },
            ),
            _ => None,
        }
    }

    pub fn get_server_address(&self) -> (server_address: &str)
        ensures
            server_address@ == self.server_address(),
    {
        self.server_address.as_str()
    }

    pub fn get_server_name(&self) -> (server_name: &str)
        ensures
            server_name@ == self.server_name(),
    {
        self.server_name.as_str()
    }
}

} // verus!
