//! The server's logic: its records, the answer to each request, and its configuration.

use vstd::prelude::*;

use crate::utils::TOML;

pub mod authentication;
pub mod community;
pub mod error;
pub mod identifier;
pub mod message;
pub mod user;

pub mod request;
pub mod network;
pub mod user_community;

verus! {

/// Where the server listens and which database it uses.
pub struct ServerConfig {
    database_prefix: String,
    database_address: String,
    namespace: String,
    database: String,
    username: String,
    password: String,
    server_address: String,
}

/// The configuration holds every key the server needs.
pub open spec fn holds_server_keys(fields: Map<Seq<char>, Seq<char>>) -> bool {
    &&& fields.dom().contains("database_prefix"@)
    &&& fields.dom().contains("database_address"@)
    &&& fields.dom().contains("namespace"@)
    &&& fields.dom().contains("database"@)
    &&& fields.dom().contains("username"@)
    &&& fields.dom().contains("password"@)
    &&& fields.dom().contains("server_address"@)
}

impl ServerConfig {
    pub closed spec fn database_prefix(&self) -> Seq<char> {
        self.database_prefix@
    }

    pub closed spec fn database_address(&self) -> Seq<char> {
        self.database_address@
    }

    pub closed spec fn namespace(&self) -> Seq<char> {
        self.namespace@
    }

    pub closed spec fn database(&self) -> Seq<char> {
        self.database@
    }

    pub closed spec fn username(&self) -> Seq<char> {
        self.username@
    }

    pub closed spec fn password(&self) -> Seq<char> {
        self.password@
    }

    pub closed spec fn server_address(&self) -> Seq<char> {
        self.server_address@
    }

    /// Reads the configuration's fields; `None` when one of them is missing.
    pub fn from_toml(toml: &TOML) -> (config: Option<ServerConfig>)
        ensures
            config is Some <==> holds_server_keys(toml.field_view()),
            config matches Some(config) ==> {
                &&& config.database_prefix() == toml.field_view()["database_prefix"@]
                &&& config.database_address() == toml.field_view()["database_address"@]
                &&& config.namespace() == toml.field_view()["namespace"@]
                &&& config.database() == toml.field_view()["database"@]
                &&& config.username() == toml.field_view()["username"@]
                &&& config.password() == toml.field_view()["password"@]
                &&& config.server_address() == toml.field_view()["server_address"@]
            },
    {
        let database_prefix = toml.get("database_prefix");
        let database_address = toml.get("database_address");
        let namespace = toml.get("namespace");
        let database = toml.get("database");
        let username = toml.get("username");
        let password = toml.get("password");
        let server_address = toml.get("server_address");
        match (
            database_prefix,
            database_address,
            namespace,
            database,
            username,
            password,
            server_address,
        ) {
            (
                Some(database_prefix),
                Some(database_address),
                Some(namespace),
                Some(database),
                Some(username),
                Some(password),
                Some(server_address),
            ) => Some(
                ServerConfig {
                    database_prefix: database_prefix.to_owned(),
                    database_address: database_address.to_owned(),
                    namespace: namespace.to_owned(),
                    database: database.to_owned(),
                    username: username.to_owned(),
                    password: password.to_owned(),
                    server_address: server_address.to_owned(),
                },
            ),
            _ => None,
        }
    }

    /// The address the database client connects to: `prefix://address`.
    pub fn database_connection_address(&self) -> (address: String)
        ensures
            address@ == self.database_prefix() + "://"@ + self.database_address(),
    {
        let mut address = self.database_prefix.clone();
        address.append("://");
        address.append(self.database_address.as_str());
        address
    }

    /// The server signs in to the database only when both a user name and a password are
    /// configured.
    pub fn signs_in(&self) -> (signs_in: bool)
        ensures
            signs_in == (self.username().len() > 0 && self.password().len() > 0),
    {
        !self.username.as_str().is_empty() && !self.password.as_str().is_empty()
    }

    pub fn get_namespace(&self) -> (namespace: &str)
        ensures
            namespace@ == self.namespace(),
    {
        self.namespace.as_str()
    }

    pub fn get_database(&self) -> (database: &str)
        ensures
            database@ == self.database(),
    {
        self.database.as_str()
    }

    pub fn get_username(&self) -> (username: &str)
        ensures
            username@ == self.username(),
    {
        self.username.as_str()
    }

    pub fn get_password(&self) -> (password: &str)
        ensures
            password@ == self.password(),
    {
        self.password.as_str()
    }

    pub fn get_server_address(&self) -> (server_address: &str)
        ensures
            server_address@ == self.server_address(),
    {
        self.server_address.as_str()
    }
}

} // verus!
