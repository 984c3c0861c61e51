//! The application configuration: where the key and the database lie, and the
//! port to listen on. Every setting has a default.

use vstd::prelude::*;

verus! {

/// Where the configuration file is trying to be found if not specified.
pub const DEFAULT_CONFIG_FILE_PATH: &'static str = "/var/lib/keybear/config.toml";

/// Where the file containing the crypto keys resides.
pub const DEFAULT_KEY_PATH: &'static str = "/var/lib/keybear/key";

/// Where the database resides.
pub const DEFAULT_DATABASE_PATH: &'static str = "/var/lib/keybear/db";

/// The port that the server will listen on for the hidden service.
pub const DEFAULT_SERVER_PORT: u16 = 52477;

/// Configuration table for the server.
#[derive(Debug, PartialEq, Eq)]
pub struct ServerConfig {
    /// Port to listen to the hidden service.
    pub port: Option<u16>,
}

impl ServerConfig {
    /// Port to use that the hidden service tries to connect to.
    pub fn port(&self) -> (res: u16)
        ensures
            res == (match self.port {
                Some(port) => port,
                None => DEFAULT_SERVER_PORT,
            }),
    {
        match self.port {
            Some(port) => port,
            None => DEFAULT_SERVER_PORT,
        }
    }
}

/// The application configuration.
#[derive(Debug, PartialEq, Eq)]
pub struct Config {
    /// Location of the file containing the secret key.
    pub key_path: Option<String>,
    /// Location of the database.
    pub database_path: Option<String>,
    /// Information about things like the ports to run on.
    pub server: Option<ServerConfig>,
}

impl Default for Config {
    fn default() -> (res: Self)
        ensures
            res.key_path is None,
            res.database_path is None,
            res.server is None,
    {
        Config { key_path: None, database_path: None, server: None }
    }
}

/// The port that a configuration asks for.
pub open spec fn spec_server_port(config: Config) -> u16 {
    match config.server {
        Some(server) => match server.port {
            Some(port) => port,
            None => DEFAULT_SERVER_PORT,
        },
        None => DEFAULT_SERVER_PORT,
    }
}

impl Config {
    /// The configuration to run with: what the default configuration file
    /// holds, if there is such a file, else the defaults.
    pub fn from_default_file_or_empty(default_file: Option<Config>) -> (res: Self)
        ensures
            match default_file {
                Some(config) => res == config,
                None => res.key_path is None && res.database_path is None && res.server is None,
            },
    {
        match default_file {
            Some(config) => config,
            None => Config::default(),
        }
    }

    /// Path of the secret key.
    pub fn key_path(&self) -> (res: &str)
        ensures
            res@ == (match self.key_path {
                Some(path) => path@,
                None => DEFAULT_KEY_PATH@,
            }),
    {
        match &self.key_path {
            Some(path) => path.as_str(),
            None => DEFAULT_KEY_PATH,
        }
    }

    /// Path of the database.
    pub fn database_path(&self) -> (res: &str)
        ensures
            res@ == (match self.database_path {
                Some(path) => path@,
                None => DEFAULT_DATABASE_PATH@,
            }),
    {
        match &self.database_path {
            Some(path) => path.as_str(),
            None => DEFAULT_DATABASE_PATH,
        }
    }

    /// Port to use that the hidden service tries to connect to.
    pub fn server_port(&self) -> (res: u16)
        ensures
            res == spec_server_port(*self),
    {
        match &self.server {
            Some(server) => server.port(),
            None => DEFAULT_SERVER_PORT,
        }
    }
}

} // verus!
