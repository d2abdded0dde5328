//! The configuration surface the registry and server consume.
//!
//! Every option is optional in the configuration file; the effective value
//! of each is pinned down here, so defaulting is part of the verified
//! library and the surrounding process only parses and forwards.

use vstd::prelude::*;

verus! {

/// Which relational engine backs the store.
#[derive(Clone, Copy, Debug, PartialEq, Eq, Structural)]
pub enum DatabaseType {
    /// A Postgres-family engine.
    Postgres,
    /// A SQLite-family engine.
    Sqlite,
}

/// The engine assumed when the configuration names none.
pub fn default_database_type() -> (t: DatabaseType)
    ensures
        t == DatabaseType::Postgres,
{
    DatabaseType::Postgres
}

/// Options for the web server and core functionality.
pub struct BaseOptions {
    /// Code length for generated short links; 6 when absent.
    pub code_size: Option<usize>,
    /// Port for the web server to listen on; 8080 when absent.
    pub port: Option<u16>,
    /// Bearer token authorizing deletes; generated at startup when absent.
    pub bearer_token: Option<String>,
}

/// Database connection configuration.
pub struct DatabaseConfig {
    /// Which engine to connect to.
    pub database_type: DatabaseType,
    /// User name for the connection.
    pub username: Option<String>,
    /// Password for the connection.
    pub password: Option<String>,
    /// Host to connect to; "localhost" when absent.
    pub host: Option<String>,
    /// Port to connect to; 5432 when absent.
    pub port: Option<u16>,
    /// Database name (or file path for SQLite); "swiftlink_db" when absent.
    pub database: Option<String>,
    /// Connection-pool size; 5 when absent.
    pub max_connections: Option<u32>,
}

/// Server configuration: base options and database configuration.
pub struct Config {
    /// Base options.
    pub base: BaseOptions,
    /// Database configuration details.
    pub database: DatabaseConfig,
}

impl Default for Config {
    /// The configuration assumed when no file is given or it cannot be
    /// read: a local Postgres with stock credentials.
    fn default() -> (c: Config)
        ensures
            c.base.code_size == Some(6usize),
            c.base.port == Some(8080u16),
            c.base.bearer_token is None,
            c.database.database_type == DatabaseType::Postgres,
            c.database.username matches Some(u) && u@ == "postgres"@,
            c.database.password matches Some(p) && p@ == "password"@,
            c.database.host matches Some(h) && h@ == "localhost"@,
            c.database.port == Some(5432u16),
            c.database.database matches Some(d) && d@ == "swiftlink_db"@,
            c.database.max_connections == Some(5u32),
    {
        Config {
            base: BaseOptions { code_size: Some(6), port: Some(8080), bearer_token: None },
            database: DatabaseConfig {
                database_type: DatabaseType::Postgres,
                username: Some("postgres".to_owned()),
                password: Some("password".to_owned()),
                host: Some("localhost".to_owned()),
                port: Some(5432),
                database: Some("swiftlink_db".to_owned()),
                max_connections: Some(5),
            },
        }
    }
}

impl Config {
    /// The code length to generate, with its default applied.
    pub fn effective_code_size(&self) -> (n: usize)
        ensures
            n == match self.base.code_size {
                Some(v) => v,
                None => 6usize,
            },
    {
        match self.base.code_size {
            Some(v) => v,
            None => 6,
        }
    }

    /// The port the web server listens on, with its default applied.
    pub fn effective_port(&self) -> (p: u16)
        ensures
            p == match self.base.port {
                Some(v) => v,
                None => 8080u16,
            },
    {
        match self.base.port {
            Some(v) => v,
            None => 8080,
        }
    }

    /// The database port to connect to, with its default applied.
    pub fn effective_db_port(&self) -> (p: u16)
        ensures
            p == match self.database.port {
                Some(v) => v,
                None => 5432u16,
            },
    {
        match self.database.port {
            Some(v) => v,
            None => 5432,
        }
    }

    /// The connection-pool size, with its default applied.
    pub fn effective_max_connections(&self) -> (n: u32)
        ensures
            n == match self.database.max_connections {
                Some(v) => v,
                None => 5u32,
            },
    {
        match self.database.max_connections {
            Some(v) => v,
            None => 5,
        }
    }

    /// The host to connect to, with its default applied.
    pub fn effective_host(&self) -> (h: String)
        ensures
            match self.database.host {
                Some(v) => h@ == v@,
                None => h@ == "localhost"@,
            },
    {
        match &self.database.host {
            Some(v) => v.clone(),
            None => "localhost".to_owned(),
        }
    }

    /// The database name, with its default applied.
    pub fn effective_database(&self) -> (d: String)
        ensures
            match self.database.database {
                Some(v) => d@ == v@,
                None => d@ == "swiftlink_db"@,
            },
    {
        match &self.database.database {
            Some(v) => v.clone(),
            None => "swiftlink_db".to_owned(),
        }
    }
}

} // verus!
