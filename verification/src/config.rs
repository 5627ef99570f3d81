//! Server configuration and its defaults.
use vstd::prelude::*;

verus! {

#[derive(Debug, Clone)]
pub struct AppConfig {
    pub server: ServerConfig,
    pub storage: StorageConfig,
    pub auth: AuthConfig,
    pub session: SessionDefaults,
}

#[derive(Debug, Clone)]
pub struct ServerConfig {
    pub host: String,
    pub port: u16,
}

#[derive(Debug, Clone)]
pub struct StorageConfig {
    /// Storage backend (`type` in the configuration file).
    pub kind: String,
    pub path: String,
}

#[derive(Debug, Clone)]
pub struct AuthConfig {
    /// Authentication scheme (`type` in the configuration file).
    pub kind: String,
}

#[derive(Debug, Clone)]
pub struct SessionDefaults {
    /// Seconds of inactivity before a session is reaped.
    pub idle_timeout: u64,
    pub max_scrollback: usize,
}

pub fn default_host() -> (s: String)
    ensures
        s@ == "0.0.0.0"@,
{
    "0.0.0.0".to_owned()
}

pub fn default_port() -> (p: u16)
    ensures
        p == 7700,
{
    7700
}

pub fn default_storage_type() -> (s: String)
    ensures
        s@ == "sqlite"@,
{
    "sqlite".to_owned()
}

pub fn default_db_path() -> (s: String)
    ensures
        s@ == "~/.telepair/telepair.db"@,
{
    "~/.telepair/telepair.db".to_owned()
}

pub fn default_auth_type() -> (s: String)
    ensures
        s@ == "token"@,
{
    "token".to_owned()
}

pub fn default_idle_timeout() -> (t: u64)
    ensures
        t == 3600,
{
    3600
}

pub fn default_max_scrollback() -> (n: usize)
    ensures
        n == 10000,
{
    10000
}

pub fn default_server() -> (c: ServerConfig)
    ensures
        c.host@ == "0.0.0.0"@,
        c.port == 7700,
{
    ServerConfig { host: default_host(), port: default_port() }
}

impl Default for StorageConfig {
    fn default() -> (c: Self)
        ensures
            c.kind@ == "sqlite"@,
            c.path@ == "~/.telepair/telepair.db"@,
    {
        StorageConfig { kind: default_storage_type(), path: default_db_path() }
    }
}

impl Default for AuthConfig {
    fn default() -> (c: Self)
        ensures
            c.kind@ == "token"@,
    {
        AuthConfig { kind: default_auth_type() }
    }
}

impl Default for SessionDefaults {
    fn default() -> (c: Self)
        ensures
            c.idle_timeout == 3600,
            c.max_scrollback == 10000,
    {
        SessionDefaults { idle_timeout: default_idle_timeout(), max_scrollback: default_max_scrollback() }
    }
}

impl Default for AppConfig {
    fn default() -> (c: Self)
        ensures
            c.server.host@ == "0.0.0.0"@,
            c.server.port == 7700,
            c.storage.kind@ == "sqlite"@,
            c.storage.path@ == "~/.telepair/telepair.db"@,
            c.auth.kind@ == "token"@,
            c.session.idle_timeout == 3600,
            c.session.max_scrollback == 10000,
    {
        AppConfig {
            server: default_server(),
            storage: StorageConfig::default(),
            auth: AuthConfig::default(),
            session: SessionDefaults::default(),
        }
    }
}

} // verus!
