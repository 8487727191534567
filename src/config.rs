use vstd::prelude::*;

verus! {

/// Why the process cannot start.
#[derive(Clone, Copy, Debug, PartialEq, Eq, Structural)]
pub enum ConfigError {
    /// A required setting is missing.
    MissingSetting,
    /// No tree is registered for indexing.
    NoTrees,
}

/// The endpoints the process connects to, read once at start.
pub struct EnvConfig {
    rpc_url: String,
    websocket_url: String,
    database_url: String,
}

pub struct EnvConfigView {
    pub rpc_url: Seq<char>,
    pub websocket_url: Seq<char>,
    pub database_url: Seq<char>,
}

impl View for EnvConfig {
    type V = EnvConfigView;

    closed spec fn view(&self) -> EnvConfigView {
        EnvConfigView {
            rpc_url: self.rpc_url@,
            websocket_url: self.websocket_url@,
            database_url: self.database_url@,
        }
    }
}

impl EnvConfig {
    pub fn new(websocket_url: String, rpc_url: String, database_url: String) -> (r: EnvConfig)
        ensures
            r@.websocket_url == websocket_url@,
            r@.rpc_url == rpc_url@,
            r@.database_url == database_url@,
    {
        EnvConfig { rpc_url, websocket_url, database_url }
    }

    /// Builds the configuration from the three settings as found, failing
    /// when any of them is missing.
    pub fn from_settings(
        websocket_url: Option<String>,
        rpc_url: Option<String>,
        database_url: Option<String>,
    ) -> (r: Result<EnvConfig, ConfigError>)
        ensures
            websocket_url is None || rpc_url is None || database_url is None ==> r
                is Err && r->Err_0 == ConfigError::MissingSetting,
            websocket_url is Some && rpc_url is Some && database_url is Some ==> (r matches Ok(c)
                && c@.websocket_url == websocket_url->0@ && c@.rpc_url == rpc_url->0@
                && c@.database_url == database_url->0@),
    {
        match (websocket_url, rpc_url, database_url) {
            (Some(w), Some(u), Some(d)) => Ok(EnvConfig::new(w, u, d)),
            _ => Err(ConfigError::MissingSetting),
        }
    }

    pub fn get_websocket_url(&self) -> (r: &String)
        ensures
            r@ == self@.websocket_url,
    {
        &self.websocket_url
    }

    pub fn get_rpc_url(&self) -> (r: &String)
        ensures
            r@ == self@.rpc_url,
    {
        &self.rpc_url
    }

    pub fn get_database_url(&self) -> (r: &String)
        ensures
            r@ == self@.database_url,
    {
        &self.database_url
    }
}

} // verus!
