//! The service's configuration: the settings it starts from, assembled and
//! validated from the raw environment values the launcher looked up.

use vstd::prelude::*;

use crate::envvars_loader::{get_var_string_required, get_var_u16_required};
use crate::numparse::spec_parse_int;

verus! {

/// A raw setting that is present and non-empty.
pub open spec fn spec_env_nonempty(v: Option<String>) -> bool {
    match v {
        Some(s) => s@.len() > 0,
        None => false,
    }
}

/// A raw setting that reads as an unsigned decimal port number.
pub open spec fn spec_env_port_ok(v: Option<String>) -> bool {
    match v {
        Some(s) => s@.len() > 0 && s@[0] != '-' && match spec_parse_int(s@) {
            Some(w) => 0 <= w <= u16::MAX,
            None => false,
        },
        None => false,
    }
}

/// An environment snapshot the configuration accepts: every setting
/// present and non-empty, the broker port numeric.
pub open spec fn spec_env_ok(env: EnvSnapshot) -> bool {
    &&& spec_env_nonempty(env.broker_host)
    &&& spec_env_port_ok(env.broker_port)
    &&& spec_env_nonempty(env.broker_username)
    &&& spec_env_nonempty(env.broker_password)
    &&& spec_env_nonempty(env.listen_http_api)
    &&& spec_env_nonempty(env.apiserver_internal_api)
}

/// Connection settings of the message broker.
#[derive(Clone, Debug)]
pub struct BrokerConfig {
    pub host: String,
    pub port: u16,
    pub username: String,
    pub password: String,
    pub use_tls: bool,
    pub ca_cert: Option<String>,
}

/// The raw environment values the configuration is built from, as looked
/// up by the launcher.
#[derive(Clone, Debug)]
pub struct EnvSnapshot {
    pub broker_host: Option<String>,
    pub broker_port: Option<String>,
    pub broker_username: Option<String>,
    pub broker_password: Option<String>,
    pub listen_http_api: Option<String>,
    pub apiserver_internal_api: Option<String>,
}

/// The service's validated configuration.
#[derive(Clone, Debug)]
pub struct ConfigFile {
    pub listen_http_api: String,
    pub broker_config: BrokerConfig,
    pub apiserver_internal_api: String,
}

impl ConfigFile {
    /// Assembles the configuration from the environment snapshot: every
    /// setting is required and non-empty, the broker port numeric; TLS is
    /// off for the broker connection. Fails exactly when a setting is
    /// missing, empty or (the port) unparseable.
    pub fn from_env(env: &EnvSnapshot) -> (r: Result<ConfigFile, String>)
        ensures
            match r {
                Ok(cfg) => {
                    &&& spec_env_ok(*env)
                    &&& env.broker_host == Some(cfg.broker_config.host)
                    &&& (match env.broker_port {
                        Some(p) => spec_parse_int(p@) == Some(cfg.broker_config.port as int),
                        None => false,
                    })
                    &&& env.broker_username == Some(cfg.broker_config.username)
                    &&& env.broker_password == Some(cfg.broker_config.password)
                    &&& env.listen_http_api == Some(cfg.listen_http_api)
                    &&& env.apiserver_internal_api == Some(cfg.apiserver_internal_api)
                    &&& !cfg.broker_config.use_tls
                    &&& cfg.broker_config.ca_cert is None
                },
                Err(_) => !spec_env_ok(*env),
            },
    {
        let host = match get_var_string_required("brokerConfig_host", env.broker_host.clone()) {
            Ok(v) => v,
            Err(e) => {
                return Err(e);
            },
        };
        let port = match get_var_u16_required("brokerConfig_port", env.broker_port.clone()) {
            Ok(v) => v,
            Err(e) => {
                return Err(e);
            },
        };
        let username = match get_var_string_required(
            "brokerConfig_username",
            env.broker_username.clone(),
        ) {
            Ok(v) => v,
            Err(e) => {
                return Err(e);
            },
        };
        let password = match get_var_string_required(
            "brokerConfig_password",
            env.broker_password.clone(),
        ) {
            Ok(v) => v,
            Err(e) => {
                return Err(e);
            },
        };
        let listen_http_api = match get_var_string_required(
            "listen_http_api_realtime",
            env.listen_http_api.clone(),
        ) {
            Ok(v) => v,
            Err(e) => {
                return Err(e);
            },
        };
        let apiserver_internal_api = match get_var_string_required(
            "APISERVER_INTERNAL_API",
            env.apiserver_internal_api.clone(),
        ) {
            Ok(v) => v,
            Err(e) => {
                return Err(e);
            },
        };
        Ok(
            ConfigFile {
                listen_http_api,
                broker_config: BrokerConfig {
                    host,
                    port,
                    username,
                    password,
                    use_tls: false,
                    ca_cert: None,
                },
                apiserver_internal_api,
            },
        )
    }
}

} // verus!
