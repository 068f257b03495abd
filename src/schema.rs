use vstd::prelude::*;
use crate::text::push_str;

verus! {

/// Identifier of the relay when the configuration names none.
pub const DEFAULT_RELAY_ID: &'static str = "self-hosted";

/// Platform address used when the configuration names none.
pub const DEFAULT_TAGOIO_URL: &'static str = "https://api.tago.io";

/// Port of the downlink API when the configuration names none.
pub const DEFAULT_DOWNLINK_PORT: u16 = 3000;

/// MQTT client identifier used when the configuration names none.
pub const DEFAULT_CLIENT_ID: &'static str = "tagoio-relay";

/// The view of an optional string.
pub open spec fn opt_view(o: Option<String>) -> Option<Seq<char>> {
    match o {
        Some(s) => Some(s@),
        None => None,
    }
}

/// `m` is `before` with the client identifier filled in where absent.
pub open spec fn mqtt_defaults_applied(before: Mqtt, m: Mqtt) -> bool {
    &&& m == (Mqtt { client_id: m.client_id, ..before })
    &&& before.client_id is Some ==> m.client_id == before.client_id
    &&& before.client_id is None ==> opt_view(m.client_id) == Some(DEFAULT_CLIENT_ID@)
}

/// `c` is `before` with the Platform address, the downlink port and the
/// client identifier filled in where absent.
pub open spec fn config_defaults_applied(before: ConfigFile, c: ConfigFile) -> bool {
    &&& c == (ConfigFile { tagoio_url: c.tagoio_url, downlink_port: c.downlink_port, mqtt: c.mqtt, ..before })
    &&& before.tagoio_url is Some ==> c.tagoio_url == before.tagoio_url
    &&& before.tagoio_url is None ==> opt_view(c.tagoio_url) == Some(DEFAULT_TAGOIO_URL@)
    &&& c.downlink_port == Some(
        match before.downlink_port {
            Some(p) => p,
            None => DEFAULT_DOWNLINK_PORT,
        },
    )
    &&& mqtt_defaults_applied(before.mqtt, c.mqtt)
}

/// The settings of one relay, as read from the `[relay]` table.
#[derive(Clone, Debug, Default)]
pub struct ConfigFile {
    pub network_token: String,
    pub authorization_token: String,
    /// Platform base address; `https://api.tago.io` once defaults are applied.
    pub tagoio_url: Option<String>,
    /// Port of the downlink API; 3000 once defaults are applied.
    pub downlink_port: Option<u16>,
    pub mqtt: Mqtt,
}

/// The settings of the customer broker.
#[derive(Clone, Debug, Default)]
pub struct Mqtt {
    /// MQTT client identifier; `tagoio-relay` once defaults are applied.
    pub client_id: Option<String>,
    pub tls_enabled: bool,
    pub address: String,
    pub port: u16,
    /// Topic filters to subscribe to, in order; may be empty.
    pub subscribe: Vec<String>,
    pub username: Option<String>,
    pub password: Option<String>,
    /// Path of the PEM file of the broker's certificate authority.
    pub broker_tls_ca: Option<String>,
    /// Path of the PEM file of the client certificate.
    pub broker_tls_cert: Option<String>,
    /// Path of the PEM file of the client key.
    pub broker_tls_key: Option<String>,
}

/// One relay: a bridge between one broker and the Platform.
#[derive(Clone, Debug)]
pub struct RelayConfig {
    pub id: String,
    pub config: ConfigFile,
    pub profile_id: Option<String>,
    /// The network the Platform reported for the network token, once verified.
    pub network_id: Option<String>,
}

/// A configuration that breaks one of the invariants of a relay.
#[derive(Clone, Copy, Debug, PartialEq, Eq, Structural)]
pub enum ConfigError {
    EmptyNetworkToken,
    EmptyAuthorizationToken,
    /// A username is set without a password.
    MissingPassword,
    /// The downlink port is 0.
    InvalidDownlinkPort,
    /// No configuration was loaded.
    Missing,
}

/// A publish request received on the downlink API.
#[derive(Clone, Debug)]
pub struct PublishRequest {
    pub topic: String,
    pub message: String,
    /// The relay to publish through; the first session when absent.
    pub relay_id: Option<String>,
    pub qos: u8,
    pub retain: bool,
}

impl Mqtt {
    /// The broker settings with the client identifier filled in.
    pub fn with_defaults(self) -> (r: Result<Mqtt, ConfigError>)
        ensures
            r is Ok,
            r matches Ok(m) ==> mqtt_defaults_applied(self, m),
    {
        let mut m = self;
        if m.client_id.is_none() {
            m.client_id = Some(String::from_str(DEFAULT_CLIENT_ID));
        }
        Ok(m)
    }
}

impl ConfigFile {
    /// The settings with the Platform address, the downlink port and the
    /// client identifier filled in where absent.
    pub fn with_defaults(self) -> (r: Result<ConfigFile, ConfigError>)
        ensures
            r is Ok,
            r matches Ok(c) ==> config_defaults_applied(self, c),
    {
        let mut c = self;
        if c.tagoio_url.is_none() {
            c.tagoio_url = Some(String::from_str(DEFAULT_TAGOIO_URL));
        }
        if c.downlink_port.is_none() {
            c.downlink_port = Some(DEFAULT_DOWNLINK_PORT);
        }
        let ConfigFile { network_token, authorization_token, tagoio_url, downlink_port, mqtt } = c;
        match mqtt.with_defaults() {
            Ok(mqtt) => Ok(ConfigFile { network_token, authorization_token, tagoio_url, downlink_port, mqtt }),
            Err(e) => Err(e),
        }
    }

    /// Checks the invariants of a relay's settings: both Platform tokens are
    /// non-empty, a username comes with a password, and the downlink port is
    /// not 0. The first broken one is reported, in that order.
    pub fn validate(&self) -> (r: Result<(), ConfigError>)
        ensures
            r == (if self.network_token@.len() == 0 {
                Err(ConfigError::EmptyNetworkToken)
            } else if self.authorization_token@.len() == 0 {
                Err(ConfigError::EmptyAuthorizationToken)
            } else if self.mqtt.username is Some && self.mqtt.password is None {
                Err(ConfigError::MissingPassword)
            } else if self.downlink_port == Some(0u16) {
                Err(ConfigError::InvalidDownlinkPort)
            } else {
                Ok(())
            }),
    {
        if self.network_token.as_str().unicode_len() == 0 {
            Err(ConfigError::EmptyNetworkToken)
        } else if self.authorization_token.as_str().unicode_len() == 0 {
            Err(ConfigError::EmptyAuthorizationToken)
        } else if self.mqtt.username.is_some() && self.mqtt.password.is_none() {
            Err(ConfigError::MissingPassword)
        } else if self.downlink_port == Some(0u16) {
            Err(ConfigError::InvalidDownlinkPort)
        } else {
            Ok(())
        }
    }
}

impl RelayConfig {
    /// The single relay of a configuration file: identified as
    /// `self-hosted`, with the profile `self-hosted` unless one is given, the
    /// settings' defaults applied, and no verified network yet.
    pub fn new_with_defaults(profile_id: Option<String>, config: ConfigFile) -> (r: Result<RelayConfig, ConfigError>)
        ensures
            r is Ok,
            r matches Ok(rc) ==> {
                &&& rc.id@ == DEFAULT_RELAY_ID@
                &&& profile_id is Some ==> rc.profile_id == profile_id
                &&& profile_id is None ==> opt_view(rc.profile_id) == Some(DEFAULT_RELAY_ID@)
                &&& config_defaults_applied(config, rc.config)
                &&& rc.network_id is None
            },
    {
        let profile_id = match profile_id {
            Some(p) => Some(p),
            None => Some(String::from_str(DEFAULT_RELAY_ID)),
        };
        let config = match config.with_defaults() {
            Ok(c) => c,
            Err(e) => {
                return Err(e);
            },
        };
        Ok(RelayConfig { id: String::from_str(DEFAULT_RELAY_ID), config, profile_id, network_id: None })
    }
}

/// Name of the configuration file.
pub const CONFIG_FILE_NAME: &'static str = ".tagoio-mqtt-relay.toml";

/// The home directory, or the current one when there is none.
pub open spec fn home_dir_of(home: Option<Seq<char>>) -> Seq<char> {
    match home {
        Some(h) => h,
        None => "."@,
    }
}

/// Where the configuration file is looked for, in order of precedence: the
/// path given on the command line, the path in the environment, the file in
/// `.config` of the home directory (the current directory when there is no
/// home).
pub open spec fn config_path_of(user: Option<Seq<char>>, env: Option<Seq<char>>, home: Option<Seq<char>>) -> Seq<char> {
    match user {
        Some(p) => p,
        None => match env {
            Some(p) => p,
            None => home_dir_of(home) + "/.config/"@ + CONFIG_FILE_NAME@,
        },
    }
}

/// The configuration file's path from the command line, the environment and
/// the home directory.
pub fn resolve_config_path(user: Option<String>, env: Option<String>, home: Option<String>) -> (r: String)
    ensures
        r@ == config_path_of(opt_view(user), opt_view(env), opt_view(home)),
{
    match user {
        Some(p) => p,
        None => match env {
            Some(p) => p,
            None => {
                let mut path = match home {
                    Some(h) => h,
                    None => String::from_str("."),
                };
                push_str(&mut path, "/.config/");
                push_str(&mut path, CONFIG_FILE_NAME);
                path
            },
        },
    }
}

/// The configuration file inside a directory.
pub fn config_file_in(dir: &str) -> (r: String)
    ensures
        dir@.len() > 0 && dir@.last() == '/' ==> r@ == dir@ + CONFIG_FILE_NAME@,
        !(dir@.len() > 0 && dir@.last() == '/') ==> r@ == dir@ + "/"@ + CONFIG_FILE_NAME@,
{
    let mut path = String::from_str(dir);
    let n = dir.unicode_len();
    if !(n > 0 && dir.get_char(n - 1) == '/') {
        push_str(&mut path, "/");
    }
    push_str(&mut path, CONFIG_FILE_NAME);
    path
}

/// The relays of the loaded configuration: the one relay that a
/// configuration file describes, with its defaults applied.
pub fn get_relay_list(config: Option<ConfigFile>) -> (r: Result<Vec<RelayConfig>, ConfigError>)
    ensures
        config is None <==> r == Err::<Vec<RelayConfig>, ConfigError>(ConfigError::Missing),
        config matches Some(c) ==> (r matches Ok(v) && v@.len() == 1 && v@[0].id@ == DEFAULT_RELAY_ID@
            && opt_view(v@[0].profile_id) == Some(DEFAULT_RELAY_ID@) && config_defaults_applied(
            c,
            v@[0].config,
        ) && v@[0].network_id is None),
{
    match config {
        None => Err(ConfigError::Missing),
        Some(c) => match RelayConfig::new_with_defaults(None, c) {
            Ok(relay) => Ok(vec![relay]),
            Err(e) => Err(e),
        },
    }
}

} // verus!
