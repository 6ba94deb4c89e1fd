//! The configuration of the gateway, as the environment spells it.

use crate::decimal::{decimal, to_decimal};
use vstd::prelude::*;
use vstd::string::StringExecFns;

verus! {

/// The name of the variable that holds the app port.
pub const PORT: &'static str = "PORT";

/// The name of the variable that holds the metrics port.
pub const METRICS_PORT: &'static str = "METRICS_PORT";

/// The name of the variable that selects the DA backend.
pub const DA_BACKEND: &'static str = "VIA_DA_CLIENT_DA_BACKEND";

/// The name of the variable that holds the DA client node url.
pub const DA_NODE_URL: &'static str = "VIA_DA_CLIENT_API_NODE_URL";

/// The name of the variable that holds the DA client auth token.
pub const DA_AUTH_TOKEN: &'static str = "VIA_DA_CLIENT_AUTH_TOKEN";

/// The name of the variable that holds the DA blob size limit.
pub const DA_BLOB_SIZE_LIMIT: &'static str = "VIA_DA_CLIENT_BLOB_SIZE_LIMIT";

/// The DA blob size limit where the environment sets none: 1 MB.
pub const DEFAULT_BLOB_SIZE_LIMIT: usize = 1024 * 1024;

#[derive(Debug, Clone, PartialEq, Eq)]
pub enum DaBackend {
    Celestia,
    InMemory,
}

impl Default for DaBackend {
    fn default() -> (backend: Self)
        ensures
            backend == DaBackend::InMemory,
    {
        DaBackend::InMemory
    }
}

#[derive(Debug, Clone)]
pub struct Config {
    /// The app port
    pub port: u16,
    /// The app address
    pub app_address: String,
    /// Metric PORT
    pub metrics_port: u16,
    /// The metrics address
    pub metrics_address: String,
    /// The DA backend
    pub da_backend: DaBackend,
    /// The DA client node url
    pub da_node_url: Option<String>,
    /// The DA client auth token
    pub da_auth_token: Option<String>,
    /// The DA blob size limit
    pub da_blob_size_limit: usize,
}

/// The values of the variables that the configuration is read from, each
/// `None` where the environment does not set it.
#[derive(Debug, Clone)]
pub struct Environment {
    pub port: Option<String>,
    pub metrics_port: Option<String>,
    pub da_backend: Option<String>,
    pub da_node_url: Option<String>,
    pub da_auth_token: Option<String>,
    pub da_blob_size_limit: Option<String>,
}

/// Why the environment gives no configuration.
#[derive(Debug, Clone, PartialEq, Eq)]
pub enum ConfigError {
    /// The app port is not set.
    MissingPort,
    /// The app port is no port number.
    InvalidPort,
    /// The metrics port is not set.
    MissingMetricsPort,
    /// The metrics port is no port number.
    InvalidMetricsPort,
    /// The DA backend, here in lowercase, is none that the gateway knows.
    InvalidBackend(String),
    /// The Celestia backend is selected and the node url is not set.
    MissingNodeUrl,
    /// The Celestia backend is selected and the auth token is not set.
    MissingAuthToken,
}

/// A configuration with its texts as sequences of characters.
pub struct ConfigView {
    pub port: u16,
    pub app_address: Seq<char>,
    pub metrics_port: u16,
    pub metrics_address: Seq<char>,
    pub da_backend: DaBackend,
    pub da_node_url: Option<Seq<char>>,
    pub da_auth_token: Option<Seq<char>>,
    pub da_blob_size_limit: usize,
}

/// A configuration error with its text as a sequence of characters.
pub enum ConfigErrorView {
    MissingPort,
    InvalidPort,
    MissingMetricsPort,
    InvalidMetricsPort,
    InvalidBackend(Seq<char>),
    MissingNodeUrl,
    MissingAuthToken,
}

/// The text of a variable, if it is set.
pub open spec fn text_of(var: Option<String>) -> Option<Seq<char>> {
    match var {
        Some(text) => Some(text@),
        None => None,
    }
}

impl View for Config {
    type V = ConfigView;

    open spec fn view(&self) -> ConfigView {
        ConfigView {
            port: self.port,
            app_address: self.app_address@,
            metrics_port: self.metrics_port,
            metrics_address: self.metrics_address@,
            da_backend: self.da_backend,
            da_node_url: text_of(self.da_node_url),
            da_auth_token: text_of(self.da_auth_token),
            da_blob_size_limit: self.da_blob_size_limit,
        }
    }
}

impl View for ConfigError {
    type V = ConfigErrorView;

    open spec fn view(&self) -> ConfigErrorView {
        match self {
            ConfigError::MissingPort => ConfigErrorView::MissingPort,
            ConfigError::InvalidPort => ConfigErrorView::InvalidPort,
            ConfigError::MissingMetricsPort => ConfigErrorView::MissingMetricsPort,
            ConfigError::InvalidMetricsPort => ConfigErrorView::InvalidMetricsPort,
            ConfigError::InvalidBackend(name) => ConfigErrorView::InvalidBackend(name@),
            ConfigError::MissingNodeUrl => ConfigErrorView::MissingNodeUrl,
            ConfigError::MissingAuthToken => ConfigErrorView::MissingAuthToken,
        }
    }
}

/// The value of a decimal digit, if `c` is one.
pub open spec fn digit_value(c: char) -> Option<nat> {
    if '0' <= c && c <= '9' {
        Some((c as int - '0' as int) as nat)
    } else {
        None
    }
}

/// The number that `digits` spell in decimal, if they are digits and at
/// least one.
pub open spec fn digits_value(digits: Seq<char>) -> Option<nat>
    decreases digits.len(),
{
    if digits.len() == 0 {
        None
    } else if digits.len() == 1 {
        digit_value(digits[0])
    } else {
        match (digits_value(digits.drop_last()), digit_value(digits.last())) {
            (Some(upper), Some(last)) => Some(upper * 10 + last),
            _ => None,
        }
    }
}

/// The number that `text` spells, if it spells one that is at most `max`:
/// digits, at least one, with or without a `+` before them.
pub open spec fn unsigned_value(text: Seq<char>, max: nat) -> Option<nat> {
    let digits = if text.len() > 0 && text[0] == '+' {
        text.drop_first()
    } else {
        text
    };
    match digits_value(digits) {
        Some(value) => if value <= max {
            Some(value)
        } else {
            None
        },
        None => None,
    }
}

/// The address on which a service listens at `port`: every interface.
pub open spec fn address_of(port: u16) -> Seq<char> {
    "0.0.0.0:"@ + decimal(port as nat)
}

/// `text` in lowercase: what `str::to_lowercase` gives.
pub uninterp spec fn lowercase(text: Seq<char>) -> Seq<char>;

/// The backend that `name` selects, `name` being in lowercase; none selects
/// the default.
pub open spec fn backend_named(name: Seq<char>) -> Option<DaBackend> {
    if name == "celestia"@ {
        Some(DaBackend::Celestia)
    } else if name == "inmemory"@ || name == ""@ {
        Some(DaBackend::InMemory)
    } else {
        None
    }
}

/// The blob size limit that `var` sets: its number, or the default where it
/// is not set or spells none.
pub open spec fn blob_size_limit_of(var: Option<Seq<char>>) -> usize {
    match var {
        Some(text) => match unsigned_value(text, usize::MAX as nat) {
            Some(limit) => limit as usize,
            None => DEFAULT_BLOB_SIZE_LIMIT,
        },
        None => DEFAULT_BLOB_SIZE_LIMIT,
    }
}

/// Calls `str::parse` for a `u16`, which accepts decimal digits, at least
/// one, with or without a `+` before them, that spell a number within the
/// type's range.
#[verifier::external_body]
fn parse_u16(text: &str) -> (r: Option<u16>)
    ensures
        match r {
            Some(value) => unsigned_value(text@, u16::MAX as nat) == Some(value as nat),
            None => unsigned_value(text@, u16::MAX as nat) is None,
        },
{
    text.parse::<u16>().ok()
}

/// Calls `str::parse` for a `usize`, which accepts decimal digits, at least
/// one, with or without a `+` before them, that spell a number within the
/// type's range.
#[verifier::external_body]
fn parse_usize(text: &str) -> (r: Option<usize>)
    ensures
        match r {
            Some(value) => unsigned_value(text@, usize::MAX as nat) == Some(value as nat),
            None => unsigned_value(text@, usize::MAX as nat) is None,
        },
{
    text.parse::<usize>().ok()
}

/// Calls `str::to_lowercase`.
#[verifier::external_body]
fn to_lowercase(text: &str) -> (lowered: String)
    ensures
        lowered@ == lowercase(text@),
{
    text.to_lowercase()
}

impl ConfigError {
    /// The fault in words.
    pub open spec fn text(self) -> Seq<char> {
        match self {
            ConfigError::MissingPort => "PORT is required"@,
            ConfigError::InvalidPort => "PORT is not a port number"@,
            ConfigError::MissingMetricsPort => "METRICS_PORT is required"@,
            ConfigError::InvalidMetricsPort => "METRICS_PORT is not a port number"@,
            ConfigError::InvalidBackend(name) => "Invalid DA_BACKEND value: "@ + name@,
            ConfigError::MissingNodeUrl => "DA_NODE_URL is required for Celestia backend"@,
            ConfigError::MissingAuthToken => "DA_NODE_AUTH_TOKEN is required for Celestia backend"@,
        }
    }

    /// The fault in words, as a string.
    pub fn message(&self) -> (words: String)
        ensures
            words@ == self.text(),
    {
        match self {
            ConfigError::MissingPort => String::from_str("PORT is required"),
            ConfigError::InvalidPort => String::from_str("PORT is not a port number"),
            ConfigError::MissingMetricsPort => String::from_str("METRICS_PORT is required"),
            ConfigError::InvalidMetricsPort => String::from_str(
                "METRICS_PORT is not a port number",
            ),
            ConfigError::InvalidBackend(name) => String::from_str(
                "Invalid DA_BACKEND value: ",
            ).concat(name.as_str()),
            ConfigError::MissingNodeUrl => String::from_str(
                "DA_NODE_URL is required for Celestia backend",
            ),
            ConfigError::MissingAuthToken => String::from_str(
                "DA_NODE_AUTH_TOKEN is required for Celestia backend",
            ),
        }
    }
}

impl DaBackend {
    /// The backend that `name` selects, `name` being in lowercase.
    pub fn from_name(name: String) -> (r: Result<DaBackend, ConfigError>)
        ensures
            match r {
                Ok(backend) => backend_named(name@) == Some(backend),
                Err(e) => backend_named(name@) is None && e@ == ConfigErrorView::InvalidBackend(
                    name@,
                ),
            },
    {
        if name == String::from_str("celestia") {
            Ok(DaBackend::Celestia)
        } else if name == String::from_str("inmemory") || name == String::from_str("") {
            Ok(DaBackend::InMemory)
        } else {
            Err(ConfigError::InvalidBackend(name))
        }
    }
}

impl Config {
    /// The configuration that `env` spells, or the first fault in it: the
    /// ports come first, then the backend, then what the backend needs.
    pub open spec fn spelled(env: Environment) -> Result<ConfigView, ConfigErrorView> {
        if env.port is None {
            Err(ConfigErrorView::MissingPort)
        } else if unsigned_value(env.port.unwrap()@, u16::MAX as nat) is None {
            Err(ConfigErrorView::InvalidPort)
        } else if env.metrics_port is None {
            Err(ConfigErrorView::MissingMetricsPort)
        } else if unsigned_value(env.metrics_port.unwrap()@, u16::MAX as nat) is None {
            Err(ConfigErrorView::InvalidMetricsPort)
        } else {
            let port = unsigned_value(env.port.unwrap()@, u16::MAX as nat).unwrap() as u16;
            let metrics_port = unsigned_value(
                env.metrics_port.unwrap()@,
                u16::MAX as nat,
            ).unwrap() as u16;
            let name = match env.da_backend {
                Some(name) => lowercase(name@),
                None => ""@,
            };
            match backend_named(name) {
                None => Err(ConfigErrorView::InvalidBackend(name)),
                Some(backend) => if backend == DaBackend::Celestia && env.da_node_url is None {
                    Err(ConfigErrorView::MissingNodeUrl)
                } else if backend == DaBackend::Celestia && env.da_auth_token is None {
                    Err(ConfigErrorView::MissingAuthToken)
                } else {
                    Ok(
                        ConfigView {
                            port,
                            app_address: address_of(port),
                            metrics_port,
                            metrics_address: address_of(metrics_port),
                            da_backend: backend,
                            da_node_url: text_of(env.da_node_url),
                            da_auth_token: text_of(env.da_auth_token),
                            da_blob_size_limit: blob_size_limit_of(
                                text_of(env.da_blob_size_limit),
                            ),
                        },
                    )
                },
            }
        }
    }

    /// Reads the configuration from the values of the environment's variables.
    pub fn from_vars(env: Environment) -> (r: Result<Self, ConfigError>)
        ensures
            match r {
                Ok(config) => Config::spelled(env) == Ok::<ConfigView, ConfigErrorView>(config@),
                Err(e) => Config::spelled(env) == Err::<ConfigView, ConfigErrorView>(e@),
            },
    {
        let port = match &env.port {
            None => {
                return Err(ConfigError::MissingPort);
            },
            Some(text) => match parse_u16(text.as_str()) {
                None => {
                    return Err(ConfigError::InvalidPort);
                },
                Some(port) => port,
            },
        };
        let metrics_port = match &env.metrics_port {
            None => {
                return Err(ConfigError::MissingMetricsPort);
            },
            Some(text) => match parse_u16(text.as_str()) {
                None => {
                    return Err(ConfigError::InvalidMetricsPort);
                },
                Some(port) => port,
            },
        };
        let app_address = String::from_str("0.0.0.0:").concat(to_decimal(port as usize).as_str());
        let metrics_address = String::from_str("0.0.0.0:").concat(
            to_decimal(metrics_port as usize).as_str(),
        );

        // Backend selection with safe default
        let name = match &env.da_backend {
            Some(name) => to_lowercase(name.as_str()),
            None => String::from_str(""),
        };
        let da_backend = match DaBackend::from_name(name) {
            Ok(backend) => backend,
            Err(e) => {
                return Err(e);
            },
        };

        // Parse blob size limit safely, default to 1 MB if not set
        let da_blob_size_limit = match &env.da_blob_size_limit {
            Some(text) => match parse_usize(text.as_str()) {
                Some(limit) => limit,
                None => DEFAULT_BLOB_SIZE_LIMIT,
            },
            None => DEFAULT_BLOB_SIZE_LIMIT,
        };

        // Validate required Celestia settings
        if matches!(da_backend, DaBackend::Celestia) {
            if env.da_node_url.is_none() {
                return Err(ConfigError::MissingNodeUrl);
            }
            if env.da_auth_token.is_none() {
                return Err(ConfigError::MissingAuthToken);
            }
        }
        Ok(
            Config {
                port,
                app_address,
                metrics_port,
                metrics_address,
                da_backend,
                da_node_url: env.da_node_url,
                da_auth_token: env.da_auth_token,
                da_blob_size_limit,
            },
        )
    }
}

} // verus!
