//! Link configuration and the decisions taken from it: which region, which
//! credentials, which transport, and whether idle connections are kept.

use vstd::prelude::*;
use vstd::hash_map::StringHashMap;
use vstd::string::*;
use crate::text::{decimal_i64, parse_i64};

verus! {

/// The endpoint used for a named region when the configuration gives none.
pub open spec fn default_endpoint() -> Seq<char> {
    "s3.us-east-1.amazonaws.com"@
}

/// Flat key/value configuration that arrives with a link. Recognized keys:
/// `REGION`, `ENDPOINT`, `AWS_ACCESS_KEY`, `AWS_SECRET_ACCESS_KEY`,
/// `AWS_TOKEN`, `TOKEN_VALID_FOR`, `HTTP_PROXY`.
pub struct BackendConfig {
    entries: StringHashMap<String>,
}

impl View for BackendConfig {
    type V = Map<Seq<char>, Seq<char>>;

    closed spec fn view(&self) -> Map<Seq<char>, Seq<char>> {
        self.entries@.map_values(|v: String| v@)
    }
}

impl BackendConfig {
    /// The configuration without any key.
    pub fn new() -> (config: BackendConfig)
        ensures
            config@ == Map::<Seq<char>, Seq<char>>::empty(),
    {
        let config = BackendConfig { entries: StringHashMap::new() };
        assert(config@ =~= Map::<Seq<char>, Seq<char>>::empty());
        config
    }

    /// Sets `key` to `value`, replacing what the key held before.
    pub fn set(&mut self, key: &str, value: &str)
        ensures
            final(self)@ == old(self)@.insert(key@, value@),
    {
        self.entries.insert(key.to_owned(), value.to_owned());
        assert(self@ =~= old(self)@.insert(key@, value@));
    }

    /// Whether `key` is set.
    pub fn contains_key(&self, key: &str) -> (present: bool)
        ensures
            present == self@.contains_key(key@),
    {
        self.entries.contains_key(key)
    }

    /// The value of `key`, if it is set.
    pub fn get(&self, key: &str) -> (value: Option<&String>)
        ensures
            value.deep_view() == lookup(self@, key@),
    {
        self.entries.get(key)
    }

    /// A copy of the value of `key`, if it is set.
    pub fn get_cloned(&self, key: &str) -> (value: Option<String>)
        ensures
            value.deep_view() == lookup(self@, key@),
    {
        match self.entries.get(key) {
            Some(v) => Some(v.clone()),
            None => None,
        }
    }
}

/// The value of `key` in `config`, if it is set.
pub open spec fn lookup(config: Map<Seq<char>, Seq<char>>, key: Seq<char>) -> Option<Seq<char>> {
    if config.contains_key(key) {
        Some(config[key])
    } else {
        None
    }
}

/// Where requests are sent.
#[derive(Clone, Debug, PartialEq, Eq)]
pub enum RegionChoice {
    /// The service's standard default region.
    Standard,
    /// A region named by the configuration, reached at the given endpoint.
    Custom { name: String, endpoint: String },
}

/// Mathematical view of a [`RegionChoice`].
pub enum RegionModel {
    Standard,
    Custom { name: Seq<char>, endpoint: Seq<char> },
}

impl View for RegionChoice {
    type V = RegionModel;

    open spec fn view(&self) -> RegionModel {
        match self {
            RegionChoice::Standard => RegionModel::Standard,
            RegionChoice::Custom { name, endpoint } => RegionModel::Custom {
                name: name@,
                endpoint: endpoint@,
            },
        }
    }
}

/// How requests are signed.
#[derive(Clone, Debug, PartialEq, Eq)]
pub enum CredentialSource {
    /// Whatever the platform discovers: environment, profile files, instance metadata.
    Ambient,
    /// A fixed key pair, with an optional session token and an optional
    /// lifetime in seconds.
    Static { access_key: String, secret_key: String, token: Option<String>, valid_for: Option<i64> },
}

/// Mathematical view of a [`CredentialSource`].
pub enum CredentialModel {
    Ambient,
    Static {
        access_key: Seq<char>,
        secret_key: Seq<char>,
        token: Option<Seq<char>>,
        valid_for: Option<i64>,
    },
}

impl View for CredentialSource {
    type V = CredentialModel;

    open spec fn view(&self) -> CredentialModel {
        match self {
            CredentialSource::Ambient => CredentialModel::Ambient,
            CredentialSource::Static { access_key, secret_key, token, valid_for } => {
                CredentialModel::Static {
                    access_key: access_key@,
                    secret_key: secret_key@,
                    token: token.deep_view(),
                    valid_for: *valid_for,
                }
            },
        }
    }
}

/// Everything that is decided about a tenant's client before any part of it
/// is built.
#[derive(Clone, Debug, PartialEq, Eq)]
pub struct ClientPlan {
    pub region: RegionChoice,
    pub credentials: CredentialSource,
    /// Address of the proxy that all requests go through, if any.
    pub proxy: Option<String>,
    /// Whether idle connections are kept for later requests.
    pub keep_idle_connections: bool,
}

/// Mathematical view of a [`ClientPlan`].
pub struct ClientPlanModel {
    pub region: RegionModel,
    pub credentials: CredentialModel,
    pub proxy: Option<Seq<char>>,
    pub keep_idle_connections: bool,
}

impl View for ClientPlan {
    type V = ClientPlanModel;

    open spec fn view(&self) -> ClientPlanModel {
        ClientPlanModel {
            region: self.region@,
            credentials: self.credentials@,
            proxy: self.proxy.deep_view(),
            keep_idle_connections: self.keep_idle_connections,
        }
    }
}

/// Why a configuration cannot be turned into a client.
#[derive(Clone, Debug, PartialEq, Eq)]
pub enum ConfigError {
    /// `AWS_ACCESS_KEY` is set and `AWS_SECRET_ACCESS_KEY` is not.
    MissingSecretKey,
    /// `TOKEN_VALID_FOR` is set to the given text, which spells no integer.
    InvalidTokenLifetime(String),
    /// `HTTP_PROXY` is set to the given text, which is no address.
    InvalidProxy(String),
    /// A part of the client could not be built; the text says which and why.
    ClientSetup(String),
}

/// Mathematical view of a [`ConfigError`].
pub enum ConfigErrorModel {
    MissingSecretKey,
    InvalidTokenLifetime(Seq<char>),
    InvalidProxy(Seq<char>),
    ClientSetup(Seq<char>),
}

impl ConfigErrorModel {
    /// The text shown for this error.
    pub open spec fn message(self) -> Seq<char> {
        match self {
            ConfigErrorModel::MissingSecretKey => "AWS_ACCESS_KEY is set but AWS_SECRET_ACCESS_KEY is missing"@,
            ConfigErrorModel::InvalidTokenLifetime(text) => "TOKEN_VALID_FOR is not an integer: "@ + text,
            ConfigErrorModel::InvalidProxy(text) => "HTTP_PROXY is not a usable address: "@ + text,
            ConfigErrorModel::ClientSetup(text) => "backend client could not be built: "@ + text,
        }
    }
}

impl View for ConfigError {
    type V = ConfigErrorModel;

    open spec fn view(&self) -> ConfigErrorModel {
        match self {
            ConfigError::MissingSecretKey => ConfigErrorModel::MissingSecretKey,
            ConfigError::InvalidTokenLifetime(text) => ConfigErrorModel::InvalidTokenLifetime(text@),
            ConfigError::InvalidProxy(text) => ConfigErrorModel::InvalidProxy(text@),
            ConfigError::ClientSetup(text) => ConfigErrorModel::ClientSetup(text@),
        }
    }
}

impl ConfigError {
    /// Human-readable description of the error.
    pub fn message(&self) -> (text: String)
        ensures
            text@ == self@.message(),
    {
        match self {
            ConfigError::MissingSecretKey => String::from_str(
                "AWS_ACCESS_KEY is set but AWS_SECRET_ACCESS_KEY is missing",
            ),
            ConfigError::InvalidTokenLifetime(text) => String::from_str(
                "TOKEN_VALID_FOR is not an integer: ",
            ).concat(text.as_str()),
            ConfigError::InvalidProxy(text) => String::from_str(
                "HTTP_PROXY is not a usable address: ",
            ).concat(text.as_str()),
            ConfigError::ClientSetup(text) => String::from_str(
                "backend client could not be built: ",
            ).concat(text.as_str()),
        }
    }
}

/// The region that `config` selects: the named one when `REGION` is set, at
/// `ENDPOINT` or else at the default endpoint; the standard region otherwise.
pub open spec fn region_of(config: Map<Seq<char>, Seq<char>>) -> RegionModel {
    match lookup(config, "REGION"@) {
        Some(name) => RegionModel::Custom {
            name,
            endpoint: match lookup(config, "ENDPOINT"@) {
                Some(endpoint) => endpoint,
                None => default_endpoint(),
            },
        },
        None => RegionModel::Standard,
    }
}

/// The lifetime that `config` gives for a session token: `Ok(None)` when
/// `TOKEN_VALID_FOR` is absent, the number it spells when it spells one, and
/// the offending text otherwise.
pub open spec fn token_lifetime_of(config: Map<Seq<char>, Seq<char>>) -> Result<
    Option<i64>,
    ConfigErrorModel,
> {
    match lookup(config, "TOKEN_VALID_FOR"@) {
        None => Ok(None),
        Some(text) => match decimal_i64(text) {
            Some(seconds) => Ok(Some(seconds)),
            None => Err(ConfigErrorModel::InvalidTokenLifetime(text)),
        },
    }
}

/// The plan that `config` leads to, or the reason it leads to none.
///
/// Static credentials are used exactly when `AWS_ACCESS_KEY` is set, and then
/// `AWS_SECRET_ACCESS_KEY` must be set too. `TOKEN_VALID_FOR` must spell an
/// integer whenever it is set. Idle connections are kept exactly when the
/// credentials are ambient.
pub open spec fn plan_of(config: Map<Seq<char>, Seq<char>>) -> Result<
    ClientPlanModel,
    ConfigErrorModel,
> {
    let static_keys = config.contains_key("AWS_ACCESS_KEY"@);
    if static_keys && !config.contains_key("AWS_SECRET_ACCESS_KEY"@) {
        Err(ConfigErrorModel::MissingSecretKey)
    } else {
        match token_lifetime_of(config) {
            Err(e) => Err(e),
            Ok(valid_for) => Ok(
                ClientPlanModel {
                    region: region_of(config),
                    credentials: if static_keys {
                        CredentialModel::Static {
                            access_key: config["AWS_ACCESS_KEY"@],
                            secret_key: config["AWS_SECRET_ACCESS_KEY"@],
                            token: lookup(config, "AWS_TOKEN"@),
                            valid_for,
                        }
                    } else {
                        CredentialModel::Ambient
                    },
                    proxy: lookup(config, "HTTP_PROXY"@),
                    keep_idle_connections: !static_keys,
                },
            ),
        }
    }
}

/// Views a `Result` of plan or error through the views of both.
pub open spec fn plan_result_view(r: Result<ClientPlan, ConfigError>) -> Result<
    ClientPlanModel,
    ConfigErrorModel,
> {
    match r {
        Ok(plan) => Ok(plan@),
        Err(e) => Err(e@),
    }
}

impl ClientPlan {
    /// Decides region, credentials, transport and pooling from `config`, or
    /// says why the configuration is unusable.
    pub fn from_config(config: &BackendConfig) -> (result: Result<ClientPlan, ConfigError>)
        ensures
            plan_result_view(result) == plan_of(config@),
    {
        let access_key = config.get_cloned("AWS_ACCESS_KEY");
        let secret_key = config.get_cloned("AWS_SECRET_ACCESS_KEY");
        if access_key.is_some() && secret_key.is_none() {
            return Err(ConfigError::MissingSecretKey);
        }
        let valid_for: Option<i64> = match config.get("TOKEN_VALID_FOR") {
            None => None,
            Some(text) => match parse_i64(text.as_str()) {
                Some(seconds) => Some(seconds),
                None => {
                    return Err(ConfigError::InvalidTokenLifetime(text.clone()));
                },
            },
        };
        let region = match config.get_cloned("REGION") {
            Some(name) => RegionChoice::Custom {
                name,
                endpoint: match config.get_cloned("ENDPOINT") {
                    Some(endpoint) => endpoint,
                    None => String::from_str("s3.us-east-1.amazonaws.com"),
                },
            },
            None => RegionChoice::Standard,
        };
        let proxy = config.get_cloned("HTTP_PROXY");
        match access_key {
            Some(access_key) => {
                let secret_key = secret_key.unwrap();
                let token = config.get_cloned("AWS_TOKEN");
                Ok(
                    ClientPlan {
                        region,
                        credentials: CredentialSource::Static {
                            access_key,
                            secret_key,
                            token,
                            valid_for,
                        },
                        proxy,
                        keep_idle_connections: false,
                    },
                )
            },
            None => Ok(
                ClientPlan {
                    region,
                    credentials: CredentialSource::Ambient,
                    proxy,
                    keep_idle_connections: true,
                },
            ),
        }
    }
}

} // verus!
