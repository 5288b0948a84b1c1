//! Typed service configuration: the values read from `AUTH_*` / `FLAG_*`
//! environment variables, their defaults, how raw environment values are
//! read as booleans and integers, and the checks a loaded configuration
//! must pass.

use vstd::prelude::*;
use crate::text::{chars_of, vec_equals_str, copy_str, decimal_text, lowercase, parse_unsigned, push_char, push_decimal, to_lowercase, trim, trim_spec, unsigned_text_value};

verus! {

broadcast use vstd::string::group_string_axioms;

/// The error type of the `figment` configuration library (opaque here).
#[verifier::external_type_specification]
#[verifier::external_body]
pub struct ExFigmentError(figment::Error);

/// Deployment environment (`development` or `production`).
#[derive(Clone, Copy, Debug, PartialEq, Eq, Structural)]
pub enum Environment {
    Development,
    Production,
}

impl Environment {
    /// Whether this is the production environment.
    pub fn is_production(self) -> (r: bool)
        ensures
            r == (self == Environment::Production),
    {
        match self {
            Environment::Production => true,
            Environment::Development => false,
        }
    }
}

impl Default for Environment {
    fn default() -> (r: Self)
        ensures
            r == Environment::Development,
    {
        Environment::Development
    }
}

/// Configuration of the auth service.
#[derive(Debug)]
pub struct AuthServiceConfig {
    pub host: String,
    pub port: u16,
    pub database_url: String,
    /// RSA private key PEM (inline or path via `jwt_private_key_path`)
    pub jwt_private_key_pem: Option<String>,
    pub jwt_private_key_path: Option<String>,
    pub jwt_issuer: String,
    pub jwt_audience: String,
    /// Access token lifetime in seconds
    pub jwt_access_ttl_secs: u64,
    pub environment: Environment,
    pub cors_allowed_origins: Option<String>,
    pub run_migrations_on_startup: bool,
}

/// Configuration of the flag service.
#[derive(Debug)]
pub struct FlagServiceConfig {
    pub host: String,
    pub port: u16,
    pub database_url: String,
    /// Base URL of auth service (e.g. http://auth-service:3000) for JWKS
    pub auth_base_url: String,
    pub jwt_issuer: String,
    pub jwt_audience: String,
    pub environment: Environment,
    pub cors_allowed_origins: Option<String>,
    pub run_migrations_on_startup: bool,
}

/// Why a configuration could not be loaded.
#[derive(Debug)]
pub enum ConfigError {
    /// The environment could not be extracted into the configuration type.
    Figment(figment::Error),
    /// The auth service configuration is incomplete.
    Auth(&'static str),
    /// The flag service configuration is incomplete.
    Flag(&'static str),
}

// ----------------------------------------------------------------------------
// Defaults
// ----------------------------------------------------------------------------

pub fn default_bind_host() -> (r: String)
    ensures
        r@ == "0.0.0.0"@,
{
    copy_str("0.0.0.0")
}

pub fn default_auth_port() -> (r: u16)
    ensures
        r == 3000,
{
    3000
}

pub fn default_flag_port() -> (r: u16)
    ensures
        r == 3001,
{
    3001
}

pub fn default_jwt_issuer() -> (r: String)
    ensures
        r@ == "f69-auth"@,
{
    copy_str("f69-auth")
}

pub fn default_jwt_audience() -> (r: String)
    ensures
        r@ == "f69-api"@,
{
    copy_str("f69-api")
}

pub fn default_access_ttl() -> (r: u64)
    ensures
        r == 3600,
{
    3600
}

pub fn default_run_migrations() -> (r: bool)
    ensures
        r,
{
    true
}

// ----------------------------------------------------------------------------
// Raw environment values
// ----------------------------------------------------------------------------

/// A raw value handed over for one configuration field, in the shape the
/// deserializer presents it: a boolean, an unsigned or signed integer, or text.
pub enum EnvValue {
    Bool(bool),
    Unsigned(u64),
    Signed(i64),
    Text(String),
}

/// Why a raw environment value was rejected.
#[derive(Debug, Clone, Copy, PartialEq, Eq, Structural)]
pub enum EnvValueError {
    /// Text that is not one of the boolean words.
    InvalidBool,
    /// Text that is not a `u64`.
    InvalidU64,
    /// An integer above `u16::MAX` given for a port.
    PortOutOfRange,
    /// Text that is not a `u16`.
    InvalidU16,
    /// A value of a kind the field does not take (e.g. a number for a boolean).
    UnexpectedType,
}

impl EnvValueError {
    /// The message reported for this error.
    pub fn message(&self) -> (r: &'static str)
        ensures
            match self {
                EnvValueError::InvalidBool => r@ == "invalid boolean env value"@,
                EnvValueError::InvalidU64 => r@ == "invalid u64 env value"@,
                EnvValueError::PortOutOfRange => r@ == "port out of range"@,
                EnvValueError::InvalidU16 => r@ == "invalid u16 env value"@,
                EnvValueError::UnexpectedType => r@ == "invalid type"@,
            },
    {
        match self {
            EnvValueError::InvalidBool => "invalid boolean env value",
            EnvValueError::InvalidU64 => "invalid u64 env value",
            EnvValueError::PortOutOfRange => "port out of range",
            EnvValueError::InvalidU16 => "invalid u16 env value",
            EnvValueError::UnexpectedType => "invalid type",
        }
    }
}

/// The boolean that a lower-cased, trimmed word stands for.
pub open spec fn bool_word(t: Seq<char>) -> Option<bool> {
    if t == "true"@ || t == "1"@ || t == "yes"@ {
        Some(true)
    } else if t == "false"@ || t == "0"@ || t == "no"@ {
        Some(false)
    } else {
        None
    }
}

/// The boolean that an already trimmed and lower-cased word stands for:
/// `true`, `1`, `yes` are true; `false`, `0`, `no` are false.
pub fn bool_from_word(t: &str) -> (r: Option<bool>)
    ensures
        r == bool_word(t@),
{
    let v = chars_of(t);
    if vec_equals_str(&v, "true") || vec_equals_str(&v, "1") || vec_equals_str(&v, "yes") {
        Some(true)
    } else if vec_equals_str(&v, "false") || vec_equals_str(&v, "0") || vec_equals_str(&v, "no") {
        Some(false)
    } else {
        None
    }
}

/// Reads a boolean field: a boolean as is, or text that, trimmed and
/// lower-cased, is one of the boolean words.
pub fn bool_from_env(value: &EnvValue) -> (r: Result<bool, EnvValueError>)
    ensures
        match value {
            EnvValue::Bool(b) => r == Ok::<bool, EnvValueError>(*b),
            EnvValue::Text(s) => match bool_word(lowercase(trim_spec(s@))) {
                Some(b) => r == Ok::<bool, EnvValueError>(b),
                None => r == Err::<bool, EnvValueError>(EnvValueError::InvalidBool),
            },
            _ => r == Err::<bool, EnvValueError>(EnvValueError::UnexpectedType),
        },
{
    match value {
        EnvValue::Bool(b) => Ok(*b),
        EnvValue::Text(s) => {
            let t = trim(s.as_str());
            let lowered = to_lowercase(t.as_str());
            match bool_from_word(lowered.as_str()) {
                Some(b) => Ok(b),
                None => Err(EnvValueError::InvalidBool),
            }
        },
        _ => Err(EnvValueError::UnexpectedType),
    }
}

/// Reads a `u64` field: an unsigned integer as is, a non-negative signed
/// integer (a negative one is not a `u64` and is refused), or trimmed decimal
/// text.
pub fn u64_from_env(value: &EnvValue) -> (r: Result<u64, EnvValueError>)
    ensures
        match value {
            EnvValue::Unsigned(v) => r == Ok::<u64, EnvValueError>(*v),
            EnvValue::Signed(v) => if *v >= 0 {
                r == Ok::<u64, EnvValueError>(*v as u64)
            } else {
                r == Err::<u64, EnvValueError>(EnvValueError::InvalidU64)
            },
            EnvValue::Text(s) => match unsigned_text_value(trim_spec(s@), u64::MAX as nat) {
                Some(v) => r == Ok::<u64, EnvValueError>(v as u64),
                None => r == Err::<u64, EnvValueError>(EnvValueError::InvalidU64),
            },
            EnvValue::Bool(_) => r == Err::<u64, EnvValueError>(EnvValueError::UnexpectedType),
        },
{
    match value {
        EnvValue::Unsigned(v) => Ok(*v),
        EnvValue::Signed(v) => {
            if *v >= 0 {
                Ok(*v as u64)
            } else {
                Err(EnvValueError::InvalidU64)
            }
        },
        EnvValue::Text(s) => {
            let t = trim(s.as_str());
            match parse_unsigned(t.as_str(), u64::MAX) {
                Some(v) => Ok(v),
                None => Err(EnvValueError::InvalidU64),
            }
        },
        EnvValue::Bool(_) => Err(EnvValueError::UnexpectedType),
    }
}

/// Reads a port (`u16`) field: an unsigned integer that fits in `u16`, or
/// trimmed decimal text of a `u16`.
pub fn u16_from_env(value: &EnvValue) -> (r: Result<u16, EnvValueError>)
    ensures
        match value {
            EnvValue::Unsigned(v) => if *v <= u16::MAX {
                r == Ok::<u16, EnvValueError>(*v as u16)
            } else {
                r == Err::<u16, EnvValueError>(EnvValueError::PortOutOfRange)
            },
            EnvValue::Text(s) => match unsigned_text_value(trim_spec(s@), u16::MAX as nat) {
                Some(v) => r == Ok::<u16, EnvValueError>(v as u16),
                None => r == Err::<u16, EnvValueError>(EnvValueError::InvalidU16),
            },
            _ => r == Err::<u16, EnvValueError>(EnvValueError::UnexpectedType),
        },
{
    match value {
        EnvValue::Unsigned(v) => {
            if *v <= 65535 {
                Ok(*v as u16)
            } else {
                Err(EnvValueError::PortOutOfRange)
            }
        },
        EnvValue::Text(s) => {
            let t = trim(s.as_str());
            match parse_unsigned(t.as_str(), 65535) {
                Some(v) => Ok(v as u16),
                None => Err(EnvValueError::InvalidU16),
            }
        },
        _ => Err(EnvValueError::UnexpectedType),
    }
}

// ----------------------------------------------------------------------------
// Checks on a loaded configuration
// ----------------------------------------------------------------------------

/// Where the auth service's JWT signing key comes from.
pub enum JwtKeySource {
    /// The PEM text itself.
    Inline(String),
    /// A file holding the PEM text.
    File(String),
}

/// `host:port`, the text that is parsed as the socket address to listen on.
pub open spec fn bind_address_text(host: Seq<char>, port: u16) -> Seq<char> {
    host + seq![':'] + decimal_text(port as nat)
}

fn bind_address(host: &String, port: u16) -> (r: String)
    ensures
        r@ == bind_address_text(host@, port),
{
    let mut r = copy_str(host.as_str());
    push_char(&mut r, ':');
    push_decimal(&mut r, port as u64);
    r
}

/// Whether a signing key is configured, inline or as a file.
pub open spec fn has_key_source(c: AuthServiceConfig) -> bool {
    c.jwt_private_key_pem is Some || c.jwt_private_key_path is Some
}

/// What `AuthServiceConfig::from_env` accepts: a signing key and a database.
pub open spec fn auth_config_complete(c: AuthServiceConfig) -> bool {
    has_key_source(c) && c.database_url@.len() > 0
}

/// What `FlagServiceConfig::from_env` accepts: a database and the auth
/// service's address.
pub open spec fn flag_config_complete(c: FlagServiceConfig) -> bool {
    c.database_url@.len() > 0 && c.auth_base_url@.len() > 0
}

/// A configuration accepted by `AuthServiceConfig::from_env` always names a
/// signing key, so `jwt_key_source` finds one.
pub proof fn law_accepted_auth_config_has_key(c: AuthServiceConfig)
    requires
        auth_config_complete(c),
    ensures
        has_key_source(c),
{
}

impl AuthServiceConfig {
    /// Checks a configuration extracted from the `AUTH_*` environment: an
    /// extraction error is passed on; a configuration with neither an inline
    /// key nor a key path, or with an empty database URL, is refused.
    pub fn from_env(extracted: Result<AuthServiceConfig, ConfigError>) -> (r: Result<
        AuthServiceConfig,
        ConfigError,
    >)
        ensures
            match extracted {
                Err(e) => r == Err::<AuthServiceConfig, ConfigError>(e),
                Ok(c) => if !has_key_source(c) {
                    r matches Err(ConfigError::Auth(m))
                        && m@ == "set AUTH_JWT_PRIVATE_KEY_PEM or AUTH_JWT_PRIVATE_KEY_PATH"@
                } else if c.database_url@.len() == 0 {
                    r matches Err(ConfigError::Auth(m)) && m@ == "AUTH_DATABASE_URL is required"@
                } else {
                    r == Ok::<AuthServiceConfig, ConfigError>(c)
                },
            },
            r matches Ok(c) ==> auth_config_complete(c),
    {
        let c = match extracted {
            Err(e) => return Err(e),
            Ok(c) => c,
        };
        if c.jwt_private_key_pem.is_none() && c.jwt_private_key_path.is_none() {
            return Err(
                ConfigError::Auth("set AUTH_JWT_PRIVATE_KEY_PEM or AUTH_JWT_PRIVATE_KEY_PATH"),
            );
        }
        if c.database_url.as_str().is_empty() {
            return Err(ConfigError::Auth("AUTH_DATABASE_URL is required"));
        }
        Ok(c)
    }

    /// The `host:port` text of the address to listen on.
    pub fn socket_addr_text(&self) -> (r: String)
        ensures
            r@ == bind_address_text(self.host@, self.port),
    {
        bind_address(&self.host, self.port)
    }

    /// Where the signing key comes from: the inline PEM if set, else the key
    /// file path if set, else nowhere.
    pub fn jwt_key_source(&self) -> (r: Option<JwtKeySource>)
        ensures
            r is Some <==> has_key_source(*self),
            match self.jwt_private_key_pem {
                Some(pem) => r matches Some(JwtKeySource::Inline(p)) && p@ == pem@,
                None => match self.jwt_private_key_path {
                    Some(path) => r matches Some(JwtKeySource::File(p)) && p@ == path@,
                    None => r is None,
                },
            },
    {
        match &self.jwt_private_key_pem {
            Some(pem) => Some(JwtKeySource::Inline(copy_str(pem.as_str()))),
            None => match &self.jwt_private_key_path {
                Some(path) => Some(JwtKeySource::File(copy_str(path.as_str()))),
                None => None,
            },
        }
    }
}

impl FlagServiceConfig {
    /// Checks a configuration extracted from the `FLAG_*` environment: an
    /// extraction error is passed on; an empty database URL or auth base URL
    /// is refused.
    pub fn from_env(extracted: Result<FlagServiceConfig, ConfigError>) -> (r: Result<
        FlagServiceConfig,
        ConfigError,
    >)
        ensures
            match extracted {
                Err(e) => r == Err::<FlagServiceConfig, ConfigError>(e),
                Ok(c) => if c.database_url@.len() == 0 {
                    r matches Err(ConfigError::Flag(m)) && m@ == "FLAG_DATABASE_URL is required"@
                } else if c.auth_base_url@.len() == 0 {
                    r matches Err(ConfigError::Flag(m)) && m@ == "FLAG_AUTH_BASE_URL is required"@
                } else {
                    r == Ok::<FlagServiceConfig, ConfigError>(c)
                },
            },
            r matches Ok(c) ==> flag_config_complete(c),
    {
        let c = match extracted {
            Err(e) => return Err(e),
            Ok(c) => c,
        };
        if c.database_url.as_str().is_empty() {
            return Err(ConfigError::Flag("FLAG_DATABASE_URL is required"));
        }
        if c.auth_base_url.as_str().is_empty() {
            return Err(ConfigError::Flag("FLAG_AUTH_BASE_URL is required"));
        }
        Ok(c)
    }

    /// The `host:port` text of the address to listen on.
    pub fn socket_addr_text(&self) -> (r: String)
        ensures
            r@ == bind_address_text(self.host@, self.port),
    {
        bind_address(&self.host, self.port)
    }
}

} // verus!
