//! Configuration from environment variables: which variables are read and
//! what their values must be. Reading the environment is the caller's work.

use vstd::prelude::*;

use crate::text::{decimal_string, decimal_text, int_error_message, parse_u16, parse_u16_spec, IntErrorKind};

verus! {

/// An environment variable that configuration reads.
#[derive(Debug, Clone, Copy, PartialEq, Eq, Structural)]
pub enum EnvVar {
    LogLevel,
    Port,
    DatabaseUrl,
    JwtSecret,
}

/// The name of an environment variable.
pub open spec fn env_var_name(v: EnvVar) -> Seq<char> {
    match v {
        EnvVar::LogLevel => "LOG_LEVEL"@,
        EnvVar::Port => "PORT"@,
        EnvVar::DatabaseUrl => "DATABASE_URL"@,
        EnvVar::JwtSecret => "JWT_SECRET"@,
    }
}

impl EnvVar {
    pub fn name(&self) -> (s: &'static str)
        ensures
            s@ == env_var_name(*self),
    {
        match self {
            EnvVar::LogLevel => "LOG_LEVEL",
            EnvVar::Port => "PORT",
            EnvVar::DatabaseUrl => "DATABASE_URL",
            EnvVar::JwtSecret => "JWT_SECRET",
        }
    }
}

/// The value of an environment variable as the environment holds it.
#[derive(Debug, Clone, PartialEq, Eq)]
pub enum EnvValue {
    /// The variable holds this text.
    Present(String),
    /// The variable is not set.
    NotPresent,
    /// The variable is set to a value that is not valid Unicode, written
    /// here as `Debug` writes the raw value.
    NotUnicode(String),
}

/// Why configuration could not be loaded.
#[derive(Debug, Clone, PartialEq, Eq)]
pub enum ConfigError {
    /// The variable is not set.
    MissingVar(EnvVar),
    /// The variable's value is not valid Unicode; `value` is its raw value
    /// as `Debug` writes it.
    NotUnicode { var: EnvVar, value: String },
    /// `PORT` is not a number from 0 to 65535, for the reason given.
    InvalidPort(IntErrorKind),
    /// `JWT_SECRET` is shorter than `MIN_JWT_SECRET_LEN` bytes; `len` is its length.
    JwtSecretTooShort { len: usize },
}

/// The shortest JWT secret accepted, in bytes: HS256 wants at least 32
/// bytes of key (RFC 7518, section 3.2).
pub const MIN_JWT_SECRET_LEN: usize = 32;

/// The description of a configuration error: for an environment variable
/// and a port, the text of the standard library's error.
pub open spec fn config_error_message(e: ConfigError) -> Seq<char> {
    match e {
        ConfigError::MissingVar(_) => "environment variable not found"@,
        ConfigError::NotUnicode { value, .. } => "environment variable was not valid unicode: "@
            + value@,
        ConfigError::InvalidPort(kind) => int_error_message(kind),
        ConfigError::JwtSecretTooShort { len } => "JWT_SECRET must be at least 32 bytes, got "@
            + decimal_text(len as nat),
    }
}

impl ConfigError {
    pub fn message(&self) -> (m: String)
        ensures
            m@ == config_error_message(*self),
    {
        match self {
            ConfigError::MissingVar(_) => String::from_str("environment variable not found"),
            ConfigError::NotUnicode { value, .. } => String::from_str(
                "environment variable was not valid unicode: ",
            ).concat(value.as_str()),
            ConfigError::InvalidPort(kind) => String::from_str(kind.message()),
            ConfigError::JwtSecretTooShort { len } => {
                let n = decimal_string(*len as u64);
                String::from_str("JWT_SECRET must be at least 32 bytes, got ").concat(n.as_str())
            },
        }
    }
}

/// What reading a required variable gives: its text, or why there is none.
pub open spec fn required_spec(value: EnvValue, var: EnvVar) -> Result<String, ConfigError> {
    match value {
        EnvValue::Present(v) => Ok(v),
        EnvValue::NotPresent => Err(ConfigError::MissingVar(var)),
        EnvValue::NotUnicode(raw) => Err(ConfigError::NotUnicode { var, value: raw }),
    }
}

/// The value of a required variable, or the error that it is missing or
/// not valid Unicode.
pub fn required(value: EnvValue, var: EnvVar) -> (r: Result<String, ConfigError>)
    ensures
        r == required_spec(value, var),
{
    match value {
        EnvValue::Present(v) => Ok(v),
        EnvValue::NotPresent => Err(ConfigError::MissingVar(var)),
        EnvValue::NotUnicode(raw) => Err(ConfigError::NotUnicode { var, value: raw }),
    }
}

/// What `port_from` gives for the value of `PORT`.
pub open spec fn port_spec(value: EnvValue) -> Result<u16, ConfigError> {
    match required_spec(value, EnvVar::Port) {
        Err(e) => Err(e),
        Ok(v) => match parse_u16_spec(v@) {
            Ok(p) => Ok(p),
            Err(kind) => Err(ConfigError::InvalidPort(kind)),
        },
    }
}

/// The port that the `PORT` variable names, when it is set and a number
/// that fits in 16 bits.
pub fn port_from(value: EnvValue) -> (r: Result<u16, ConfigError>)
    ensures
        r == port_spec(value),
{
    let v = required(value, EnvVar::Port)?;
    match parse_u16(v.as_str()) {
        Ok(p) => Ok(p),
        Err(kind) => Err(ConfigError::InvalidPort(kind)),
    }
}

/// The server's basic configuration.
#[derive(Debug, Clone)]
pub struct Config {
    pub log_level: String,
    pub port: u16,
}

/// Builds the basic configuration from the values of `LOG_LEVEL` and
/// `PORT`, checked in that order.
pub fn from_vars(log_level: EnvValue, port: EnvValue) -> (r: Result<Config, ConfigError>)
    ensures
        match required_spec(log_level, EnvVar::LogLevel) {
            Err(e) => r == Err::<Config, ConfigError>(e),
            Ok(l) => match port_spec(port) {
                Ok(p) => r matches Ok(c) && c.log_level == l && c.port == p,
                Err(e) => r == Err::<Config, ConfigError>(e),
            },
        },
{
    let log_level = required(log_level, EnvVar::LogLevel)?;
    let port = port_from(port)?;
    Ok(Config { log_level, port })
}

/// A variable that holds text gives that text; an unset one is reported
/// missing under its name; one that is not Unicode is reported with its raw
/// value.
pub proof fn lemma_required_variable(text: String, raw: String, var: EnvVar)
    ensures
        required_spec(EnvValue::Present(text), var) == Ok::<String, ConfigError>(text),
        required_spec(EnvValue::NotPresent, var) == Err::<String, ConfigError>(
            ConfigError::MissingVar(var),
        ),
        required_spec(EnvValue::NotUnicode(raw), var) == Err::<String, ConfigError>(
            ConfigError::NotUnicode { var, value: raw },
        ),
{
}

/// `PORT` gives the number that its text reads as, or the reason it does
/// not read as one.
pub proof fn lemma_port_is_its_text_read_as_u16(text: String)
    ensures
        parse_u16_spec(text@) matches Ok(p) ==> port_spec(EnvValue::Present(text)) == Ok::<
            u16,
            ConfigError,
        >(p),
        parse_u16_spec(text@) matches Err(kind) ==> port_spec(EnvValue::Present(text)) == Err::<
            u16,
            ConfigError,
        >(ConfigError::InvalidPort(kind)),
        port_spec(EnvValue::NotPresent) == Err::<u16, ConfigError>(
            ConfigError::MissingVar(EnvVar::Port),
        ),
{
}

/// The texts of configuration errors are those of the standard library's
/// errors (`VarError`, `ParseIntError`), and the secret's length check
/// names the 32-byte minimum and the length found.
pub proof fn lemma_config_error_texts(var: EnvVar, raw: String, len: usize)
    ensures
        config_error_message(ConfigError::MissingVar(var)) == "environment variable not found"@,
        config_error_message(ConfigError::NotUnicode { var, value: raw })
            == "environment variable was not valid unicode: "@ + raw@,
        config_error_message(ConfigError::InvalidPort(IntErrorKind::Empty))
            == "cannot parse integer from empty string"@,
        config_error_message(ConfigError::InvalidPort(IntErrorKind::InvalidDigit))
            == "invalid digit found in string"@,
        config_error_message(ConfigError::InvalidPort(IntErrorKind::PosOverflow))
            == "number too large to fit in target type"@,
        config_error_message(ConfigError::JwtSecretTooShort { len })
            == "JWT_SECRET must be at least 32 bytes, got "@ + decimal_text(len as nat),
        MIN_JWT_SECRET_LEN == 32,
{
}

} // verus!
