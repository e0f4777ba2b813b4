//! The full server configuration, with the database and the JWT secret.

use vstd::prelude::*;
use vstd::utf8::encode_utf8;

use crate::text::{parse_u16_spec, IntErrorKind};
use crate::config::{
    port_from, port_spec, required, required_spec, ConfigError, EnvValue, EnvVar, MIN_JWT_SECRET_LEN,
};

verus! {

/// The server's configuration.
#[derive(Debug, Clone)]
pub struct Config {
    pub log_level: String,
    pub port: u16,
    pub database_url: String,
    pub jwt_secret: String,
}

/// Whether a JWT secret is long enough: its UTF-8 encoding has at least
/// `MIN_JWT_SECRET_LEN` bytes.
pub open spec fn jwt_secret_long_enough(secret: Seq<char>) -> bool {
    encode_utf8(secret).len() >= MIN_JWT_SECRET_LEN
}

/// What `from_vars` gives.
pub open spec fn env_config_spec(
    jwt_secret: EnvValue,
    log_level: EnvValue,
    port: EnvValue,
    database_url: EnvValue,
) -> Result<Config, ConfigError> {
    match required_spec(jwt_secret, EnvVar::JwtSecret) {
        Err(e) => Err(e),
        Ok(s) => if !jwt_secret_long_enough(s@) {
            Err(ConfigError::JwtSecretTooShort { len: encode_utf8(s@).len() as usize })
        } else {
            match required_spec(log_level, EnvVar::LogLevel) {
                Err(e) => Err(e),
                Ok(l) => match port_spec(port) {
                    Err(e) => Err(e),
                    Ok(p) => match required_spec(database_url, EnvVar::DatabaseUrl) {
                        Err(e) => Err(e),
                        Ok(d) => Ok(Config { log_level: l, port: p, database_url: d, jwt_secret: s }),
                    },
                },
            }
        },
    }
}

/// Builds the configuration from the values of `JWT_SECRET`, `LOG_LEVEL`,
/// `PORT` and `DATABASE_URL`, checked in that order: the secret must be set
/// and long enough, then each of the others must be set, and the port must
/// be a number that fits in 16 bits.
pub fn from_vars(
    jwt_secret: EnvValue,
    log_level: EnvValue,
    port: EnvValue,
    database_url: EnvValue,
) -> (r: Result<Config, ConfigError>)
    ensures
        r == env_config_spec(jwt_secret, log_level, port, database_url),
{
    let jwt_secret = required(jwt_secret, EnvVar::JwtSecret)?;
    let len = jwt_secret.as_str().as_bytes().len();
    if len < MIN_JWT_SECRET_LEN {
        return Err(ConfigError::JwtSecretTooShort { len });
    }
    let log_level = required(log_level, EnvVar::LogLevel)?;
    let port = port_from(port)?;
    let database_url = required(database_url, EnvVar::DatabaseUrl)?;
    Ok(Config { log_level, port, database_url, jwt_secret })
}

/// A secret of at least 32 bytes is never refused, however long it is: with
/// the other variables set and a port that reads as a number, the
/// configuration holds exactly the values given. A shorter secret is refused
/// with its length, before anything else is looked at.
pub proof fn lemma_secret_of_32_bytes_or_more_is_accepted(
    secret: String,
    log_level: String,
    port: String,
    database_url: String,
    port_number: u16,
)
    requires
        parse_u16_spec(port@) == Ok::<u16, IntErrorKind>(port_number),
    ensures
        encode_utf8(secret@).len() >= 32 ==> env_config_spec(
            EnvValue::Present(secret),
            EnvValue::Present(log_level),
            EnvValue::Present(port),
            EnvValue::Present(database_url),
        ) == Ok::<Config, ConfigError>(
            Config { log_level, port: port_number, database_url, jwt_secret: secret },
        ),
        encode_utf8(secret@).len() < 32 ==> env_config_spec(
            EnvValue::Present(secret),
            EnvValue::Present(log_level),
            EnvValue::Present(port),
            EnvValue::Present(database_url),
        ) == Err::<Config, ConfigError>(
            ConfigError::JwtSecretTooShort { len: encode_utf8(secret@).len() as usize },
        ),
{
}

} // verus!
