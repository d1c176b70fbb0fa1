use vstd::prelude::*;

verus! {

/// The environment variable that holds the token-signing secret.
pub const JWT_SECRET_ENV_VAR: &'static str = "JWT_SECRET";

/// The environment variable that holds the database URL.
pub const DATABASE_URL_ENV_VAR: &'static str = "DATABASE_URL";

/// The environment variable that holds the Redis host name.
pub const REDIS_HOST_NAME_ENV_VAR: &'static str = "REDIS_HOST_NAME";

/// The environment variable that holds the Postmark API token.
pub const POSTMARK_AUTH_TOKEN_ENV_VAR: &'static str = "POSTMARK_AUTH_TOKEN";

/// The name of the cookie that carries the bearer token.
pub const JWT_COOKIE_NAME: &'static str = "jwt";

/// The Redis host used when none is configured.
pub const DEFAULT_REDIS_HOSTNAME: &'static str = "127.0.0.1";

/// The address the service listens on in production.
pub const PROD_APP_ADDRESS: &'static str = "0.0.0.0:3000";

/// Why a required setting is unusable.
#[derive(Debug, Clone, Copy, PartialEq, Eq, Structural)]
pub enum ConfigError {
    NotSet,
    Empty,
}

/// A required setting, from the value looked up for it: it must be set and
/// not empty.
pub fn retrieve_dot_env_variable(value: Option<String>) -> (r: Result<String, ConfigError>)
    ensures
        match value {
            None => r == Err::<String, _>(ConfigError::NotSet),
            Some(v) => if v@.len() == 0 {
                r == Err::<String, _>(ConfigError::Empty)
            } else {
                r matches Ok(s) && s@ == v@
            },
        },
{
    match value {
        None => Err(ConfigError::NotSet),
        Some(v) => {
            if v.as_str().is_empty() {
                Err(ConfigError::Empty)
            } else {
                Ok(v)
            }
        },
    }
}

/// The token-signing secret, from the value of `JWT_SECRET_ENV_VAR`.
pub fn get_token(value: Option<String>) -> (r: Result<String, ConfigError>)
    ensures
        match value {
            None => r == Err::<String, _>(ConfigError::NotSet),
            Some(v) => if v@.len() == 0 {
                r == Err::<String, _>(ConfigError::Empty)
            } else {
                r matches Ok(s) && s@ == v@
            },
        },
{
    retrieve_dot_env_variable(value)
}

/// The database URL, from the value of `DATABASE_URL_ENV_VAR`.
pub fn get_database_url(value: Option<String>) -> (r: Result<String, ConfigError>)
    ensures
        match value {
            None => r == Err::<String, _>(ConfigError::NotSet),
            Some(v) => if v@.len() == 0 {
                r == Err::<String, _>(ConfigError::Empty)
            } else {
                r matches Ok(s) && s@ == v@
            },
        },
{
    retrieve_dot_env_variable(value)
}

/// The Postmark API token, from the value of `POSTMARK_AUTH_TOKEN_ENV_VAR`.
pub fn get_postmark_auth_token(value: Option<String>) -> (r: Result<String, ConfigError>)
    ensures
        match value {
            None => r == Err::<String, _>(ConfigError::NotSet),
            Some(v) => if v@.len() == 0 {
                r == Err::<String, _>(ConfigError::Empty)
            } else {
                r matches Ok(s) && s@ == v@
            },
        },
{
    retrieve_dot_env_variable(value)
}

/// The Redis host: the value of `REDIS_HOST_NAME_ENV_VAR` where it is set,
/// else `DEFAULT_REDIS_HOSTNAME`.
pub fn get_redis_host(value: Option<String>) -> (r: String)
    ensures
        match value {
            Some(v) => r@ == v@,
            None => r@ == DEFAULT_REDIS_HOSTNAME@,
        },
{
    match value {
        Some(v) => v,
        None => DEFAULT_REDIS_HOSTNAME.to_owned(),
    }
}

} // verus!
