//! Service configuration assembled from environment values.
//!
//! Reading the environment happens outside the library; this module does
//! the checked part — defaulting and numeric parsing — over the plain
//! optional strings handed in, one per environment variable.

use vstd::prelude::*;
use vstd::string::StringExecFns;

use crate::parse::{
    dec_value, parse_i64, parse_i64_ok, parse_u16, parse_u32, parse_u64, parse_u64_ok,
    signed_value, strip_sign,
};

verus! {

/// The raw text parses as a `u16`.
pub open spec fn u16_parses(s: Seq<char>) -> bool {
    parse_u64_ok(s) && dec_value(strip_sign(s)) <= u16::MAX
}

/// The raw text parses as a `u32`.
pub open spec fn u32_parses(s: Seq<char>) -> bool {
    parse_u64_ok(s) && dec_value(strip_sign(s)) <= u32::MAX
}

/// A `u16` setting: the default when absent, else the parsed value.
pub open spec fn u16_setting(o: Option<String>, dflt: u16, v: u16) -> bool {
    match o {
        None => v == dflt,
        Some(s) => u16_parses(s@) && v == dec_value(strip_sign(s@)),
    }
}

/// A `u32` setting: the default when absent, else the parsed value.
pub open spec fn u32_setting(o: Option<String>, dflt: u32, v: u32) -> bool {
    match o {
        None => v == dflt,
        Some(s) => u32_parses(s@) && v == dec_value(strip_sign(s@)),
    }
}

/// A `u64` setting: the default when absent, else the parsed value.
pub open spec fn u64_setting(o: Option<String>, dflt: u64, v: u64) -> bool {
    match o {
        None => v == dflt,
        Some(s) => parse_u64_ok(s@) && v == dec_value(strip_sign(s@)),
    }
}

/// An `i64` setting: the default when absent, else the parsed value.
pub open spec fn i64_setting(o: Option<String>, dflt: i64, v: i64) -> bool {
    match o {
        None => v == dflt,
        Some(s) => parse_i64_ok(s@) && v == signed_value(s@),
    }
}

/// Configuration for the credential service.
pub struct Config {
    /// Database connection string; required.
    pub database_url: String,
    /// Token signing secret; required.
    pub jwt_secret: String,
    /// Token lifetime in seconds.
    pub jwt_expiration_secs: i64,
    /// Interface the servers bind to.
    pub server_host: String,
    /// HTTP port.
    pub server_port: u16,
    /// RPC port.
    pub grpc_port: u16,
    /// Maximum number of connections in the database pool.
    pub db_pool_max_size: u32,
    /// Token validation cache TTL in seconds (0 disables the cache).
    pub token_cache_ttl_secs: u64,
    /// Token validation cache capacity.
    pub token_cache_max_capacity: u64,
    /// Log format: "json" for structured output, anything else for text.
    pub log_format: String,
    /// Global rate limit in requests per second (0 disables it).
    pub rate_limit_per_second: u32,
}

/// Configuration errors, each naming the environment variable at fault.
#[derive(Debug, Clone, PartialEq, Eq)]
pub enum ConfigError {
    /// A required environment variable is absent.
    MissingEnv(&'static str),
    /// An environment variable holds text that does not parse.
    InvalidValue(&'static str),
}

/// The human-readable description of a configuration error.
pub open spec fn spec_config_error_message(e: ConfigError) -> Seq<char> {
    match e {
        ConfigError::MissingEnv(name) => "Missing environment variable: "@ + name@,
        ConfigError::InvalidValue(name) => "Invalid value for environment variable: "@ + name@,
    }
}

impl ConfigError {
    /// The human-readable description of the error.
    pub fn message(&self) -> (r: String)
        ensures
            r@ == spec_config_error_message(*self),
    {
        match self {
            ConfigError::MissingEnv(name) => String::from_str(
                "Missing environment variable: ",
            ).concat(*name),
            ConfigError::InvalidValue(name) => String::from_str(
                "Invalid value for environment variable: ",
            ).concat(*name),
        }
    }
}

impl Config {
    /// Assemble the configuration from raw environment values, one per
    /// variable: the two secrets are required, every other setting falls
    /// back to its default when absent, and malformed numeric text is
    /// rejected naming the variable at fault.
    pub fn from_values(
        database_url: Option<String>,
        jwt_secret: Option<String>,
        jwt_expiration_secs: Option<String>,
        server_host: Option<String>,
        server_port: Option<String>,
        grpc_port: Option<String>,
        db_pool_max_size: Option<String>,
        token_cache_ttl_secs: Option<String>,
        token_cache_max_capacity: Option<String>,
        log_format: Option<String>,
        rate_limit_per_second: Option<String>,
    ) -> (r: Result<Config, ConfigError>)
        ensures
            r matches Ok(c) ==> {
                &&& database_url matches Some(s) && c.database_url == s
                &&& jwt_secret matches Some(s) && c.jwt_secret == s
                &&& i64_setting(jwt_expiration_secs, 3600, c.jwt_expiration_secs)
                &&& match server_host {
                    Some(s) => c.server_host == s,
                    None => c.server_host@ == "127.0.0.1"@,
                }
                &&& u16_setting(server_port, 8080, c.server_port)
                &&& u16_setting(grpc_port, 50051, c.grpc_port)
                &&& u32_setting(db_pool_max_size, 20, c.db_pool_max_size)
                &&& u64_setting(token_cache_ttl_secs, 30, c.token_cache_ttl_secs)
                &&& u64_setting(token_cache_max_capacity, 10000, c.token_cache_max_capacity)
                &&& match log_format {
                    Some(s) => c.log_format == s,
                    None => c.log_format@ == "text"@,
                }
                &&& u32_setting(rate_limit_per_second, 100, c.rate_limit_per_second)
            },
            r is Err <==> (database_url is None || jwt_secret is None || (jwt_expiration_secs
                matches Some(s) && !parse_i64_ok(s@)) || (server_port matches Some(s)
                && !u16_parses(s@)) || (grpc_port matches Some(s) && !u16_parses(s@)) || (
            db_pool_max_size matches Some(s) && !u32_parses(s@)) || (token_cache_ttl_secs matches
            Some(s) && !parse_u64_ok(s@)) || (token_cache_max_capacity matches Some(s)
                && !parse_u64_ok(s@)) || (rate_limit_per_second matches Some(s) && !u32_parses(
                s@,
            ))),
            r matches Err(ConfigError::MissingEnv(name)) ==> (name@ == "DATABASE_URL"@
                && database_url is None) || (name@ == "AUTH_JWT_SECRET"@ && jwt_secret is None),
            r matches Err(ConfigError::InvalidValue(name)) ==> (jwt_expiration_secs matches
                Some(s) && name@ == "AUTH_JWT_EXP_SECS"@ && !parse_i64_ok(s@)) || (server_port
                matches Some(s) && name@ == "SERVER_PORT"@ && !u16_parses(s@)) || (grpc_port
                matches Some(s) && name@ == "GRPC_PORT"@ && !u16_parses(s@)) || (db_pool_max_size
                matches Some(s) && name@ == "DB_POOL_MAX_SIZE"@ && !u32_parses(s@)) || (
            token_cache_ttl_secs matches Some(s) && name@ == "TOKEN_CACHE_TTL_SECS"@
                && !parse_u64_ok(s@)) || (token_cache_max_capacity matches Some(s) && name@
                == "TOKEN_CACHE_MAX_CAPACITY"@ && !parse_u64_ok(s@)) || (rate_limit_per_second
                matches Some(s) && name@ == "RATE_LIMIT_PER_SECOND"@ && !u32_parses(s@)),
    {
        let database_url: String = match database_url {
            Some(v) => v,
            None => {
                return Err(ConfigError::MissingEnv("DATABASE_URL"));
            },
        };
        let jwt_secret: String = match jwt_secret {
            Some(v) => v,
            None => {
                return Err(ConfigError::MissingEnv("AUTH_JWT_SECRET"));
            },
        };
        let jwt_expiration_secs: i64 = match jwt_expiration_secs {
            None => 3600,
            Some(s) => match parse_i64(s.as_str()) {
                Some(v) => v,
                None => {
                    return Err(ConfigError::InvalidValue("AUTH_JWT_EXP_SECS"));
                },
            },
        };
        let server_host: String = match server_host {
            Some(v) => v,
            None => String::from_str("127.0.0.1"),
        };
        let server_port: u16 = match server_port {
            None => 8080,
            Some(s) => match parse_u16(s.as_str()) {
                Some(v) => v,
                None => {
                    return Err(ConfigError::InvalidValue("SERVER_PORT"));
                },
            },
        };
        let grpc_port: u16 = match grpc_port {
            None => 50051,
            Some(s) => match parse_u16(s.as_str()) {
                Some(v) => v,
                None => {
                    return Err(ConfigError::InvalidValue("GRPC_PORT"));
                },
            },
        };
        let db_pool_max_size: u32 = match db_pool_max_size {
            None => 20,
            Some(s) => match parse_u32(s.as_str()) {
                Some(v) => v,
                None => {
                    return Err(ConfigError::InvalidValue("DB_POOL_MAX_SIZE"));
                },
            },
        };
        let token_cache_ttl_secs: u64 = match token_cache_ttl_secs {
            None => 30,
            Some(s) => match parse_u64(s.as_str()) {
                Some(v) => v,
                None => {
                    return Err(ConfigError::InvalidValue("TOKEN_CACHE_TTL_SECS"));
                },
            },
        };
        let token_cache_max_capacity: u64 = match token_cache_max_capacity {
            None => 10000,
            Some(s) => match parse_u64(s.as_str()) {
                Some(v) => v,
                None => {
                    return Err(ConfigError::InvalidValue("TOKEN_CACHE_MAX_CAPACITY"));
                },
            },
        };
        let log_format: String = match log_format {
            Some(v) => v,
            None => String::from_str("text"),
        };
        let rate_limit_per_second: u32 = match rate_limit_per_second {
            None => 100,
            Some(s) => match parse_u32(s.as_str()) {
                Some(v) => v,
                None => {
                    return Err(ConfigError::InvalidValue("RATE_LIMIT_PER_SECOND"));
                },
            },
        };
        Ok(
            Config {
                database_url,
                jwt_secret,
                jwt_expiration_secs,
                server_host,
                server_port,
                grpc_port,
                db_pool_max_size,
                token_cache_ttl_secs,
                token_cache_max_capacity,
                log_format,
                rate_limit_per_second,
            },
        )
    }
}

} // verus!
