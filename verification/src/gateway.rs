//! Gateway-side pieces: configuration, the request and response shapes the
//! gateway speaks, and the translation of failure categories into the HTTP
//! and query-error vocabularies of its adapters.

use vstd::prelude::*;
use vstd::string::StringExecFns;

use crate::classifier::ErrorCategory;
use crate::config::{u16_parses, u16_setting, u32_parses, u32_setting, u64_setting};
use crate::error::AuthError;
use crate::parse::{
    dec_value, parse_u16, parse_u32, parse_u64, parse_u64_ok, parse_usize, strip_sign,
};

verus! {

/// A `usize` setting: the default when absent, else the parsed value.
pub open spec fn usize_setting(o: Option<String>, dflt: usize, v: usize) -> bool {
    match o {
        None => v == dflt,
        Some(s) => parse_u64_ok(s@) && dec_value(strip_sign(s@)) <= usize::MAX && v == dec_value(
            strip_sign(s@),
        ),
    }
}

/// The raw text parses as a `usize`.
pub open spec fn usize_parses(s: Seq<char>) -> bool {
    parse_u64_ok(s) && dec_value(strip_sign(s)) <= usize::MAX
}

/// Configuration for the gateway.
pub struct Config {
    /// Interface the gateway binds to.
    pub server_host: String,
    /// HTTP port.
    pub server_port: u16,
    /// Address of the credential service.
    pub auth_service_url: String,
    /// Log format: "json" for structured output, anything else for text.
    pub log_format: String,
    /// Global rate limit in requests per second (0 disables it).
    pub rate_limit_per_second: u32,
    /// Downstream call timeout in seconds.
    pub grpc_timeout_secs: u64,
    /// Circuit breaker failure threshold.
    pub circuit_breaker_threshold: u32,
    /// Circuit breaker recovery window in seconds.
    pub circuit_breaker_recovery_secs: u64,
    /// Maximum query depth.
    pub graphql_max_depth: usize,
    /// Maximum query complexity.
    pub graphql_max_complexity: usize,
}

/// Gateway configuration errors, naming the environment variable at fault.
#[derive(Debug, Clone, PartialEq, Eq)]
pub enum ConfigError {
    /// An environment variable holds text that does not parse.
    InvalidValue(&'static str),
}

/// The human-readable description of a gateway configuration error.
pub open spec fn spec_config_error_message(e: ConfigError) -> Seq<char> {
    match e {
        ConfigError::InvalidValue(name) => "Invalid value for environment variable: "@ + name@,
    }
}

impl ConfigError {
    /// The human-readable description of the error.
    pub fn message(&self) -> (r: String)
        ensures
            r@ == spec_config_error_message(*self),
    {
        match self {
            ConfigError::InvalidValue(name) => String::from_str(
                "Invalid value for environment variable: ",
            ).concat(*name),
        }
    }
}

impl Config {
    /// Assemble the gateway configuration from raw environment values, one
    /// per variable: every setting falls back to its default when absent,
    /// and malformed numeric text is rejected naming the variable at
    /// fault.
    pub fn from_values(
        server_host: Option<String>,
        server_port: Option<String>,
        auth_service_url: Option<String>,
        log_format: Option<String>,
        rate_limit_per_second: Option<String>,
        grpc_timeout_secs: Option<String>,
        circuit_breaker_threshold: Option<String>,
        circuit_breaker_recovery_secs: Option<String>,
        graphql_max_depth: Option<String>,
        graphql_max_complexity: Option<String>,
    ) -> (r: Result<Config, ConfigError>)
        ensures
            r matches Ok(c) ==> {
                &&& match server_host {
                    Some(s) => c.server_host == s,
                    None => c.server_host@ == "127.0.0.1"@,
                }
                &&& u16_setting(server_port, 3000, c.server_port)
                &&& match auth_service_url {
                    Some(s) => c.auth_service_url == s,
                    None => c.auth_service_url@ == "http://127.0.0.1:50051"@,
                }
                &&& match log_format {
                    Some(s) => c.log_format == s,
                    None => c.log_format@ == "text"@,
                }
                &&& u32_setting(rate_limit_per_second, 200, c.rate_limit_per_second)
                &&& u64_setting(grpc_timeout_secs, 5, c.grpc_timeout_secs)
                &&& u32_setting(circuit_breaker_threshold, 5, c.circuit_breaker_threshold)
                &&& u64_setting(circuit_breaker_recovery_secs, 30, c.circuit_breaker_recovery_secs)
                &&& usize_setting(graphql_max_depth, 10, c.graphql_max_depth)
                &&& usize_setting(graphql_max_complexity, 100, c.graphql_max_complexity)
            },
            r is Err <==> ((server_port matches Some(s) && !u16_parses(s@)) || (
            rate_limit_per_second matches Some(s) && !u32_parses(s@)) || (grpc_timeout_secs matches
            Some(s) && !parse_u64_ok(s@)) || (circuit_breaker_threshold matches Some(s)
                && !u32_parses(s@)) || (circuit_breaker_recovery_secs matches Some(s)
                && !parse_u64_ok(s@)) || (graphql_max_depth matches Some(s) && !usize_parses(s@))
                || (graphql_max_complexity matches Some(s) && !usize_parses(s@))),
            r matches Err(ConfigError::InvalidValue(name)) ==> (server_port matches Some(s)
                && name@ == "SERVER_PORT"@ && !u16_parses(s@)) || (rate_limit_per_second matches
                Some(s) && name@ == "RATE_LIMIT_PER_SECOND"@ && !u32_parses(s@)) || (
            grpc_timeout_secs matches Some(s) && name@ == "GRPC_TIMEOUT_SECS"@ && !parse_u64_ok(
                s@,
            )) || (circuit_breaker_threshold matches Some(s) && name@
                == "CIRCUIT_BREAKER_THRESHOLD"@ && !u32_parses(s@)) || (
            circuit_breaker_recovery_secs matches Some(s) && name@
                == "CIRCUIT_BREAKER_RECOVERY_SECS"@ && !parse_u64_ok(s@)) || (graphql_max_depth
                matches Some(s) && name@ == "GRAPHQL_MAX_DEPTH"@ && !usize_parses(s@)) || (
            graphql_max_complexity matches Some(s) && name@ == "GRAPHQL_MAX_COMPLEXITY"@
                && !usize_parses(s@)),
    {
        let server_host: String = match server_host {
            Some(v) => v,
            None => String::from_str("127.0.0.1"),
        };
        let server_port: u16 = match server_port {
            None => 3000,
            Some(s) => match parse_u16(s.as_str()) {
                Some(v) => v,
                None => {
                    return Err(ConfigError::InvalidValue("SERVER_PORT"));
                },
            },
        };
        let auth_service_url: String = match auth_service_url {
            Some(v) => v,
            None => String::from_str("http://127.0.0.1:50051"),
        };
        let log_format: String = match log_format {
            Some(v) => v,
            None => String::from_str("text"),
        };
        let rate_limit_per_second: u32 = match rate_limit_per_second {
            None => 200,
            Some(s) => match parse_u32(s.as_str()) {
                Some(v) => v,
                None => {
                    return Err(ConfigError::InvalidValue("RATE_LIMIT_PER_SECOND"));
                },
            },
        };
        let grpc_timeout_secs: u64 = match grpc_timeout_secs {
            None => 5,
            Some(s) => match parse_u64(s.as_str()) {
                Some(v) => v,
                None => {
                    return Err(ConfigError::InvalidValue("GRPC_TIMEOUT_SECS"));
                },
            },
        };
        let circuit_breaker_threshold: u32 = match circuit_breaker_threshold {
            None => 5,
            Some(s) => match parse_u32(s.as_str()) {
                Some(v) => v,
                None => {
                    return Err(ConfigError::InvalidValue("CIRCUIT_BREAKER_THRESHOLD"));
                },
            },
        };
        let circuit_breaker_recovery_secs: u64 = match circuit_breaker_recovery_secs {
            None => 30,
            Some(s) => match parse_u64(s.as_str()) {
                Some(v) => v,
                None => {
                    return Err(ConfigError::InvalidValue("CIRCUIT_BREAKER_RECOVERY_SECS"));
                },
            },
        };
        let graphql_max_depth: usize = match graphql_max_depth {
            None => 10,
            Some(s) => match parse_usize(s.as_str()) {
                Some(v) => v,
                None => {
                    return Err(ConfigError::InvalidValue("GRAPHQL_MAX_DEPTH"));
                },
            },
        };
        let graphql_max_complexity: usize = match graphql_max_complexity {
            None => 100,
            Some(s) => match parse_usize(s.as_str()) {
                Some(v) => v,
                None => {
                    return Err(ConfigError::InvalidValue("GRAPHQL_MAX_COMPLEXITY"));
                },
            },
        };
        Ok(
            Config {
                server_host,
                server_port,
                auth_service_url,
                log_format,
                rate_limit_per_second,
                grpc_timeout_secs,
                circuit_breaker_threshold,
                circuit_breaker_recovery_secs,
                graphql_max_depth,
                graphql_max_complexity,
            },
        )
    }
}

/// The HTTP status for a failure category.
pub open spec fn spec_http_status(c: ErrorCategory) -> u16 {
    match c {
        ErrorCategory::InvalidArgument => 400,
        ErrorCategory::NotFound => 404,
        ErrorCategory::AlreadyExists => 409,
        ErrorCategory::PermissionDenied => 403,
        ErrorCategory::Unauthenticated => 401,
        ErrorCategory::Unavailable => 503,
        ErrorCategory::DeadlineExceeded => 504,
        ErrorCategory::Internal => 500,
        ErrorCategory::Unknown => 500,
    }
}

/// Map a downstream failure category to the HTTP status the gateway
/// returns for it.
pub fn grpc_to_http_status(c: &ErrorCategory) -> (r: u16)
    ensures
        r == spec_http_status(*c),
{
    match c {
        ErrorCategory::InvalidArgument => 400,
        ErrorCategory::NotFound => 404,
        ErrorCategory::AlreadyExists => 409,
        ErrorCategory::PermissionDenied => 403,
        ErrorCategory::Unauthenticated => 401,
        ErrorCategory::Unavailable => 503,
        ErrorCategory::DeadlineExceeded => 504,
        ErrorCategory::Internal => 500,
        ErrorCategory::Unknown => 500,
    }
}

/// The query-error code for a failure category.
pub open spec fn spec_error_code(c: ErrorCategory) -> Seq<char> {
    match c {
        ErrorCategory::InvalidArgument => "BAD_USER_INPUT"@,
        ErrorCategory::NotFound => "NOT_FOUND"@,
        ErrorCategory::AlreadyExists => "ALREADY_EXISTS"@,
        ErrorCategory::PermissionDenied => "FORBIDDEN"@,
        ErrorCategory::Unauthenticated => "UNAUTHENTICATED"@,
        ErrorCategory::Unavailable => "SERVICE_UNAVAILABLE"@,
        ErrorCategory::DeadlineExceeded => "INTERNAL_SERVER_ERROR"@,
        ErrorCategory::Internal => "INTERNAL_SERVER_ERROR"@,
        ErrorCategory::Unknown => "INTERNAL_SERVER_ERROR"@,
    }
}

/// Map a downstream failure category to the error code the query adapter
/// attaches to its response.
pub fn grpc_error_code(c: &ErrorCategory) -> (r: &'static str)
    ensures
        r@ == spec_error_code(*c),
{
    match c {
        ErrorCategory::InvalidArgument => "BAD_USER_INPUT",
        ErrorCategory::NotFound => "NOT_FOUND",
        ErrorCategory::AlreadyExists => "ALREADY_EXISTS",
        ErrorCategory::PermissionDenied => "FORBIDDEN",
        ErrorCategory::Unauthenticated => "UNAUTHENTICATED",
        ErrorCategory::Unavailable => "SERVICE_UNAVAILABLE",
        ErrorCategory::DeadlineExceeded => "INTERNAL_SERVER_ERROR",
        ErrorCategory::Internal => "INTERNAL_SERVER_ERROR",
        ErrorCategory::Unknown => "INTERNAL_SERVER_ERROR",
    }
}

/// Request body for user registration.
pub struct RegisterRequest {
    /// Email address.
    pub email: String,
    /// Plain-text password.
    pub password: String,
    /// Optional display name.
    pub display_name: Option<String>,
}

/// Request body for user login.
pub struct LoginRequest {
    /// Email address.
    pub email: String,
    /// Plain-text password.
    pub password: String,
}

/// Response for successful registration.
pub struct RegisterResponse {
    /// The new user's identifier, in text form.
    pub user_id: String,
    /// The stored email.
    pub email: String,
    /// The stored display name.
    pub display_name: Option<String>,
}

/// Response for successful login.
pub struct LoginResponse {
    /// The signed session token.
    pub token: String,
    /// The user's identifier, in text form.
    pub user_id: String,
    /// The user's email.
    pub email: String,
    /// The user's display name.
    pub display_name: Option<String>,
}

/// Response for current user info.
pub struct MeResponse {
    /// The user's identifier, in text form.
    pub user_id: String,
    /// The user's email.
    pub email: String,
    /// The user's display name.
    pub display_name: Option<String>,
    /// Whether the account is active.
    pub is_active: bool,
}

/// Error response body.
pub struct ErrorResponse {
    /// Short machine-readable error kind.
    pub error: String,
    /// Human-readable message.
    pub message: String,
}

/// Registered user returned after sign-up.
pub struct RegisterPayload {
    /// The new user's identifier, in text form.
    pub user_id: String,
    /// The stored email.
    pub email: String,
    /// The stored display name.
    pub display_name: Option<String>,
}

/// Login result containing a session token and user details.
pub struct LoginPayload {
    /// The signed session token.
    pub token: String,
    /// The user's identifier, in text form.
    pub user_id: String,
    /// The user's email.
    pub email: String,
    /// The user's display name.
    pub display_name: Option<String>,
}

/// Current authenticated user info.
pub struct User {
    /// The user's identifier, in text form.
    pub user_id: String,
    /// The user's email.
    pub email: String,
    /// The user's display name.
    pub display_name: Option<String>,
    /// Whether the account is active.
    pub is_active: bool,
}

/// Input for user registration.
pub struct RegisterInput {
    /// Email address.
    pub email: String,
    /// Plain-text password.
    pub password: String,
    /// Optional display name.
    pub display_name: Option<String>,
}

/// Input for user login.
pub struct LoginInput {
    /// Email address.
    pub email: String,
    /// Plain-text password.
    pub password: String,
}

/// Query root of the gateway's schema; the resolvers live in the adapter.
pub struct QueryRoot;

/// Mutation root of the gateway's schema; the resolvers live in the
/// adapter.
pub struct MutationRoot;

/// Bearer token extracted from the Authorization header of a request.
pub struct Token(pub String);

} // verus!
