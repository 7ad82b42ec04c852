//! System configuration records.

use vstd::prelude::*;

verus! {

/// The runtime environment a deployment targets.
#[derive(Debug, Clone, Copy, PartialEq, Eq, Structural)]
pub enum Environment {
    Development,
    Staging,
    Production,
}

/// Where cached values live.
#[derive(Debug, Clone, Copy, PartialEq, Eq, Structural)]
pub enum CacheType {
    Memory,
    Redis,
    File,
}

/// Cache settings: the backing store, its address when remote, and the
/// time to live in seconds.
#[derive(Debug, Clone)]
pub struct CacheConfig {
    pub cache_type: CacheType,
    pub redis_url: Option<String>,
    pub ttl: u64,
}

/// Security settings: the token signing secret, whether authentication
/// is enforced, and the request rate limit over its window.
#[derive(Debug, Clone)]
pub struct SecurityConfig {
    pub jwt_secret: String,
    pub enable_auth: bool,
    pub rate_limit: u32,
    pub rate_window: u64,
}

/// How much the system logs.
#[derive(Debug, Clone, Copy, PartialEq, Eq, Structural)]
pub enum LogLevel {
    Error,
    Warn,
    Info,
    Debug,
    Trace,
}

/// Logging settings: the level, an optional log file path, and the
/// rotation bounds.
#[derive(Debug, Clone)]
pub struct LoggingConfig {
    pub level: LogLevel,
    pub file: Option<String>,
    pub max_size: u64,
    pub max_files: u32,
}

/// The whole system configuration.
#[derive(Debug, Clone)]
pub struct SystemConfig {
    pub name: String,
    pub version: String,
    pub environment: Environment,
    pub data_dir: String,
    pub cache: CacheConfig,
    pub security: SecurityConfig,
    pub logging: LoggingConfig,
}

impl Default for SystemConfig {
    /// The development defaults: in-memory cache with an hour of TTL,
    /// authentication on with 100 requests a minute, info-level
    /// logging with rotation at 100 MB over at most 10 files.
    fn default() -> (r: SystemConfig)
        ensures
            r.name@ == "Marwan Hub Factories"@,
            r.version@ == "3.0.0"@,
            r.environment == Environment::Development,
            r.data_dir@ == "./data"@,
            r.cache.cache_type == CacheType::Memory,
            r.cache.redis_url is None,
            r.cache.ttl == 3600,
            r.security.enable_auth,
            r.security.rate_limit == 100,
            r.security.rate_window == 60,
            r.logging.level == LogLevel::Info,
            r.logging.file is None,
            r.logging.max_size == 100,
            r.logging.max_files == 10,
    {
        SystemConfig {
            name: "Marwan Hub Factories".to_owned(),
            version: "3.0.0".to_owned(),
            environment: Environment::Development,
            data_dir: "./data".to_owned(),
            cache: CacheConfig {
                cache_type: CacheType::Memory,
                redis_url: None,
                ttl: 3600,
            },
            security: SecurityConfig {
                jwt_secret: "change_this_in_production".to_owned(),
                enable_auth: true,
                rate_limit: 100,
                rate_window: 60,
            },
            logging: LoggingConfig {
                level: LogLevel::Info,
                file: None,
                max_size: 100,
                max_files: 10,
            },
        }
    }
}

} // verus!
