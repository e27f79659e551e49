use vstd::prelude::*;

verus! {

/// Settings of the theme cache.
#[derive(Debug, Clone, Copy, PartialEq, Eq, Structural)]
pub struct CacheConfig {
    /// How long a snapshot stays valid after a refresh.
    pub cache_duration_minutes: u32,
    pub preload_on_startup: bool,
    pub background_refresh_interval: u32,
    /// The most themes a snapshot may hold.
    pub max_cache_size: u32,
}

/// The persisted cache configuration of the application.
#[derive(Debug, Clone)]
pub struct AppCacheConfig {
    pub theme_cache: CacheConfig,
    pub enable_persistence: bool,
    /// An external cache directory, which must be an absolute path.
    pub cache_directory: Option<String>,
}

/// Why a configuration was refused.
#[derive(Debug, Clone, Copy, PartialEq, Eq, Structural)]
pub enum ConfigError {
    ZeroCacheDuration,
    ZeroMaxCacheSize,
    ZeroRefreshInterval,
    RelativeCacheDirectory,
}

impl ConfigError {
    /// A sentence that describes the refusal.
    pub fn message(&self) -> String {
        match self {
            ConfigError::ZeroCacheDuration => "Cache duration must be greater than 0".to_string(),
            ConfigError::ZeroMaxCacheSize => "Max cache size must be greater than 0".to_string(),
            ConfigError::ZeroRefreshInterval => "Background refresh interval must be greater than 0".to_string(),
            ConfigError::RelativeCacheDirectory => "Cache directory must be an absolute path".to_string(),
        }
    }
}

impl Default for CacheConfig {
    fn default() -> (r: CacheConfig)
        ensures
            r == (CacheConfig {
                cache_duration_minutes: 5,
                preload_on_startup: true,
                background_refresh_interval: 10,
                max_cache_size: 1000,
            }),
    {
        CacheConfig {
            cache_duration_minutes: 5,
            preload_on_startup: true,
            background_refresh_interval: 10,
            max_cache_size: 1000,
        }
    }
}

impl Default for AppCacheConfig {
    fn default() -> (r: AppCacheConfig)
        ensures
            r.theme_cache == (CacheConfig {
                cache_duration_minutes: 5,
                preload_on_startup: true,
                background_refresh_interval: 10,
                max_cache_size: 1000,
            }),
            !r.enable_persistence,
            r.cache_directory is None,
    {
        AppCacheConfig {
            theme_cache: CacheConfig::default(),
            enable_persistence: false,
            cache_directory: None,
        }
    }
}

/// What `Path::is_absolute` says of the path written `s` on this platform.
pub uninterp spec fn absolute_path(s: Seq<char>) -> bool;

/// Relies on `std::path::Path::is_absolute`: whether the path written `s` is
/// absolute, which depends on the text alone.
#[verifier::external_body]
fn is_absolute_path(s: &str) -> (r: bool)
    ensures
        r == absolute_path(s@),
{
    std::path::Path::new(s).is_absolute()
}

/// The outcome of validating `c`: the first rule it breaks, in the order cache
/// duration, max cache size, refresh interval, cache directory.
pub open spec fn validation(c: AppCacheConfig) -> Result<(), ConfigError> {
    if c.theme_cache.cache_duration_minutes == 0 {
        Err(ConfigError::ZeroCacheDuration)
    } else if c.theme_cache.max_cache_size == 0 {
        Err(ConfigError::ZeroMaxCacheSize)
    } else if c.theme_cache.background_refresh_interval == 0 {
        Err(ConfigError::ZeroRefreshInterval)
    } else if c.cache_directory is Some && !absolute_path(c.cache_directory->0@) {
        Err(ConfigError::RelativeCacheDirectory)
    } else {
        Ok(())
    }
}

/// Validation and persistence rules of the cache configuration.
pub struct CacheConfigManager;

impl CacheConfigManager {
    /// Checks a configuration before it may be stored: every numeric setting must
    /// be positive and a cache directory, if given, must be absolute.
    pub fn validate_config(config: &AppCacheConfig) -> (r: Result<(), ConfigError>)
        ensures
            r == validation(*config),
    {
        if config.theme_cache.cache_duration_minutes == 0 {
            return Err(ConfigError::ZeroCacheDuration);
        }
        if config.theme_cache.max_cache_size == 0 {
            return Err(ConfigError::ZeroMaxCacheSize);
        }
        if config.theme_cache.background_refresh_interval == 0 {
            return Err(ConfigError::ZeroRefreshInterval);
        }
        if let Some(dir) = &config.cache_directory {
            if !is_absolute_path(dir.as_str()) {
                return Err(ConfigError::RelativeCacheDirectory);
            }
        }
        Ok(())
    }
}

} // verus!
