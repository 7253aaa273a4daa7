//! Configuration: the broker credentials, logging, and the wheel's settings checks.
use crate::text::{parse_u32, spec_parse_u32};
use vstd::prelude::*;
use vstd::string::StringSliceAdditionalSpecFns;

verus! {

/// Alpaca API credentials and endpoint selection.
#[derive(Clone, Debug)]
pub struct AlpacaConfig {
    /// Alpaca API key ID
    pub api_key: String,
    /// Alpaca API secret key
    pub api_secret: String,
    /// Use paper trading endpoints (strongly recommended to start with `true`)
    pub paper: bool,
}

/// Logging configuration.
#[derive(Clone, Debug)]
pub struct LoggingConfig {
    /// `tracing` filter directive, e.g. "info" or "nonthok_cashflow=debug,info"
    pub level: String,
}

/// Paper trading unless configured otherwise.
pub fn default_true() -> (r: bool)
    ensures
        r,
{
    true
}

/// The default limit on concurrently open positions.
pub fn default_max_positions() -> (r: usize)
    ensures
        r == 5,
{
    5
}

/// The default log filter.
pub fn default_log_level() -> (r: String)
    ensures
        r@ == "info"@,
{
    "info".to_owned()
}

/// A setting of the wheel that cannot be used.
#[derive(Clone, Copy, Debug, PartialEq, Eq, Structural)]
pub enum ConfigError {
    ApiKeyMissing,
    ApiKeyEmpty,
    ApiSecretMissing,
    ApiSecretEmpty,
    /// `TARGET_DTE_MIN` is not a `u32`.
    DteMinInvalid,
    /// `TARGET_DTE_MAX` is not a `u32`.
    DteMaxInvalid,
    /// The window is empty or inverted.
    DteWindowInverted { min: u32, max: u32 },
}

/// Checks the API key and secret as read from the environment (`None` when unset):
/// both must be set and non-empty, the key checked first.
pub fn check_credentials(api_key: Option<&str>, api_secret: Option<&str>) -> (r: Result<
    (),
    ConfigError,
>)
    ensures
        r == match (api_key, api_secret) {
            (None, _) => Err(ConfigError::ApiKeyMissing),
            (Some(k), _) if k@.len() == 0 => Err(ConfigError::ApiKeyEmpty),
            (Some(_), None) => Err(ConfigError::ApiSecretMissing),
            (Some(_), Some(s)) if s@.len() == 0 => Err(ConfigError::ApiSecretEmpty),
            _ => Ok::<(), ConfigError>(()),
        },
{
    match api_key {
        None => {
            return Err(ConfigError::ApiKeyMissing);
        },
        Some(k) => {
            if k.is_empty() {
                return Err(ConfigError::ApiKeyEmpty);
            }
        },
    }
    match api_secret {
        None => Err(ConfigError::ApiSecretMissing),
        Some(s) => {
            if s.is_empty() {
                Err(ConfigError::ApiSecretEmpty)
            } else {
                Ok(())
            }
        },
    }
}

/// A days-to-expiration bound as configured: the text parsed as a `u32`, or the
/// default when unset.
pub open spec fn spec_dte_setting(text: Option<&str>, default: u32) -> Option<u32> {
    match text {
        Some(t) => spec_parse_u32(t.spec_bytes()),
        None => Some(default),
    }
}

/// The days-to-expiration window for option selection, from `TARGET_DTE_MIN` and
/// `TARGET_DTE_MAX` (defaults 21 and 30). Each must be a `u32` and the minimum must
/// be below the maximum.
pub fn dte_window(min_text: Option<&str>, max_text: Option<&str>) -> (r: Result<
    (u32, u32),
    ConfigError,
>)
    ensures
        r == match (spec_dte_setting(min_text, 21), spec_dte_setting(max_text, 30)) {
            (None, _) => Err(ConfigError::DteMinInvalid),
            (Some(_), None) => Err(ConfigError::DteMaxInvalid),
            (Some(lo), Some(hi)) => if lo < hi {
                Ok((lo, hi))
            } else {
                Err(ConfigError::DteWindowInverted { min: lo, max: hi })
            },
        },
{
    let lo = match min_text {
        Some(t) => match parse_u32(t) {
            Some(v) => v,
            None => {
                return Err(ConfigError::DteMinInvalid);
            },
        },
        None => 21,
    };
    let hi = match max_text {
        Some(t) => match parse_u32(t) {
            Some(v) => v,
            None => {
                return Err(ConfigError::DteMaxInvalid);
            },
        },
        None => 30,
    };
    if lo >= hi {
        Err(ConfigError::DteWindowInverted { min: lo, max: hi })
    } else {
        Ok((lo, hi))
    }
}

} // verus!
