//! System configuration: which Redis instance serves which purpose.
pub mod redis;

use vstd::prelude::*;
use crate::config::redis::{RedisConfig, RedisConfigError};

verus! {

/// The configuration of the whole system.
pub struct SystemConfig {
    pub redis: RedisConfig,
}

/// Why a configuration could not be used.
#[derive(Debug)]
pub enum ConfigError {
    RedisConfigError(RedisConfigError),
}

} // verus!
