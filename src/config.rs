//! Process configuration: API tokens, the data directory and the sweep's
//! timing.
use vstd::prelude::*;

verus! {

/// Default data directory, relative to the working directory.
pub const DEFAULT_DATA_PATH: &'static str = "data";

/// Settings of the service.
pub struct Config {
    pub auth_tokens: Vec<String>,
    pub auth_enabled: bool,
    pub data_path: String,
    pub cleanup_interval_minutes: u64,
    pub file_expiry_minutes: u64,
}

impl Default for Config {
    /// No tokens, authentication on, the default data directory, a sweep every
    /// 15 minutes removing artifacts older than 60 minutes.
    fn default() -> (r: Config)
        ensures
            r.auth_tokens@.len() == 0,
            r.auth_enabled,
            r.data_path@ == DEFAULT_DATA_PATH@,
            r.cleanup_interval_minutes == 15,
            r.file_expiry_minutes == 60,
    {
        Config {
            auth_tokens: Vec::new(),
            auth_enabled: true,
            data_path: DEFAULT_DATA_PATH.to_string(),
            cleanup_interval_minutes: 15,
            file_expiry_minutes: 60,
        }
    }
}

impl Config {
    /// The sweep interval in seconds, `None` when it does not fit in `u64`.
    pub fn cleanup_interval_secs(&self) -> (r: Option<u64>)
        ensures
            match r {
                Some(s) => s == self.cleanup_interval_minutes * 60,
                None => self.cleanup_interval_minutes * 60 > u64::MAX,
            },
    {
        self.cleanup_interval_minutes.checked_mul(60)
    }

    /// The artifact expiry in nanoseconds.
    pub fn file_expiry_nanos(&self) -> (r: u128)
        ensures
            r == self.file_expiry_minutes * 60_000_000_000,
    {
        (self.file_expiry_minutes as u128) * 60_000_000_000u128
    }
}

} // verus!
