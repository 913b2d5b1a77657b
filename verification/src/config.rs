//! Configuration data as the monitor reads it at startup. The library
//! only carries these values; loading them from disk and handing them
//! to the mail relay happen outside it.

use vstd::prelude::*;

verus! {

/// Credentials and recipients for the outbound mail relay.
pub struct Email {
    pub smtp_code: String,
    pub smtp_code_type: String,
    pub smtp_email: String,
    pub cola_key: String,
    /// Recipients; each notification is attempted for every one of them.
    pub tomail: Vec<String>,
}

/// The monitor's whole configuration.
pub struct Config {
    pub port: u16,
    /// Path of the log file.
    pub log: String,
    /// Path of the store's database file.
    pub database: String,
    /// Poll interval in seconds.
    pub interval: u64,
    pub email: Email,
}

} // verus!
