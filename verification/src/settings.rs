//! Configuration records of the adapter, the derived paths, and the
//! capability surface reported to callers.

use vstd::prelude::*;
use vstd::string::StringExecFns;

use crate::errors::ConfigError;
use crate::quotes::CurrencyUnit;

verus! {

/// Backend-specific configuration for the wallet service.
pub struct BackendConfig {
    /// Wallet API key (required).
    pub api_key: String,
    /// Mnemonic seed phrase for the wallet (required).
    pub mnemonic: String,
    /// Optional passphrase for the mnemonic.
    pub passphrase: Option<String>,
    /// Working directory for all data (SDK storage, database).
    pub working_dir: String,
}

impl BackendConfig {
    /// The storage directory for the wallet SDK's own data.
    pub fn storage_dir(&self) -> (r: String)
        ensures
            r@ == self.working_dir@ + "/breez"@,
    {
        let mut s = self.working_dir.clone();
        s.append("/breez");
        s
    }

    /// The path of the quotes database.
    pub fn db_path(&self) -> (r: String)
        ensures
            r@ == self.working_dir@ + "/quotes.db"@,
    {
        let mut s = self.working_dir.clone();
        s.append("/quotes.db");
        s
    }
}

/// Validate a backend configuration before any wallet call: the API key and
/// the mnemonic are required; the key is checked first.
pub fn validate_backend_config(config: &BackendConfig) -> (r: Result<(), ConfigError>)
    ensures
        r is Ok <==> config.api_key@.len() > 0 && config.mnemonic@.len() > 0,
        r matches Err(e) ==> if config.api_key@.len() == 0 {
            e is MissingApiKey
        } else {
            e is MissingMnemonic
        },
{
    if config.api_key.as_str().is_empty() {
        Err(ConfigError::MissingApiKey)
    } else if config.mnemonic.as_str().is_empty() {
        Err(ConfigError::MissingMnemonic)
    } else {
        Ok(())
    }
}

/// Main configuration: the backend, the server bind parameters, and the
/// transport tuning knobs, all consumed elsewhere.
pub struct Config {
    /// Backend type identifier.
    pub backend_type: String,
    /// Backend-specific configuration.
    pub backend: BackendConfig,
    /// Server bind address.
    pub server_addr: String,
    /// Server port.
    pub server_port: u16,
    /// Whether TLS is enabled for the server.
    pub tls_enable: bool,
    /// TLS certificate path.
    pub tls_cert_path: String,
    /// TLS key path.
    pub tls_key_path: String,
    /// Keep-alive interval, as written in the configuration.
    pub keep_alive_interval: Option<String>,
    /// Keep-alive timeout, as written in the configuration.
    pub keep_alive_timeout: Option<String>,
    /// Maximum connection age, as written in the configuration.
    pub max_connection_age: Option<String>,
}

/// The default server bind address.
pub fn default_server_addr() -> (r: String)
    ensures
        r@ == "127.0.0.1"@,
{
    String::from_str("127.0.0.1")
}

/// The default working directory, given the user's home directory when one
/// is known: a dot directory under home, else a local data directory.
pub fn default_working_dir_from(home_dir: Option<&String>) -> (r: String)
    ensures
        home_dir matches Some(h) ==> r@ == h@ + "/.cdk-spark-payment-processor"@,
        home_dir is None ==> r@ == "./.data"@,
{
    match home_dir {
        Some(h) => {
            let mut s = h.clone();
            s.append("/.cdk-spark-payment-processor");
            s
        },
        None => String::from_str("./.data"),
    }
}

impl Config {
    /// The default configuration, given the default working directory: a
    /// mock backend type with empty credentials, the loopback bind address,
    /// TLS off with the conventional certificate paths, and no transport
    /// tuning.
    pub fn default_with_working_dir(working_dir: String) -> (r: Config)
        ensures
            r.backend_type@ == "mock"@,
            r.backend.api_key@.len() == 0,
            r.backend.mnemonic@.len() == 0,
            r.backend.passphrase is None,
            r.backend.working_dir == working_dir,
            r.server_addr@ == "127.0.0.1"@,
            r.server_port == 50051u16,
            !r.tls_enable,
            r.tls_cert_path@ == "certs/server.crt"@,
            r.tls_key_path@ == "certs/server.key"@,
            r.keep_alive_interval is None,
            r.keep_alive_timeout is None,
            r.max_connection_age is None,
    {
        Config {
            backend_type: String::from_str("mock"),
            backend: BackendConfig {
                api_key: String::new(),
                mnemonic: String::new(),
                passphrase: None,
                working_dir,
            },
            server_addr: default_server_addr(),
            server_port: 50051,
            tls_enable: false,
            tls_cert_path: String::from_str("certs/server.crt"),
            tls_key_path: String::from_str("certs/server.key"),
            keep_alive_interval: None,
            keep_alive_timeout: None,
            max_connection_age: None,
        }
    }
}

/// Whether an environment flag value counts as enabled.
pub fn env_flag_enabled(value: &String) -> (r: bool)
    ensures
        r == (value@ == "1"@ || value@ == "true"@ || value@ == "TRUE"@ || value@ == "yes"@
            || value@ == "YES"@),
{
    value.eq(&String::from_str("1")) || value.eq(&String::from_str("true")) || value.eq(
        &String::from_str("TRUE"),
    ) || value.eq(&String::from_str("yes")) || value.eq(&String::from_str("YES"))
}

/// The capability surface this backend reports to callers.
pub struct BackendCapabilities {
    /// BOLT11 invoices are supported.
    pub bolt11: bool,
    /// BOLT12 offers are not.
    pub bolt12: bool,
    /// Multi-part payments are supported.
    pub mpp: bool,
    /// Atomic multi-path payments are not.
    pub amp: bool,
    /// The one supported unit.
    pub unit: CurrencyUnit,
    /// Wallet-native transfers are supported.
    pub spark: bool,
    /// Invoice descriptions are not configurable per quote.
    pub invoice_description: bool,
    /// Open-amount invoices are not offered to callers.
    pub amountless: bool,
}

/// The capabilities this backend reports: BOLT11 with MPP in satoshis plus
/// wallet-native transfers, and nothing else.
pub fn backend_capabilities() -> (r: BackendCapabilities)
    ensures
        r.bolt11,
        !r.bolt12,
        r.mpp,
        !r.amp,
        r.unit is Sat,
        r.spark,
        !r.invoice_description,
        !r.amountless,
{
    BackendCapabilities {
        bolt11: true,
        bolt12: false,
        mpp: true,
        amp: false,
        unit: CurrencyUnit::Sat,
        spark: true,
        invoice_description: false,
        amountless: false,
    }
}

} // verus!
