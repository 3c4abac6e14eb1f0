//! Server settings, read from named values with defaults.
use vstd::prelude::*;

use crate::text::{all_digits, digits_value, parse_unsigned, parse_unsigned_chars, str_chars, unsigned_body};

verus! {

/// The raw setting values, each absent when it is not set.
#[derive(Debug)]
pub struct ConfigSource {
    pub port: Option<String>,
    pub database_url: Option<String>,
    pub firmware_dir: Option<String>,
    pub rsa_private_key_pem: Option<String>,
    pub rsa_public_key_pem: Option<String>,
    pub download_url_expiry_secs: Option<String>,
    pub hmac_primary_key: Option<String>,
    pub hmac_secondary_key: Option<String>,
    pub encryption_key: Option<String>,
}

#[derive(Debug)]
pub struct Config {
    pub port: u16,
    pub database_url: String,
    pub firmware_dir: String,
    pub rsa_private_key_pem: Option<String>,
    pub rsa_public_key_pem: Option<String>,
    pub download_url_expiry_secs: u64,
    pub hmac_primary_key: String,
    pub hmac_secondary_key: String,
    pub encryption_key: String,
}

/// A setting whose text is not a number of the right size.
#[derive(Debug, PartialEq, Eq, Clone, Copy)]
pub enum ConfigError {
    InvalidPort,
    InvalidExpiry,
}

impl ConfigError {
    /// The message the server stops with.
    pub fn message(&self) -> (m: &'static str)
        ensures
            *self == ConfigError::InvalidPort ==> m@ == "PORT must be a valid number"@,
            *self == ConfigError::InvalidExpiry ==> m@ == "DOWNLOAD_URL_EXPIRY_SECS must be a valid number"@,
    {
        match self {
            ConfigError::InvalidPort => "PORT must be a valid number",
            ConfigError::InvalidExpiry => "DOWNLOAD_URL_EXPIRY_SECS must be a valid number",
        }
    }
}

/// The text of a setting, or its default.
pub open spec fn setting_or(value: Option<String>, default: Seq<char>) -> Seq<char> {
    match value {
        Some(v) => v@,
        None => default,
    }
}

fn text_or(value: Option<String>, default: &str) -> (t: String)
    ensures
        t@ == setting_or(value, default@),
{
    match value {
        Some(v) => v,
        None => default.to_owned(),
    }
}

fn parse_setting(text: &str, max: u64) -> (res: Option<u64>)
    ensures
        match parse_unsigned(text@, max as nat) {
            Some(x) => res == Some(x as u64),
            None => res is None,
        },
{
    let v = str_chars(text);
    assert(v@.subrange(0, v@.len() as int) =~= v@);
    parse_unsigned_chars(&v, 0, v.len(), max)
}

/// The default port and link lifetime read as the numbers 3000 and 3600.
pub proof fn lemma_default_numbers_read()
    ensures
        parse_unsigned("3000"@, 65535) == Some(3000nat),
        parse_unsigned("3600"@, 0xffff_ffff_ffff_ffff) == Some(3600nat),
{
    reveal_strlit("3000");
    reveal_strlit("3600");
    let a = "3000"@;
    let b = "3600"@;
    assert(unsigned_body(a) == a);
    assert(unsigned_body(b) == b);
    assert(all_digits(a));
    assert(all_digits(b));
    reveal_with_fuel(digits_value, 5);
    assert(a.drop_last().drop_last().drop_last().drop_last() =~= Seq::<char>::empty());
    assert(b.drop_last().drop_last().drop_last().drop_last() =~= Seq::<char>::empty());
    assert(digits_value(a) == 3000);
    assert(digits_value(b) == 3600);
}

impl Config {
    /// The settings: a port (default 3000) and a link lifetime in seconds
    /// (default 3600) read as unsigned numbers, and the other texts or their
    /// defaults. A port or lifetime that does not read is an error.
    pub fn from_settings(source: ConfigSource) -> (res: Result<Config, ConfigError>)
        ensures
            parse_unsigned(setting_or(source.port, "3000"@), 65535) is None ==> res == Err::<
                Config,
                ConfigError,
            >(ConfigError::InvalidPort),
            parse_unsigned(setting_or(source.port, "3000"@), 65535) is Some && parse_unsigned(
                setting_or(source.download_url_expiry_secs, "3600"@),
                0xffff_ffff_ffff_ffff,
            ) is None ==> res == Err::<Config, ConfigError>(ConfigError::InvalidExpiry),
            parse_unsigned(setting_or(source.port, "3000"@), 65535) is Some && parse_unsigned(
                setting_or(source.download_url_expiry_secs, "3600"@),
                0xffff_ffff_ffff_ffff,
            ) is Some ==> res is Ok,
            source.port is None && source.download_url_expiry_secs is None ==> (res matches Ok(c)
                && c.port == 3000 && c.download_url_expiry_secs == 3600),
            res matches Ok(c) ==> {
                &&& parse_unsigned(setting_or(source.port, "3000"@), 65535) == Some(c.port as nat)
                &&& parse_unsigned(
                    setting_or(source.download_url_expiry_secs, "3600"@),
                    0xffff_ffff_ffff_ffff,
                ) == Some(c.download_url_expiry_secs as nat)
                &&& c.database_url@ == setting_or(source.database_url, "sqlite:ota.db?mode=rwc"@)
                &&& c.firmware_dir@ == setting_or(source.firmware_dir, "./firmware_store"@)
                &&& c.rsa_private_key_pem == source.rsa_private_key_pem
                &&& c.rsa_public_key_pem == source.rsa_public_key_pem
                &&& c.hmac_primary_key@ == setting_or(
                    source.hmac_primary_key,
                    "primary-secret-key-change-in-production"@,
                )
                &&& c.hmac_secondary_key@ == setting_or(
                    source.hmac_secondary_key,
                    "secondary-secret-key-change-in-production"@,
                )
                &&& c.encryption_key@ == setting_or(
                    source.encryption_key,
                    "default-encryption-key-change-in-production-please"@,
                )
            },
    {
        proof {
            lemma_default_numbers_read();
        }
        let port_text = text_or(source.port, "3000");
        let port = match parse_setting(port_text.as_str(), 65535) {
            Some(p) => p as u16,
            None => {
                return Err(ConfigError::InvalidPort);
            },
        };
        let database_url = text_or(source.database_url, "sqlite:ota.db?mode=rwc");
        let firmware_dir = text_or(source.firmware_dir, "./firmware_store");
        let expiry_text = text_or(source.download_url_expiry_secs, "3600");
        let download_url_expiry_secs = match parse_setting(
            expiry_text.as_str(),
            0xffff_ffff_ffff_ffffu64,
        ) {
            Some(e) => e,
            None => {
                return Err(ConfigError::InvalidExpiry);
            },
        };
        let hmac_primary_key = text_or(
            source.hmac_primary_key,
            "primary-secret-key-change-in-production",
        );
        let hmac_secondary_key = text_or(
            source.hmac_secondary_key,
            "secondary-secret-key-change-in-production",
        );
        let encryption_key = text_or(
            source.encryption_key,
            "default-encryption-key-change-in-production-please",
        );
        Ok(
            Config {
                port,
                database_url,
                firmware_dir,
                rsa_private_key_pem: source.rsa_private_key_pem,
                rsa_public_key_pem: source.rsa_public_key_pem,
                download_url_expiry_secs,
                hmac_primary_key,
                hmac_secondary_key,
                encryption_key,
            },
        )
    }
}

} // verus!
