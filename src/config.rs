//! Checks on the server's configuration that decide whether it may start.
use vstd::prelude::*;
use vstd::string::*;
use crate::text::str_eq;

verus! {

/// A configuration that the server refuses.
#[derive(PartialEq, Eq, Structural, Clone, Copy, Debug)]
pub enum ConfigError {
    /// Only one of the certificate and the key was given.
    IncompleteTlsPair,
    /// Verification is on but the configuration lists no key.
    NoVerificationKeys,
    /// The log format is none of `text`, `json`, `otlp`.
    UnknownLogFormat,
}

impl ConfigError {
    /// The message that reports this error.
    pub fn message(&self) -> (r: &'static str)
        ensures
            r@ == config_error_text(*self),
    {
        match self {
            ConfigError::IncompleteTlsPair =>
                "error parsing arguments: either both --cert-file and --key-file must be provided, or neither",
            ConfigError::NoVerificationKeys =>
                "error while loading verification info: contains 0 verification keys",
            ConfigError::UnknownLogFormat => "Unknown log message format",
        }
    }
}

pub open spec fn config_error_text(e: ConfigError) -> Seq<char> {
    match e {
        ConfigError::IncompleteTlsPair =>
            "error parsing arguments: either both --cert-file and --key-file must be provided, or neither"@,
        ConfigError::NoVerificationKeys =>
            "error while loading verification info: contains 0 verification keys"@,
        ConfigError::UnknownLogFormat => "Unknown log message format"@,
    }
}

/// The certificate and key files for TLS. An empty path means "not given":
/// both given or neither is accepted, one alone is refused.
pub fn tls_files(cert_file: String, key_file: String) -> (r: Result<(String, String), ConfigError>)
    ensures
        r is Ok <==> ((cert_file@.len() == 0) == (key_file@.len() == 0)),
        r is Ok ==> r->Ok_0.0 == cert_file && r->Ok_0.1 == key_file,
        r is Err ==> r->Err_0 == ConfigError::IncompleteTlsPair,
{
    let cert_empty = cert_file.as_str().unicode_len() == 0;
    let key_empty = key_file.as_str().unicode_len() == 0;
    if cert_empty != key_empty {
        Err(ConfigError::IncompleteTlsPair)
    } else {
        Ok((cert_file, key_file))
    }
}

/// The TLS material that the server listens with.
pub struct TlsConfig {
    pub cert_file: String,
    pub key_file: String,
}

/// Whether the server runs over TLS: when both files are given, with them;
/// when neither is, in plain text; one alone is refused.
pub fn tls_config(cert_file: String, key_file: String) -> (r: Result<Option<TlsConfig>, ConfigError>)
    ensures
        r is Ok <==> ((cert_file@.len() == 0) == (key_file@.len() == 0)),
        r is Err ==> r->Err_0 == ConfigError::IncompleteTlsPair,
        match r {
            Ok(Some(t)) => cert_file@.len() > 0 && t.cert_file == cert_file && t.key_file == key_file,
            Ok(None) => cert_file@.len() == 0,
            Err(_) => true,
        },
{
    match tls_files(cert_file, key_file) {
        Err(e) => Err(e),
        Ok((cert, key)) => {
            if cert.as_str().unicode_len() == 0 {
                Ok(None)
            } else {
                Ok(Some(TlsConfig { cert_file: cert, key_file: key }))
            }
        },
    }
}

/// One clause of a verification configuration: a key kind, the identity that
/// must have signed, and annotations that the signature must carry.
pub struct KeyClause {
    pub kind: String,
    pub owner: String,
    pub annotations: Vec<(String, String)>,
}

/// Every `all_of` clause must match; at least one `any_of` clause must.
pub struct VerificationConfig {
    pub all_of: Vec<KeyClause>,
    pub any_of: Vec<KeyClause>,
}

/// Accepts a verification configuration that lists at least one clause.
pub fn verification_settings(config: VerificationConfig) -> (r: Result<VerificationConfig, ConfigError>)
    ensures
        r is Ok <==> (config.all_of@.len() > 0 || config.any_of@.len() > 0),
        r is Ok ==> r->Ok_0 == config,
        r is Err ==> r->Err_0 == ConfigError::NoVerificationKeys,
{
    if config.all_of.len() == 0 && config.any_of.len() == 0 {
        Err(ConfigError::NoVerificationKeys)
    } else {
        Ok(config)
    }
}

/// Where log events go.
#[derive(PartialEq, Eq, Structural, Clone, Copy, Debug)]
pub enum LogFormat {
    Text,
    Json,
    /// Spans exported to an OpenTelemetry collector, events printed as text.
    Otlp,
}

/// The log format named `name`.
pub fn log_format(name: &str) -> (r: Result<LogFormat, ConfigError>)
    ensures
        name@ == "text"@ <==> r == Ok::<LogFormat, ConfigError>(LogFormat::Text),
        name@ == "json"@ <==> r == Ok::<LogFormat, ConfigError>(LogFormat::Json),
        name@ == "otlp"@ <==> r == Ok::<LogFormat, ConfigError>(LogFormat::Otlp),
        r is Err ==> r->Err_0 == ConfigError::UnknownLogFormat,
{
    proof {
        reveal_strlit("text");
        reveal_strlit("json");
        reveal_strlit("otlp");
        assert("text"@[0] != "json"@[0]);
        assert("text"@[0] != "otlp"@[0]);
        assert("json"@[0] != "otlp"@[0]);
    }
    if str_eq(name, "text") {
        Ok(LogFormat::Text)
    } else if str_eq(name, "json") {
        Ok(LogFormat::Json)
    } else if str_eq(name, "otlp") {
        Ok(LogFormat::Otlp)
    } else {
        Err(ConfigError::UnknownLogFormat)
    }
}

} // verus!
