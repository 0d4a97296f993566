//! Maildir and SMTP backend configuration.

use vstd::prelude::*;

verus! {

/// The Maildir backend configuration.
#[derive(Debug, PartialEq, Eq)]
pub struct MaildirConfig {
    /// The Maildir root directory (the one holding `cur`, `new`, `tmp`).
    pub root_dir: String,
}

/// Builds a Maildir backend for an account.
#[derive(Debug, PartialEq, Eq)]
pub struct MaildirBackendBuilder {
    pub account_name: String,
    pub mdir_config: MaildirConfig,
}

impl MaildirBackendBuilder {
    /// The builder of the Maildir backend of `account_name`.
    pub fn new(account_name: String, mdir_config: MaildirConfig) -> (r: Self)
        ensures
            r.account_name == account_name,
            r.mdir_config == mdir_config,
    {
        MaildirBackendBuilder { account_name, mdir_config }
    }
}

/// The encryption protocol of an SMTP connection.
#[derive(Clone, Copy, Debug, PartialEq, Eq, Structural)]
pub enum SmtpEncryptionKind {
    Tls,
    StartTls,
    /// No encryption.
    Unencrypted,
}

/// The SMTP backend configuration.
#[derive(Debug, PartialEq, Eq)]
pub struct SmtpConfig {
    pub host: String,
    pub port: u16,
    pub login: String,
    /// None means the default, SSL/TLS.
    pub encryption: Option<SmtpEncryptionKind>,
}

impl SmtpConfig {
    /// Whether TLS or StartTLS is used (the default is TLS).
    pub fn is_encryption_enabled(&self) -> (r: bool)
        ensures
            r == !(self.encryption == Some(SmtpEncryptionKind::Unencrypted)),
    {
        match self.encryption {
            Some(SmtpEncryptionKind::Unencrypted) => false,
            _ => true,
        }
    }

    /// Whether StartTLS is used.
    pub fn is_start_tls_encryption_enabled(&self) -> (r: bool)
        ensures
            r == (self.encryption == Some(SmtpEncryptionKind::StartTls)),
    {
        match self.encryption {
            Some(SmtpEncryptionKind::StartTls) => true,
            _ => false,
        }
    }

    /// Whether encryption is disabled.
    pub fn is_encryption_disabled(&self) -> (r: bool)
        ensures
            r == (self.encryption == Some(SmtpEncryptionKind::Unencrypted)),
    {
        match self.encryption {
            Some(SmtpEncryptionKind::Unencrypted) => true,
            _ => false,
        }
    }
}

/// Builds an SMTP context.
#[derive(Debug, PartialEq, Eq)]
pub struct SmtpContextBuilder {
    pub config: SmtpConfig,
}

/// How the SMTP client connects, as the configuration asks.
#[derive(Clone, Copy, Debug, PartialEq, Eq, Structural)]
pub struct SmtpConnectionPlan {
    /// TLS from the first byte, rather than upgraded by STARTTLS.
    pub implicit_tls: bool,
    /// Accept invalid certificates.
    pub allow_invalid_certs: bool,
    /// Connect over TLS rather than plain TCP.
    pub tls: bool,
}

impl SmtpContextBuilder {
    /// The builder of an SMTP context for `config`.
    pub fn new(config: SmtpConfig) -> (r: Self)
        ensures
            r.config == config,
    {
        SmtpContextBuilder { config }
    }

    /// How the client connects: implicit TLS unless STARTTLS is asked for,
    /// invalid certificates accepted when encryption is disabled, and a TLS
    /// connection whenever encryption is enabled.
    pub fn connection_plan(&self) -> (r: SmtpConnectionPlan)
        ensures
            r.implicit_tls == !(self.config.encryption == Some(SmtpEncryptionKind::StartTls)),
            r.allow_invalid_certs == (self.config.encryption == Some(SmtpEncryptionKind::Unencrypted)),
            r.tls == !(self.config.encryption == Some(SmtpEncryptionKind::Unencrypted)),
    {
        SmtpConnectionPlan {
            implicit_tls: !self.config.is_start_tls_encryption_enabled(),
            allow_invalid_certs: self.config.is_encryption_disabled(),
            tls: self.config.is_encryption_enabled(),
        }
    }
}

} // verus!
