//! IMAP backend configuration.

use vstd::prelude::*;

verus! {

/// The encryption protocol of an IMAP connection.
#[derive(Clone, Copy, Debug, PartialEq, Eq, Structural)]
pub enum ImapEncryptionKind {
    Tls,
    StartTls,
    /// No encryption.
    Unencrypted,
}

impl ImapEncryptionKind {
    /// `true` means TLS, `false` no encryption.
    pub fn from_bool(value: bool) -> (r: ImapEncryptionKind)
        ensures
            r == (if value {
                ImapEncryptionKind::Tls
            } else {
                ImapEncryptionKind::Unencrypted
            }),
    {
        if value {
            ImapEncryptionKind::Tls
        } else {
            ImapEncryptionKind::Unencrypted
        }
    }
}

/// Where a secret comes from.
#[derive(Debug, PartialEq, Eq)]
pub enum Secret {
    /// Not configured.
    Undefined,
    /// Given in the configuration.
    Raw(String),
    /// The output of a shell command.
    Command(String),
    /// An entry of the system keyring.
    KeyringEntry(String),
}

impl Secret {
    /// Points an undefined secret at keyring entry `entry`; a defined one
    /// is left as it is.
    pub fn set_keyring_entry_if_undefined(&mut self, entry: String)
        ensures
            match *old(self) {
                Secret::Undefined => *final(self) == Secret::KeyringEntry(entry),
                _ => *final(self) == *old(self),
            },
    {
        if let Secret::Undefined = self {
            *self = Secret::KeyringEntry(entry);
        }
    }
}

/// The OAuth 2.0 secrets of an IMAP account.
#[derive(Debug, PartialEq, Eq)]
pub struct OAuth2Config {
    pub client_id: String,
    pub client_secret: Secret,
    pub access_token: Secret,
    pub refresh_token: Secret,
}

/// How an IMAP account authenticates.
#[derive(Debug, PartialEq, Eq)]
pub enum ImapAuthConfig {
    /// With a password.
    Passwd(Secret),
    /// With OAuth 2.0.
    OAuth2(OAuth2Config),
}

fn with_suffix(name: &str, suffix: &str) -> (r: String)
    ensures
        r@ == name@ + suffix@,
{
    let mut r = name.to_owned();
    r.append(suffix);
    r
}

impl ImapAuthConfig {
    /// The default: a password, not configured.
    pub fn default_config() -> (r: ImapAuthConfig)
        ensures
            r == ImapAuthConfig::Passwd(Secret::Undefined),
    {
        ImapAuthConfig::Passwd(Secret::Undefined)
    }

    /// Points every undefined secret at a keyring entry named after the
    /// account `name`: `<name>-imap-passwd` for a password, and
    /// `<name>-imap-oauth2-client-secret`, `-access-token`,
    /// `-refresh-token` for OAuth 2.0.
    pub fn replace_undefined_keyring_entries(&mut self, name: &str)
        ensures
            match (*old(self), *final(self)) {
                (ImapAuthConfig::Passwd(s0), ImapAuthConfig::Passwd(s1)) => s0 is Undefined ==> s1
                    is KeyringEntry && s1->KeyringEntry_0@ == name@ + "-imap-passwd"@,
                (ImapAuthConfig::OAuth2(c0), ImapAuthConfig::OAuth2(c1)) => {
                    &&& c1.client_id == c0.client_id
                    &&& (c0.client_secret is Undefined ==> c1.client_secret is KeyringEntry
                        && c1.client_secret->KeyringEntry_0@ == name@
                        + "-imap-oauth2-client-secret"@)
                    &&& (!(c0.client_secret is Undefined) ==> c1.client_secret == c0.client_secret)
                    &&& (c0.access_token is Undefined ==> c1.access_token is KeyringEntry
                        && c1.access_token->KeyringEntry_0@ == name@
                        + "-imap-oauth2-access-token"@)
                    &&& (!(c0.access_token is Undefined) ==> c1.access_token == c0.access_token)
                    &&& (c0.refresh_token is Undefined ==> c1.refresh_token is KeyringEntry
                        && c1.refresh_token->KeyringEntry_0@ == name@
                        + "-imap-oauth2-refresh-token"@)
                    &&& (!(c0.refresh_token is Undefined) ==> c1.refresh_token == c0.refresh_token)
                },
                _ => false,
            },
            match *old(self) {
                ImapAuthConfig::Passwd(s0) => !(s0 is Undefined) ==> *final(self) == *old(self),
                _ => true,
            },
    {
        match self {
            ImapAuthConfig::Passwd(secret) => {
                secret.set_keyring_entry_if_undefined(with_suffix(name, "-imap-passwd"));
            },
            ImapAuthConfig::OAuth2(config) => {
                config.client_secret.set_keyring_entry_if_undefined(
                    with_suffix(name, "-imap-oauth2-client-secret"),
                );
                config.access_token.set_keyring_entry_if_undefined(
                    with_suffix(name, "-imap-oauth2-access-token"),
                );
                config.refresh_token.set_keyring_entry_if_undefined(
                    with_suffix(name, "-imap-oauth2-refresh-token"),
                );
            },
        }
    }
}

/// The IMAP IDLE options.
#[derive(Clone, Copy, Debug, PartialEq, Eq, Structural)]
pub struct ImapWatchConfig {
    /// Seconds after which the IDLE command is renewed.
    pub timeout: Option<u64>,
}

impl ImapWatchConfig {
    /// The watch timeout, if configured.
    pub fn find_timeout(&self) -> (r: Option<u64>)
        ensures
            r == self.timeout,
    {
        self.timeout
    }
}

/// The IMAP backend configuration.
#[derive(Debug, PartialEq, Eq)]
pub struct ImapConfig {
    pub host: String,
    pub port: u16,
    /// None means the default, SSL/TLS.
    pub encryption: Option<ImapEncryptionKind>,
    pub login: String,
    pub auth: ImapAuthConfig,
    pub watch: Option<ImapWatchConfig>,
}

impl ImapConfig {
    /// Whether TLS or StartTLS is used (the default is TLS).
    pub fn is_encryption_enabled(&self) -> (r: bool)
        ensures
            r == !(self.encryption == Some(ImapEncryptionKind::Unencrypted)),
    {
        match self.encryption {
            None => true,
            Some(ImapEncryptionKind::Tls) => true,
            Some(ImapEncryptionKind::StartTls) => true,
            Some(ImapEncryptionKind::Unencrypted) => false,
        }
    }

    /// Whether StartTLS is used.
    pub fn is_start_tls_encryption_enabled(&self) -> (r: bool)
        ensures
            r == (self.encryption == Some(ImapEncryptionKind::StartTls)),
    {
        match self.encryption {
            Some(ImapEncryptionKind::StartTls) => true,
            _ => false,
        }
    }

    /// Whether encryption is disabled.
    pub fn is_encryption_disabled(&self) -> (r: bool)
        ensures
            r == (self.encryption == Some(ImapEncryptionKind::Unencrypted)),
    {
        match self.encryption {
            Some(ImapEncryptionKind::Unencrypted) => true,
            _ => false,
        }
    }

    /// The watch timeout, if a watch configuration sets one.
    pub fn find_watch_timeout(&self) -> (r: Option<u64>)
        ensures
            r == match self.watch {
                Some(w) => w.timeout,
                None => None,
            },
    {
        match &self.watch {
            Some(w) => w.find_timeout(),
            None => None,
        }
    }
}

} // verus!
