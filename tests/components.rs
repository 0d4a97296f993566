use email_lib::backend::{BackendBuilder, BackendError, BackendFeature, BackendFeatureSource};
use email_lib::folder::{folder_names, Folder, FolderKind};
use email_lib::config::{SmtpConfig, SmtpContextBuilder, SmtpEncryptionKind};
use email_lib::imap_config::{
    ImapAuthConfig, ImapConfig, ImapEncryptionKind, ImapWatchConfig, OAuth2Config, Secret,
};
use email_lib::keyring::{Entry, KeyringError, KeyringFailure};
use email_lib::maildir::{
    decode_folder, delete_action, encode_folder, folder_path, page_range, subdir_folder_name,
    DeleteAction, PageError,
};
use email_lib::notmuch::{notmuch_list_query, QueryDate, SearchEmailsQuery, SearchEmailsQueryFilter as F};
use email_lib::oauth::AuthorizationCodeGrant;
use email_lib::smtp::{
    envelope_of_message, next_send_step, SendOutcome, SendStep, SmtpAuthKind, SmtpError,
};
use mail_builder::MessageBuilder;

fn imap(encryption: Option<ImapEncryptionKind>) -> ImapConfig {
    ImapConfig {
        host: "localhost".into(),
        port: 993,
        encryption,
        login: "alice".into(),
        auth: ImapAuthConfig::default_config(),
        watch: Some(ImapWatchConfig { timeout: Some(1740) }),
    }
}

#[test]
fn imap_encryption_predicates() {
    let c = imap(None);
    assert!(c.is_encryption_enabled() && !c.is_start_tls_encryption_enabled() && !c.is_encryption_disabled());
    let c = imap(Some(ImapEncryptionKind::StartTls));
    assert!(c.is_encryption_enabled() && c.is_start_tls_encryption_enabled());
    let c = imap(Some(ImapEncryptionKind::Unencrypted));
    assert!(!c.is_encryption_enabled() && c.is_encryption_disabled());
    assert_eq!(c.find_watch_timeout(), Some(1740));
    assert_eq!(ImapEncryptionKind::from_bool(true), ImapEncryptionKind::Tls);
    assert_eq!(ImapEncryptionKind::from_bool(false), ImapEncryptionKind::Unencrypted);
}

#[test]
fn undefined_secrets_point_at_keyring_entries() {
    let mut a = ImapAuthConfig::default_config();
    a.replace_undefined_keyring_entries("work");
    assert_eq!(a, ImapAuthConfig::Passwd(Secret::KeyringEntry("work-imap-passwd".into())));

    let mut a = ImapAuthConfig::OAuth2(OAuth2Config {
        client_id: "id".into(),
        client_secret: Secret::Raw("s".into()),
        access_token: Secret::Undefined,
        refresh_token: Secret::Undefined,
    });
    a.replace_undefined_keyring_entries("work");
    assert_eq!(
        a,
        ImapAuthConfig::OAuth2(OAuth2Config {
            client_id: "id".into(),
            client_secret: Secret::Raw("s".into()),
            access_token: Secret::KeyringEntry("work-imap-oauth2-access-token".into()),
            refresh_token: Secret::KeyringEntry("work-imap-oauth2-refresh-token".into()),
        })
    );
}

#[test]
fn maildir_folder_names() {
    assert_eq!(folder_path("INBOX"), "cur");
    assert_eq!(folder_path("My Work"), ".My%20Work");
    assert_eq!(encode_folder("a/b"), "a%2Fb");
    assert_eq!(decode_folder("My%20Work"), "My Work");
    assert_eq!(decode_folder("%FF"), "%FF");
    assert_eq!(subdir_folder_name(".My%20Work"), Some("My Work".to_string()));
    assert_eq!(subdir_folder_name(".notmuch"), None);
    assert_eq!(subdir_folder_name("."), None);
}

#[test]
fn pagination() {
    assert_eq!(page_range(10, 0, 0), Ok((0, 10)));
    assert_eq!(page_range(10, 1, 3), Ok((3, 6)));
    assert_eq!(page_range(10, 3, 3), Ok((9, 10)));
    assert_eq!(page_range(10, 4, 3), Err(PageError::OutOfBounds(13)));
    assert_eq!(page_range(0, 0, 5), Ok((0, 0)));
    assert_eq!(page_range(10, usize::MAX, 2), Err(PageError::TooLarge));
}

fn raw(builder: MessageBuilder<'_>) -> Vec<u8> {
    builder.write_to_vec().unwrap()
}

#[test]
fn smtp_envelope() {
    let msg = MessageBuilder::new()
        .from(("Alice", "alice@localhost"))
        .to(vec!["bob@localhost", "carol@localhost"])
        .cc("bob@localhost")
        .bcc("dave@localhost")
        .subject("s")
        .text_body("b");
    let e = envelope_of_message(&raw(msg)).unwrap();
    assert_eq!(e.mail_from, "alice@localhost");
    assert_eq!(e.rcpt_to, vec!["bob@localhost".to_string(), "dave@localhost".to_string()]);

    let no_rcpt = MessageBuilder::new().from("alice@localhost").subject("s").text_body("b");
    assert_eq!(envelope_of_message(&raw(no_rcpt)), Err(SmtpError::SendEmailMissingRecipientError));

    let no_from = MessageBuilder::new().to("bob@localhost").subject("s").text_body("b");
    assert_eq!(envelope_of_message(&raw(no_from)), Err(SmtpError::SendEmailMissingSenderError));
}

#[test]
fn feature_registry() {
    let b = BackendBuilder::new();
    assert_eq!(b.source(BackendFeature::AddFolder), BackendFeatureSource::Context);
    assert_eq!(b.check_feature(BackendFeature::AddFolder, true), Ok(()));
    assert_eq!(
        b.check_feature(BackendFeature::AddFolder, false),
        Err(BackendError::FeatureNotAvailable(BackendFeature::AddFolder))
    );
    let b = b.without_features();
    assert_eq!(
        b.check_feature(BackendFeature::ListFolders, true),
        Err(BackendError::FeatureNotAvailable(BackendFeature::ListFolders))
    );
    assert_eq!(b.source(BackendFeature::AddFolder), BackendFeatureSource::Disabled);
    assert_eq!(
        b.check_feature(BackendFeature::SendMessage, true),
        Err(BackendError::FeatureNotAvailable(BackendFeature::SendMessage))
    );
    let b = b.with_feature(BackendFeature::ListFolders, BackendFeatureSource::Backend);
    assert_eq!(b.check_feature(BackendFeature::ListFolders, false), Ok(()));
}

#[test]
fn keyring_outcomes() {
    let e = Entry::new("work-imap-passwd".into());
    assert_eq!(e.get_key(), "work-imap-passwd");
    assert_eq!(e.to_string(), "work-imap-passwd");
    assert_eq!(e.secret_outcome(Ok("pw".into())), Ok("pw".to_string()));
    assert_eq!(
        e.secret_outcome(Err(KeyringFailure::NoEntry)),
        Err(KeyringError::GetSecretError("work-imap-passwd".into()))
    );
    assert_eq!(e.find_outcome(Err(KeyringFailure::NoEntry)), Ok(None));
    assert_eq!(
        e.find_outcome(Err(KeyringFailure::Entry("no service".into()))),
        Err(KeyringError::GetEntryError("work-imap-passwd".into()))
    );
    assert_eq!(
        e.update_outcome(Err(KeyringFailure::Other("locked".into())), true),
        Err(KeyringError::DeleteSecretError("work-imap-passwd".into()))
    );
    assert_eq!(
        e.update_outcome(Err(KeyringFailure::Other("locked".into())), false),
        Err(KeyringError::SetSecretError("work-imap-passwd".into()))
    );
}

#[test]
fn authorization_code_grant_builder() {
    let g = AuthorizationCodeGrant::new();
    assert_eq!(g.redirect_host, "localhost");
    assert_eq!(g.redirect_port, 9999);
    let g = g
        .with_scope("mail".into())
        .with_redirect_host("127.0.0.1".into())
        .with_redirect_port(8080)
        .with_pkce();
    assert_eq!(g.scopes, vec!["mail".to_string()]);
    assert_eq!(g.redirect_host, "127.0.0.1");
    assert_eq!(g.redirect_port, 8080);
    assert!(g.pkce_verifier.as_ref().map(|v| v.len() >= 43).unwrap_or(false));
}

#[test]
fn smtp_connection_plan() {
    let b = SmtpContextBuilder::new(SmtpConfig {
        host: "localhost".into(),
        port: 587,
        login: "alice".into(),
        encryption: Some(SmtpEncryptionKind::StartTls),
    });
    let p = b.connection_plan();
    assert!(!p.implicit_tls && !p.allow_invalid_certs && p.tls);
}

#[test]
fn notmuch_queries() {
    let d = |year, month, day| QueryDate { year, month, day };
    let f = F::And(
        Box::new(F::From("alice".into())),
        Box::new(F::Not(Box::new(F::BeforeDate(d(2024, 3, 1))))),
    );
    assert_eq!(f.to_notmuch_search_query(), Some("(from:alice) and (not (date:..2024-02-29))".to_string()));
    let f = F::Or(Box::new(F::AfterDate(d(2023, 12, 31))), Box::new(F::Date(d(2024, 1, 5))));
    assert_eq!(f.to_notmuch_search_query(), Some("(date:2024-01-01..) or (date:2024-01-05)".to_string()));
    assert_eq!(F::Subject("x".into()).to_notmuch_search_query(), Some("subject:x".to_string()));
    assert_eq!(F::Date(d(2024, 2, 30)).to_notmuch_search_query(), None);
    assert_eq!(SearchEmailsQuery { filters: None }.to_notmuch_search_query(), Some(String::new()));
}

#[test]
fn oauth_send_is_retried_once() {
    assert_eq!(next_send_step(SmtpAuthKind::OAuth2, false, SendOutcome::AuthenticationFailed), SendStep::RefreshThenRetry);
    assert_eq!(next_send_step(SmtpAuthKind::OAuth2, true, SendOutcome::AuthenticationFailed), SendStep::Fail);
    assert_eq!(next_send_step(SmtpAuthKind::Passwd, false, SendOutcome::AuthenticationFailed), SendStep::Fail);
    assert_eq!(next_send_step(SmtpAuthKind::Passwd, false, SendOutcome::Sent), SendStep::Done);
    assert_eq!(next_send_step(SmtpAuthKind::OAuth2, false, SendOutcome::Failed), SendStep::Fail);
}

#[test]
fn maildir_delete_action() {
    assert_eq!(delete_action("Trash", "Trash"), DeleteAction::FlagDeleted);
    assert_eq!(delete_action("INBOX", "Trash"), DeleteAction::MoveToTrash);
}

#[test]
fn notmuch_list_queries() {
    let q = SearchEmailsQuery { filters: Some(F::From("alice".into())) };
    assert_eq!(notmuch_list_query("INBOX", true, &q), Some("folder:\"\" and from:alice".to_string()));
    let none = SearchEmailsQuery { filters: None };
    assert_eq!(notmuch_list_query("Work \"A\"", false, &none), Some("folder:\"Work \\\"A\\\"\"".to_string()));
}

#[test]
fn folder_identity_is_kind_or_name() {
    let inbox = Folder { name: "Boîte de réception".into(), kind: Some(FolderKind::Inbox), delim: "/".into() };
    let other = Folder { name: "INBOX".into(), kind: None, delim: ".".into() };
    let work = Folder { name: "Work".into(), kind: None, delim: "/".into() };
    assert_eq!(inbox.get_kind_or_name(), "INBOX");
    assert!(inbox.same_folder(&other));
    assert!(!inbox.same_folder(&work));
    assert_eq!(folder_names(&vec![inbox, work]), vec!["INBOX".to_string(), "Work".to_string()]);
}
