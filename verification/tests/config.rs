//! Accounts, options and the configuration.

use maily::config::system_config_path;
use maily::config::Account;
use maily::config::Config;
use maily::config::EmailOpts;
use maily::config::SmtpMode;

fn account(host: &str, mode: SmtpMode) -> Account {
    Account {
        smtp_host: host.to_string(),
        smtp_mode: mode,
        from: format!("Sender <sender@{host}>"),
        user: "sender".to_string(),
        password: "hunter2".to_string(),
    }
}

#[test]
fn system_configuration_lives_under_etc() {
    assert_eq!(system_config_path(), "/etc/maily/config.json");
}

#[test]
fn options_default_to_no_encryption() {
    assert_eq!(EmailOpts::default().pgp_keybox, None);
    assert_eq!(EmailOpts::default().transfer_encoding, None);
}

#[test]
fn configuration_comes_apart_unchanged() {
    let accounts = vec![
        account("a.example", SmtpMode::Tls),
        account("b.example", SmtpMode::StartTls),
        account("c.example", SmtpMode::Unencrypted),
    ];
    let recipients = vec!["one@example.org".to_string(), "two@example.org".to_string()];
    let config = Config {
        accounts: accounts.clone(),
        recipients: recipients.clone(),
        pgp_keybox: Some("/etc/maily/keybox.gpg".to_string()),
        transfer_encoding: Some("base64".to_string()),
    };

    let (got_accounts, got_recipients, opts) = config.into_inputs();
    assert_eq!(got_accounts, accounts);
    assert_eq!(got_recipients, recipients);
    assert_eq!(opts.pgp_keybox, Some("/etc/maily/keybox.gpg".to_string()));
    assert_eq!(opts.transfer_encoding, Some("base64".to_string()));
}

#[test]
fn configuration_without_keybox_gives_plain_options() {
    let config =
        Config { accounts: vec![], recipients: vec![], pgp_keybox: None, transfer_encoding: None };
    let (accounts, recipients, opts) = config.into_inputs();
    assert!(accounts.is_empty());
    assert!(recipients.is_empty());
    assert_eq!(opts, EmailOpts::default());
}

#[test]
fn the_crate_offers_its_main_types_at_its_root() {
    let account: maily::Account = account("a.example", maily::SmtpMode::Tls);
    let config = maily::Config {
        accounts: vec![account.clone()],
        recipients: vec![],
        pgp_keybox: None,
        transfer_encoding: None,
    };
    let (accounts, _, opts): (Vec<maily::Account>, Vec<String>, maily::EmailOpts) =
        config.into_inputs();
    assert_eq!(accounts, vec![account]);
    assert_eq!(opts, maily::EmailOpts::default());
    assert_eq!(maily::system_config_path(), "/etc/maily/config.json");
}

#[test]
fn modes_are_told_apart() {
    assert_ne!(SmtpMode::Tls, SmtpMode::StartTls);
    assert_ne!(SmtpMode::Tls, SmtpMode::Unencrypted);
    assert_eq!(SmtpMode::StartTls, SmtpMode::StartTls);
}
