//! Accounts, recipients and the options of a delivery.

use vstd::prelude::*;

verus! {

/// How the connection to a mail server is secured.
#[derive(Clone, Copy, Debug, PartialEq, Eq, Structural)]
pub enum SmtpMode {
    /// No transport security (typically port 25).
    Unencrypted,
    /// Upgrade a plain connection with STARTTLS (often port 587).
    StartTls,
    /// TLS from the first byte (often port 465).
    Tls,
}

/// One outbound mail account.
#[derive(Clone, Debug, PartialEq, Eq)]
pub struct Account {
    /// The host name of the SMTP server.
    pub smtp_host: String,
    /// How the connection is secured.
    pub smtp_mode: SmtpMode,
    /// The "From" mailbox of messages sent through this account.
    pub from: String,
    /// The user to log in as.
    pub user: String,
    /// The password to log in with.
    pub password: String,
}

/// The mathematical value of an [`Account`].
pub struct AccountView {
    pub smtp_host: Seq<char>,
    pub smtp_mode: SmtpMode,
    pub from: Seq<char>,
    pub user: Seq<char>,
    pub password: Seq<char>,
}

impl View for Account {
    type V = AccountView;

    open spec fn view(&self) -> AccountView {
        AccountView {
            smtp_host: self.smtp_host@,
            smtp_mode: self.smtp_mode,
            from: self.from@,
            user: self.user@,
            password: self.password@,
        }
    }
}

/// Options of a delivery.
#[derive(Clone, Debug, PartialEq, Eq)]
pub struct EmailOpts {
    /// Encrypt the message to its recipients with the certificates found in
    /// the keybox file at this path.
    ///
    /// The keybox has to hold a certificate with a usable encryption key for
    /// every recipient.
    pub pgp_keybox: Option<String>,
    /// Encode the body for the transfer in this way (`7bit`, `8bit`,
    /// `quoted-printable`, `base64` or `binary`) and not in the way that
    /// suits the body best.
    pub transfer_encoding: Option<String>,
}

impl Default for EmailOpts {
    fn default() -> (opts: EmailOpts)
        ensures
            opts.pgp_keybox is None,
            opts.transfer_encoding is None,
    {
        EmailOpts { pgp_keybox: None, transfer_encoding: None }
    }
}

/// A configuration as it is loaded from a file.
#[derive(Debug, PartialEq, Eq)]
pub struct Config {
    /// The known accounts.
    pub accounts: Vec<Account>,
    /// The recipients of every message.
    pub recipients: Vec<String>,
    /// Encrypt every message with the keybox file at this path.
    pub pgp_keybox: Option<String>,
    /// Encode the body of every message for the transfer in this way.
    pub transfer_encoding: Option<String>,
}

impl Config {
    /// Takes the configuration apart into what a delivery is started with:
    /// the accounts, the recipients and the options.
    pub fn into_inputs(self) -> (inputs: (Vec<Account>, Vec<String>, EmailOpts))
        ensures
            inputs.0 == self.accounts,
            inputs.1 == self.recipients,
            inputs.2.pgp_keybox == self.pgp_keybox,
            inputs.2.transfer_encoding == self.transfer_encoding,
    {
        let Config { accounts, recipients, pgp_keybox, transfer_encoding } = self;
        let opts = EmailOpts { pgp_keybox, transfer_encoding };
        (accounts, recipients, opts)
    }
}

/// Where the system-wide configuration lives.
pub open spec fn spec_system_config_path() -> Seq<char> {
    "/etc/maily/config.json"@
}

/// The path of the system-wide configuration file.
pub fn system_config_path() -> (path: String)
    ensures
        path@ == spec_system_config_path(),
{
    "/etc/maily/config.json".to_owned()
}

} // verus!
