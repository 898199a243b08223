//! Encrypting a message to its recipients.
//!
//! The certificates come from a keybox, the bytes of a keyring file. Each
//! recipient is looked up by its email address, and every certificate found
//! has to offer a key to encrypt to: one that the standard policy accepts,
//! that is alive and not revoked, that is meant for transport encryption
//! and whose algorithm is supported. OpenPGP itself is the work of
//! `sequoia-openpgp` and `sequoia-cert-store`; what is decided here is whom
//! the message is encrypted to and which failure is reported.

use std::io::Write;
use std::sync::Arc;

use sequoia_cert_store::Store;
use sequoia_cert_store::StoreUpdate;
use sequoia_openpgp::cert::amalgamation::ValidAmalgamation;
use sequoia_openpgp::parse::Parse;
use vstd::prelude::*;
use vstd::string::*;

use crate::text::texts;

verus! {

/// `anyhow::Error`, the error of the OpenPGP libraries. It is carried
/// through and turned into text.
#[verifier::external_type_specification]
#[verifier::external_body]
pub struct ExError(anyhow::Error);

/// `RawCertParser` of `sequoia-openpgp`, a parser over the bytes of a
/// keyring.
#[verifier::external_type_specification]
#[verifier::external_body]
pub struct ExRawCertParser<'a>(sequoia_openpgp::cert::raw::RawCertParser<'a>);

/// `RawCert` of `sequoia-openpgp`, a certificate as it stands in a keyring.
#[verifier::external_type_specification]
#[verifier::external_body]
pub struct ExRawCert<'a>(sequoia_openpgp::cert::raw::RawCert<'a>);

/// `Certs` of `sequoia-cert-store`, a keyring in memory.
#[verifier::external_type_specification]
#[verifier::external_body]
pub struct ExCerts<'a>(sequoia_cert_store::store::Certs<'a>);

/// `LazyCert` of `sequoia-cert-store`, a certificate of a keyring.
#[verifier::external_type_specification]
#[verifier::external_body]
pub struct ExLazyCert<'a>(sequoia_cert_store::LazyCert<'a>);

/// `Cert` of `sequoia-openpgp`, a parsed certificate.
#[verifier::external_type_specification]
#[verifier::external_body]
pub struct ExCert(sequoia_openpgp::Cert);

/// `StandardPolicy` of `sequoia-openpgp`, the rules by which keys and
/// signatures are accepted.
#[verifier::external_type_specification]
#[verifier::external_body]
pub struct ExStandardPolicy<'a>(sequoia_openpgp::policy::StandardPolicy<'a>);

/// `Recipient` of `sequoia-openpgp`, a key that a message is encrypted to.
#[verifier::external_type_specification]
#[verifier::external_body]
pub struct ExRecipient<'a>(sequoia_openpgp::serialize::stream::Recipient<'a>);

/// `Message` of `sequoia-openpgp`, a stack of writers that a message is
/// written through.
#[verifier::external_type_specification]
#[verifier::external_body]
pub struct ExMessage<'a>(sequoia_openpgp::serialize::stream::Message<'a>);

/// The text of an error of the OpenPGP libraries, with its causes.
///
/// Formats an `anyhow::Error` in its alternate form.
#[verifier::external_body]
fn error_text(error: &anyhow::Error) -> String {
    format!("{error:#}")
}

/// Whether `sequoia-openpgp` takes bytes for the start of a keyring
/// (`RawCertParser::from_bytes`).
pub uninterp spec fn keyring_opens(keybox: Seq<u8>) -> bool;

/// Starts to parse a keybox.
///
/// Calls `RawCertParser::from_bytes`. The contract names whether it takes
/// the bytes, and claims nothing of the parser.
#[verifier::external_body]
fn keybox_parser<'a>(keybox: &'a [u8]) -> (parser: Result<
    sequoia_openpgp::cert::raw::RawCertParser<'a>,
    anyhow::Error,
>)
    ensures
        parser is Ok <==> keyring_opens(keybox@),
{
    sequoia_openpgp::cert::raw::RawCertParser::from_bytes(keybox)
}

/// What a parser finds in a keybox, in its order: certificates, and errors
/// where it cannot read on.
///
/// Walks the parser to its end with `Iterator::collect`.
#[verifier::external_body]
fn parsed_certs<'a>(parser: sequoia_openpgp::cert::raw::RawCertParser<'a>) -> Vec<
    Result<sequoia_openpgp::cert::raw::RawCert<'a>, anyhow::Error>,
> {
    parser.collect()
}

/// A keyring without certificates.
///
/// Calls `Certs::empty`.
#[verifier::external_body]
fn empty_keyring<'a>() -> sequoia_cert_store::store::Certs<'a> {
    sequoia_cert_store::store::Certs::empty()
}

/// Adds a certificate to a keyring.
///
/// Calls `StoreUpdate::update` with a copy of the certificate. The call
/// changes what the keyring holds, and nothing is claimed of what it holds
/// afterwards.
#[verifier::external_body]
fn add_to_keyring<'a>(
    keyring: &mut sequoia_cert_store::store::Certs<'a>,
    cert: &sequoia_openpgp::cert::raw::RawCert<'a>,
) -> Result<(), anyhow::Error> {
    keyring.update(Arc::new(cert.clone().into()))
}

/// What a keyring holds, as far as lookups go: for every text that
/// `Store::select_userid` finds a certificate for, when it takes the text
/// for a whole email address and disregards the case of its letters, the
/// number of certificates that it finds.
pub uninterp spec fn keyring_matches(keyring: sequoia_cert_store::store::Certs<'_>) -> Map<
    Seq<char>,
    nat,
>;

/// The certificates of a keyring with a user ID whose email address is
/// `recipient`, whatever the case of its letters.
///
/// Calls `Store::select_userid`, which fails where it finds no certificate
/// and hands out each certificate that it finds once. The contract names
/// for which texts that is so, and how many certificates there are.
#[verifier::external_body]
fn select_by_email<'a>(keyring: &sequoia_cert_store::store::Certs<'a>, recipient: &str) -> (found:
    Result<Vec<Arc<sequoia_cert_store::LazyCert<'a>>>, anyhow::Error>)
    ensures
        found is Ok <==> keyring_matches(*keyring).contains_key(recipient@),
        found is Ok ==> found->Ok_0.len() == keyring_matches(*keyring)[recipient@],
        found is Ok ==> found->Ok_0.len() > 0,
{
    let mut params = sequoia_cert_store::store::UserIDQueryParams::new();
    params.set_ignore_case(true);
    params.set_email(true);
    keyring.select_userid(&params, recipient)
}

/// A certificate of a keyring, parsed.
///
/// Calls `LazyCert::to_cert` and copies the certificate.
#[verifier::external_body]
fn parsed_cert<'a>(cert: &Arc<sequoia_cert_store::LazyCert<'a>>) -> Result<
    sequoia_openpgp::Cert,
    anyhow::Error,
> {
    Ok(cert.to_cert()?.clone())
}

/// The policy by which keys are judged.
///
/// Calls `StandardPolicy::new`.
#[verifier::external_body]
fn standard_policy() -> sequoia_openpgp::policy::StandardPolicy<'static> {
    sequoia_openpgp::policy::StandardPolicy::new()
}

/// The keys of a certificate that a message can be encrypted to now: those
/// that the policy accepts, that are alive and not revoked, that are meant
/// for transport encryption and whose algorithm is supported.
///
/// Walks `Cert::keys` with these filters of `sequoia-openpgp`.
#[verifier::external_body]
fn usable_keys<'a>(
    cert: &'a sequoia_openpgp::Cert,
    policy: &'a sequoia_openpgp::policy::StandardPolicy<'static>,
) -> Vec<sequoia_openpgp::serialize::stream::Recipient<'a>> {
    let mode = sequoia_openpgp::types::KeyFlags::empty().set_transport_encryption();
    cert.keys().with_policy(policy, None).alive().revoked(false).key_flags(&mode).supported().map(
        |key| key.key().into(),
    ).collect()
}

/// For each key of a certificate that a message could be encrypted to were
/// it alive, whether the key has an expiration time.
///
/// Walks `Cert::keys` with the same filters but the one for keys that are
/// alive, and asks `key_expiration_time` of each key's binding signature.
#[verifier::external_body]
fn lapsed_keys(
    cert: &sequoia_openpgp::Cert,
    policy: &sequoia_openpgp::policy::StandardPolicy<'static>,
) -> Vec<bool> {
    let mode = sequoia_openpgp::types::KeyFlags::empty().set_transport_encryption();
    cert.keys().with_policy(policy, None).revoked(false).key_flags(&mode).supported().map(
        |key| key.binding_signature().key_expiration_time(key.key()).is_some(),
    ).collect()
}

/// The name by which a certificate is reported: its fingerprint.
///
/// Formats the certificate with its `Display`.
#[verifier::external_body]
fn certificate_name(cert: &sequoia_openpgp::Cert) -> String {
    cert.to_string()
}

/// A writer that puts an OpenPGP message into `buffer`.
///
/// Calls `Message::new`.
#[verifier::external_body]
fn message_sink<'a>(buffer: &'a mut Vec<u8>) -> sequoia_openpgp::serialize::stream::Message<'a> {
    sequoia_openpgp::serialize::stream::Message::new(buffer)
}

/// A writer that armors what is written to it as a message.
///
/// Builds an `Armorer` of the kind `Message` on top of `sink`.
#[verifier::external_body]
fn armoring_sink<'a>(sink: sequoia_openpgp::serialize::stream::Message<'a>) -> Result<
    sequoia_openpgp::serialize::stream::Message<'a>,
    anyhow::Error,
> {
    sequoia_openpgp::serialize::stream::Armorer::new(sink).kind(
        sequoia_openpgp::armor::Kind::Message,
    ).build()
}

/// A writer that encrypts what is written to it to the given keys.
///
/// Builds an `Encryptor2` for these recipients on top of `sink`, which
/// refuses to be built for nobody. The session key is random, and nothing
/// else is claimed.
#[verifier::external_body]
fn encrypting_sink<'a, 'b: 'a>(
    sink: sequoia_openpgp::serialize::stream::Message<'a>,
    recipients: Vec<sequoia_openpgp::serialize::stream::Recipient<'b>>,
) -> (built: Result<sequoia_openpgp::serialize::stream::Message<'a>, anyhow::Error>)
    ensures
        recipients.len() == 0 ==> built is Err,
{
    sequoia_openpgp::serialize::stream::Encryptor2::for_recipients(sink, recipients).build()
}

/// A writer that wraps what is written to it into a literal data packet.
///
/// Builds a `LiteralWriter` on top of `sink`.
#[verifier::external_body]
fn literal_sink<'a>(sink: sequoia_openpgp::serialize::stream::Message<'a>) -> Result<
    sequoia_openpgp::serialize::stream::Message<'a>,
    anyhow::Error,
> {
    sequoia_openpgp::serialize::stream::LiteralWriter::new(sink).build()
}

/// Writes all of `message` to `sink`.
///
/// Calls `Write::write_all`, which `Message` implements.
#[verifier::external_body]
fn write_message<'a>(
    sink: &mut sequoia_openpgp::serialize::stream::Message<'a>,
    message: &[u8],
) -> Result<(), anyhow::Error> {
    Ok(sink.write_all(message)?)
}

/// Ends the message: every writer of the stack writes what it still holds.
///
/// Calls `Message::finalize`.
#[verifier::external_body]
fn finalize_message<'a>(sink: sequoia_openpgp::serialize::stream::Message<'a>) -> Result<
    (),
    anyhow::Error,
> {
    sink.finalize()
}

/// Why a message could not be encrypted.
#[derive(Debug, PartialEq, Eq)]
pub enum EncryptError {
    /// There is no recipient to encrypt to.
    NoRecipients,
    /// The keybox is no keyring.
    Keyring(String),
    /// A certificate in the keybox cannot be parsed.
    Certificate(String),
    /// A certificate cannot be added to the keyring.
    Store(String),
    /// No certificate is found for this recipient.
    Lookup { recipient: String, cause: String },
    /// A key that would do has no expiration time and still is not alive.
    NoExpirationTime,
    /// Every key of this certificate that would do has expired.
    Expired(String),
    /// This certificate has no key that would do.
    NoSuitableKey(String),
    /// The armor around the message cannot be set up.
    Armorer(String),
    /// The encryption to the keys cannot be set up.
    Encryptor(String),
    /// The packet that takes the message cannot be set up.
    LiteralWriter(String),
    /// The message cannot be written.
    Write(String),
    /// The encrypted message cannot be brought to its end.
    Encrypt(String),
    /// What the writers left behind is no armored message.
    NotArmored,
}

/// The mathematical value of an [`EncryptError`].
pub enum EncryptErrorView {
    NoRecipients,
    Keyring(Seq<char>),
    Certificate(Seq<char>),
    Store(Seq<char>),
    Lookup { recipient: Seq<char>, cause: Seq<char> },
    NoExpirationTime,
    Expired(Seq<char>),
    NoSuitableKey(Seq<char>),
    Armorer(Seq<char>),
    Encryptor(Seq<char>),
    LiteralWriter(Seq<char>),
    Write(Seq<char>),
    Encrypt(Seq<char>),
    NotArmored,
}

impl View for EncryptError {
    type V = EncryptErrorView;

    open spec fn view(&self) -> EncryptErrorView {
        match self {
            EncryptError::NoRecipients => EncryptErrorView::NoRecipients,
            EncryptError::Keyring(cause) => EncryptErrorView::Keyring(cause@),
            EncryptError::Certificate(cause) => EncryptErrorView::Certificate(cause@),
            EncryptError::Store(cause) => EncryptErrorView::Store(cause@),
            EncryptError::Lookup { recipient, cause } => EncryptErrorView::Lookup {
                recipient: recipient@,
                cause: cause@,
            },
            EncryptError::NoExpirationTime => EncryptErrorView::NoExpirationTime,
            EncryptError::Expired(cert) => EncryptErrorView::Expired(cert@),
            EncryptError::NoSuitableKey(cert) => EncryptErrorView::NoSuitableKey(cert@),
            EncryptError::Armorer(cause) => EncryptErrorView::Armorer(cause@),
            EncryptError::Encryptor(cause) => EncryptErrorView::Encryptor(cause@),
            EncryptError::LiteralWriter(cause) => EncryptErrorView::LiteralWriter(cause@),
            EncryptError::Write(cause) => EncryptErrorView::Write(cause@),
            EncryptError::Encrypt(cause) => EncryptErrorView::Encrypt(cause@),
            EncryptError::NotArmored => EncryptErrorView::NotArmored,
        }
    }
}

impl EncryptErrorView {
    /// The text of the failure.
    pub open spec fn message(self) -> Seq<char> {
        match self {
            EncryptErrorView::NoRecipients => "no recipients given"@,
            EncryptErrorView::Keyring(cause) => "failed to parse keyring: "@ + cause,
            EncryptErrorView::Certificate(cause) => "failed to parse certificate: "@ + cause,
            EncryptErrorView::Store(cause) => "failed to add certificate to store: "@ + cause,
            EncryptErrorView::Lookup { recipient, cause } => "failed to find recipient `"@
                + recipient + "` in keyring: "@ + cause,
            EncryptErrorView::NoExpirationTime => "key does not have an expiration time"@,
            EncryptErrorView::Expired(cert) => "the last suitable encryption key of cert `"@
                + cert + "` expired"@,
            EncryptErrorView::NoSuitableKey(cert) => "certificate `"@ + cert
                + "` has no suitable encryption key"@,
            EncryptErrorView::Armorer(cause) => "failed to create ASCII armorer: "@ + cause,
            EncryptErrorView::Encryptor(cause) => "failed to create encryptor: "@ + cause,
            EncryptErrorView::LiteralWriter(cause) => "failed to create literal writer: "@
                + cause,
            EncryptErrorView::Write(cause) => "failed to write input to literal writer: "@
                + cause,
            EncryptErrorView::Encrypt(cause) => "failed to encrypt: "@ + cause,
            EncryptErrorView::NotArmored => "encrypted message is not ASCII armored"@,
        }
    }
}

impl EncryptError {
    /// The text of the failure.
    pub fn message(&self) -> (text: String)
        ensures
            text@ == self@.message(),
    {
        let mut text = String::new();
        match self {
            EncryptError::NoRecipients => {
                text.append("no recipients given");
            },
            EncryptError::Keyring(cause) => {
                text.append("failed to parse keyring: ");
                text.append(cause.as_str());
            },
            EncryptError::Certificate(cause) => {
                text.append("failed to parse certificate: ");
                text.append(cause.as_str());
            },
            EncryptError::Store(cause) => {
                text.append("failed to add certificate to store: ");
                text.append(cause.as_str());
            },
            EncryptError::Lookup { recipient, cause } => {
                text.append("failed to find recipient `");
                text.append(recipient.as_str());
                text.append("` in keyring: ");
                text.append(cause.as_str());
            },
            EncryptError::NoExpirationTime => {
                text.append("key does not have an expiration time");
            },
            EncryptError::Expired(cert) => {
                text.append("the last suitable encryption key of cert `");
                text.append(cert.as_str());
                text.append("` expired");
            },
            EncryptError::NoSuitableKey(cert) => {
                text.append("certificate `");
                text.append(cert.as_str());
                text.append("` has no suitable encryption key");
            },
            EncryptError::Armorer(cause) => {
                text.append("failed to create ASCII armorer: ");
                text.append(cause.as_str());
            },
            EncryptError::Encryptor(cause) => {
                text.append("failed to create encryptor: ");
                text.append(cause.as_str());
            },
            EncryptError::LiteralWriter(cause) => {
                text.append("failed to create literal writer: ");
                text.append(cause.as_str());
            },
            EncryptError::Write(cause) => {
                text.append("failed to write input to literal writer: ");
                text.append(cause.as_str());
            },
            EncryptError::Encrypt(cause) => {
                text.append("failed to encrypt: ");
                text.append(cause.as_str());
            },
            EncryptError::NotArmored => {
                text.append("encrypted message is not ASCII armored");
            },
        }
        text
    }
}

/// What is wrong with a certificate that offers no key to encrypt to now,
/// given for each key that would do were it alive whether it has an
/// expiration time: a key without one is reported as such; where every key
/// has one, the keys have expired; where there is no key, the certificate
/// has none that would do.
pub open spec fn unusable(cert: Seq<char>, lapsed: Seq<bool>) -> EncryptErrorView {
    if exists|i: int| 0 <= i < lapsed.len() && !lapsed[i] {
        EncryptErrorView::NoExpirationTime
    } else if lapsed.len() > 0 {
        EncryptErrorView::Expired(cert)
    } else {
        EncryptErrorView::NoSuitableKey(cert)
    }
}

/// The verdict on a certificate with `usable` keys to encrypt to.
pub open spec fn verdict(cert: Seq<char>, usable: nat, lapsed: Seq<bool>) -> Option<
    EncryptErrorView,
> {
    if usable > 0 {
        None
    } else {
        Some(unusable(cert, lapsed))
    }
}

/// What `result` holds.
pub open spec fn verdict_of(result: Result<(), EncryptError>) -> Option<EncryptErrorView> {
    match result {
        Ok(_) => None,
        Err(error) => Some(error@),
    }
}

/// Judges a certificate by the number of its keys that a message can be
/// encrypted to now and, for each key that would do were it alive, whether
/// it has an expiration time.
pub fn check_certificate(cert: &str, usable: usize, lapsed: &Vec<bool>) -> (result: Result<
    (),
    EncryptError,
>)
    ensures
        verdict_of(result) == verdict(cert@, usable as nat, lapsed@),
{
    if usable > 0 {
        return Ok(());
    }
    let mut i: usize = 0;
    while i < lapsed.len()
        invariant
            i <= lapsed.len(),
            usable == 0,
            forall|k: int| 0 <= k < i ==> lapsed@[k],
        decreases lapsed.len() - i,
    {
        if !lapsed[i] {
            return Err(EncryptError::NoExpirationTime);
        }
        i = i + 1;
    }
    if lapsed.len() > 0 {
        Err(EncryptError::Expired(cert.to_owned()))
    } else {
        Err(EncryptError::NoSuitableKey(cert.to_owned()))
    }
}

/// What is known of the keys of one certificate.
#[derive(Debug, PartialEq, Eq)]
pub struct KeyReport {
    /// The name by which the certificate is reported.
    pub cert: String,
    /// The number of its keys that a message can be encrypted to now.
    pub usable: usize,
    /// For each key that would do were it alive, whether it has an
    /// expiration time. Looked at only where no key is usable.
    pub lapsed: Vec<bool>,
}

/// The mathematical value of a [`KeyReport`].
pub struct KeyReportView {
    pub cert: Seq<char>,
    pub usable: nat,
    pub lapsed: Seq<bool>,
}

impl View for KeyReport {
    type V = KeyReportView;

    open spec fn view(&self) -> KeyReportView {
        KeyReportView { cert: self.cert@, usable: self.usable as nat, lapsed: self.lapsed@ }
    }
}

/// What a list of reports holds.
pub open spec fn reports_of(reports: Seq<KeyReport>) -> Seq<KeyReportView> {
    Seq::new(reports.len(), |i: int| reports[i]@)
}

/// The verdict on the first certificate, at or behind `from`, that offers
/// no key to encrypt to.
pub open spec fn first_verdict_from(reports: Seq<KeyReportView>, from: int) -> Option<
    EncryptErrorView,
>
    decreases reports.len() - from,
{
    if from < 0 || from >= reports.len() {
        None
    } else if reports[from].usable == 0 {
        Some(unusable(reports[from].cert, reports[from].lapsed))
    } else {
        first_verdict_from(reports, from + 1)
    }
}

/// The verdict on certificates that a message is to be encrypted to: every
/// one of them has to offer a key, and the first that offers none is what is
/// wrong.
pub open spec fn first_verdict(reports: Seq<KeyReportView>) -> Option<EncryptErrorView> {
    first_verdict_from(reports, 0)
}

/// Judges the certificates that a message is to be encrypted to, in their
/// order.
pub fn check_certificates(reports: &Vec<KeyReport>) -> (result: Result<(), EncryptError>)
    ensures
        verdict_of(result) == first_verdict(reports_of(reports@)),
{
    let ghost all = reports_of(reports@);
    let mut i: usize = 0;
    while i < reports.len()
        invariant
            i <= reports.len(),
            all == reports_of(reports@),
            first_verdict(all) == first_verdict_from(all, i as int),
        decreases reports.len() - i,
    {
        let report = &reports[i];
        match check_certificate(report.cert.as_str(), report.usable, &report.lapsed) {
            Ok(_) => {},
            Err(error) => {
                return Err(error);
            },
        }
        i = i + 1;
    }
    Ok(())
}

/// Reads the certificates of a keybox into a keyring, one after the other.
/// The first that cannot be read or cannot be added is the failure.
fn parse_keybox<'a>(keybox: &'a [u8]) -> (result: Result<
    sequoia_cert_store::store::Certs<'a>,
    EncryptError,
>)
    ensures
        result is Err && result->Err_0 is Keyring <==> !keyring_opens(keybox@),
        result is Err ==> result->Err_0 is Keyring || result->Err_0 is Certificate
            || result->Err_0 is Store,
{
    let parser = match keybox_parser(keybox) {
        Ok(parser) => parser,
        Err(error) => {
            return Err(EncryptError::Keyring(error_text(&error)));
        },
    };
    let found = parsed_certs(parser);
    let mut keyring = empty_keyring();
    let mut i: usize = 0;
    while i < found.len()
        invariant
            i <= found.len(),
            keyring_opens(keybox@),
        decreases found.len() - i,
    {
        match &found[i] {
            Ok(cert) => match add_to_keyring(&mut keyring, cert) {
                Ok(_) => {},
                Err(error) => {
                    return Err(EncryptError::Store(error_text(&error)));
                },
            },
            Err(error) => {
                return Err(EncryptError::Certificate(error_text(error)));
            },
        }
        i = i + 1;
    }
    Ok(keyring)
}

/// The place of the first of `recipients`, at or behind `from`, for whom a
/// keyring that holds `matches` has no certificate.
pub open spec fn first_missing_from(
    matches: Map<Seq<char>, nat>,
    recipients: Seq<Seq<char>>,
    from: int,
) -> Option<int>
    decreases recipients.len() - from,
{
    if from < 0 || from >= recipients.len() {
        None
    } else if !matches.contains_key(recipients[from]) {
        Some(from)
    } else {
        first_missing_from(matches, recipients, from + 1)
    }
}

/// The place of the first of `recipients` for whom a keyring that holds
/// `matches` has no certificate.
pub open spec fn first_missing(matches: Map<Seq<char>, nat>, recipients: Seq<Seq<char>>) -> Option<
    int,
> {
    first_missing_from(matches, recipients, 0)
}

/// The number of certificates that a keyring that holds `matches` has for
/// the first `count` of `recipients`, one after the other: a certificate
/// counts once for each recipient that it is found for.
pub open spec fn found_total(
    matches: Map<Seq<char>, nat>,
    recipients: Seq<Seq<char>>,
    count: int,
) -> nat
    decreases count,
{
    if count <= 0 {
        0
    } else {
        found_total(matches, recipients, count - 1) + matches[recipients[count - 1]]
    }
}

/// Looks every recipient up in the keyring, in their order, and hands back
/// the certificates found, those of the first recipient first.
///
/// Without a recipient there is nothing to look up and nothing is found.
/// Else this succeeds only where the keyring holds a certificate for every
/// recipient, and then there are as many certificates as the keyring holds
/// for the recipients, one after the other. Where it holds none for some
/// recipient, the lookup of the first such recipient is the failure, unless
/// a certificate of a recipient before that one cannot be parsed.
fn find_recipient_certs<'a>(
    keyring: &sequoia_cert_store::store::Certs<'a>,
    recipients: &Vec<String>,
) -> (result: Result<Vec<sequoia_openpgp::Cert>, EncryptError>)
    ensures
        recipients.len() == 0 ==> result is Ok,
        result is Ok ==> first_missing(keyring_matches(*keyring), texts(recipients@)) is None,
        result is Ok ==> result->Ok_0.len() == found_total(
            keyring_matches(*keyring),
            texts(recipients@),
            recipients.len() as int,
        ),
        result is Err ==> result->Err_0 is Lookup || result->Err_0 is Certificate,
        result is Err && result->Err_0 is Lookup ==> {
            let missing = first_missing(keyring_matches(*keyring), texts(recipients@));
            &&& missing is Some
            &&& 0 <= missing->Some_0 < recipients.len()
            &&& recipients[missing->Some_0]@ == result->Err_0->Lookup_recipient@
        },
{
    let ghost matches = keyring_matches(*keyring);
    let ghost all = texts(recipients@);
    let mut certs: Vec<sequoia_openpgp::Cert> = Vec::new();
    let mut i: usize = 0;
    while i < recipients.len()
        invariant
            i <= recipients.len(),
            matches == keyring_matches(*keyring),
            all == texts(recipients@),
            first_missing(matches, all) == first_missing_from(matches, all, i as int),
            certs.len() == found_total(matches, all, i as int),
        decreases recipients.len() - i,
    {
        let found = match select_by_email(keyring, recipients[i].as_str()) {
            Ok(found) => found,
            Err(error) => {
                return Err(
                    EncryptError::Lookup {
                        recipient: recipients[i].clone(),
                        cause: error_text(&error),
                    },
                );
            },
        };
        let mut k: usize = 0;
        while k < found.len()
            invariant
                i < recipients.len(),
                k <= found.len(),
                certs.len() == found_total(matches, all, i as int) + k,
            decreases found.len() - k,
        {
            match parsed_cert(&found[k]) {
                Ok(cert) => {
                    certs.push(cert);
                },
                Err(error) => {
                    return Err(EncryptError::Certificate(error_text(&error)));
                },
            }
            k = k + 1;
        }
        i = i + 1;
    }
    Ok(certs)
}

/// The line that an armored message begins with.
pub open spec fn armor_header() -> Seq<u8> {
    "-----BEGIN PGP MESSAGE-----".spec_bytes()
}

/// Whether bytes are an armored message as far as can be seen from outside:
/// there are some, they begin with the line that such a message begins
/// with, and every one of them is ASCII.
pub open spec fn is_armored(bytes: Seq<u8>) -> bool {
    &&& bytes.len() > 0
    &&& armor_header().len() <= bytes.len()
    &&& bytes.take(armor_header().len() as int) == armor_header()
    &&& forall|i: int| 0 <= i < bytes.len() ==> #[trigger] bytes[i] < 0x80
}

/// What is armored is text.
pub proof fn lemma_armored_is_text(bytes: Seq<u8>)
    requires
        is_armored(bytes),
    ensures
        vstd::utf8::valid_utf8(bytes),
{
    // Nothing is text, and every ASCII byte behind text makes longer text.
    assert(bytes.subrange(0, 0) =~= Seq::<u8>::empty());
    vstd::utf8::partial_valid_utf8_extend_ascii_block(bytes, 0, bytes.len() as int);
    assert(bytes.subrange(0, bytes.len() as int) =~= bytes);
}

/// Tests whether bytes are an armored message.
pub fn is_armored_message(bytes: &[u8]) -> (armored: bool)
    ensures
        armored == is_armored(bytes@),
{
    let header = "-----BEGIN PGP MESSAGE-----".as_bytes();
    if bytes.len() == 0 || bytes.len() < header.len() {
        return false;
    }
    let mut i: usize = 0;
    while i < header.len()
        invariant
            i <= header.len() <= bytes.len(),
            header@ == armor_header(),
            forall|k: int| 0 <= k < i ==> bytes@[k] == header@[k],
        decreases header.len() - i,
    {
        if bytes[i] != header[i] {
            assert(bytes@.take(header.len() as int)[i as int] != header@[i as int]);
            return false;
        }
        i = i + 1;
    }
    assert(bytes@.take(header.len() as int) =~= header@);
    let mut k: usize = 0;
    while k < bytes.len()
        invariant
            k <= bytes.len(),
            bytes.len() > 0,
            header@ == armor_header(),
            header.len() <= bytes.len(),
            bytes@.take(header.len() as int) == header@,
            forall|j: int| 0 <= j < k ==> bytes@[j] < 0x80,
        decreases bytes.len() - k,
    {
        if bytes[k] >= 0x80 {
            return false;
        }
        k = k + 1;
    }
    true
}

/// Whether there is anybody to encrypt to.
pub fn check_recipients(recipients: &Vec<String>) -> (result: Result<(), EncryptError>)
    ensures
        verdict_of(result) == if recipients.len() == 0 {
            Some(EncryptErrorView::NoRecipients)
        } else {
            None
        },
{
    if recipients.len() == 0 {
        Err(EncryptError::NoRecipients)
    } else {
        Ok(())
    }
}

/// Encrypts `message` to `recipients` with the certificates in `keybox`,
/// the bytes of a keyring, and armors the result.
///
/// Without a recipient nothing is encrypted, and the keybox is not looked
/// at. Else the keybox has to be a keyring and to hold a certificate for
/// every recipient. Every certificate that is found for a recipient has to
/// offer a key to encrypt to; the first that offers none is the failure, as
/// [`encrypt_to`] reports it. The message is encrypted to every usable key
/// of every certificate, and what comes back is an armored message.
pub fn encrypt(message: &[u8], keybox: &[u8], recipients: &Vec<String>) -> (result: Result<
    Vec<u8>,
    EncryptError,
>)
    ensures
        recipients.len() == 0 <==> result is Err && result->Err_0 is NoRecipients,
        recipients.len() > 0 && !keyring_opens(keybox@) <==> result is Err && result->Err_0
            is Keyring,
        result is Err && result->Err_0 is Lookup ==> exists|i: int|
            0 <= i < recipients.len() && (#[trigger] recipients[i])@
                == result->Err_0->Lookup_recipient@,
        result is Ok ==> is_armored(result->Ok_0@),
        result is Ok ==> vstd::utf8::valid_utf8(result->Ok_0@),
{
    match check_recipients(recipients) {
        Ok(_) => {},
        Err(error) => {
            return Err(error);
        },
    }
    let keyring = match parse_keybox(keybox) {
        Ok(keyring) => keyring,
        Err(error) => {
            return Err(error);
        },
    };
    let certs = match find_recipient_certs(&keyring, recipients) {
        Ok(certs) => certs,
        Err(error) => {
            return Err(error);
        },
    };
    let policy = standard_policy();
    let mut keys: Vec<sequoia_openpgp::serialize::stream::Recipient<'_>> = Vec::new();
    let mut reports: Vec<KeyReport> = Vec::new();
    let mut i: usize = 0;
    while i < certs.len()
        invariant
            i <= certs.len(),
        decreases certs.len() - i,
    {
        let mut usable = usable_keys(&certs[i], &policy);
        let lapsed = if usable.len() == 0 {
            lapsed_keys(&certs[i], &policy)
        } else {
            Vec::new()
        };
        reports.push(KeyReport { cert: certificate_name(&certs[i]), usable: usable.len(), lapsed });
        keys.append(&mut usable);
        i = i + 1;
    }
    proof {
        lemma_verdict_names_a_certificate(reports_of(reports@), 0);
    }
    encrypt_to(message, &reports, keys)
}

/// Whether a failure is one of the writers that a message goes through.
pub open spec fn is_writer_failure(error: EncryptErrorView) -> bool {
    ||| error is Armorer
    ||| error is Encryptor
    ||| error is LiteralWriter
    ||| error is Write
    ||| error is Encrypt
    ||| error is NotArmored
}

/// Encrypts `message` to `keys`, the usable keys of the certificates that
/// `reports` tell of, and armors the result.
///
/// Every certificate has to offer a key: where one offers none, nothing is
/// encrypted, and the verdict on the first such certificate is the failure.
/// Without any key there is nobody to encrypt to. What comes back
/// otherwise is up to the writers: an armored message, or the failure of
/// the writer that gave up.
pub fn encrypt_to<'a>(
    message: &[u8],
    reports: &Vec<KeyReport>,
    keys: Vec<sequoia_openpgp::serialize::stream::Recipient<'a>>,
) -> (result: Result<Vec<u8>, EncryptError>)
    ensures
        first_verdict(reports_of(reports@)) is Some ==> result is Err && Some(result->Err_0@)
            == first_verdict(reports_of(reports@)),
        first_verdict(reports_of(reports@)) is None && keys.len() == 0 ==> result is Err,
        first_verdict(reports_of(reports@)) is None && result is Err ==> is_writer_failure(
            result->Err_0@,
        ),
        result is Ok ==> is_armored(result->Ok_0@),
        result is Ok ==> vstd::utf8::valid_utf8(result->Ok_0@),
{
    match check_certificates(reports) {
        Ok(_) => {},
        Err(error) => {
            return Err(error);
        },
    }
    write_encrypted(message, keys)
}

/// Encrypts `message` to `keys` and armors the result.
///
/// Without a key there is nobody to encrypt to, and the encryption fails
/// before anything of the message is written. Whether it succeeds
/// otherwise is up to the writers, and the failure says which of them
/// gave up. What the writers leave behind is handed on only where it is an
/// armored message.
fn write_encrypted<'a>(
    message: &[u8],
    keys: Vec<sequoia_openpgp::serialize::stream::Recipient<'a>>,
) -> (result: Result<Vec<u8>, EncryptError>)
    ensures
        keys.len() == 0 ==> result is Err && (result->Err_0 is Armorer || result->Err_0
            is Encryptor),
        result is Err ==> is_writer_failure(result->Err_0@),
        result is Ok ==> is_armored(result->Ok_0@),
        result is Ok ==> vstd::utf8::valid_utf8(result->Ok_0@),
{
    let mut buffer: Vec<u8> = Vec::new();
    let sink = message_sink(&mut buffer);
    let sink = match armoring_sink(sink) {
        Ok(sink) => sink,
        Err(error) => {
            return Err(EncryptError::Armorer(error_text(&error)));
        },
    };
    let sink = match encrypting_sink(sink, keys) {
        Ok(sink) => sink,
        Err(error) => {
            return Err(EncryptError::Encryptor(error_text(&error)));
        },
    };
    let mut sink = match literal_sink(sink) {
        Ok(sink) => sink,
        Err(error) => {
            return Err(EncryptError::LiteralWriter(error_text(&error)));
        },
    };
    match write_message(&mut sink, message) {
        Ok(_) => {},
        Err(error) => {
            return Err(EncryptError::Write(error_text(&error)));
        },
    }
    match finalize_message(sink) {
        Ok(_) => {},
        Err(error) => {
            return Err(EncryptError::Encrypt(error_text(&error)));
        },
    }
    if !is_armored_message(buffer.as_slice()) {
        return Err(EncryptError::NotArmored);
    }
    proof {
        lemma_armored_is_text(buffer@);
    }
    Ok(buffer)
}

/// A verdict is about the keys of a certificate, never about anything
/// else.
proof fn lemma_verdict_names_a_certificate(reports: Seq<KeyReportView>, from: int)
    ensures
        first_verdict_from(reports, from) is Some ==> {
            let verdict = first_verdict_from(reports, from)->Some_0;
            verdict is NoExpirationTime || verdict is Expired || verdict is NoSuitableKey
        },
    decreases reports.len() - from,
{
    if 0 <= from < reports.len() && reports[from].usable != 0 {
        lemma_verdict_names_a_certificate(reports, from + 1);
    }
}

} // verus!
