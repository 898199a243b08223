//! Putting a message together for one attempt through one account.
//!
//! Whatever is wrong with the addresses or the content type of a message is
//! found here, before anything goes over the wire, and counts as a failure
//! of the attempt like any other. The mailboxes and the content type are
//! parsed by `lettre`, which also takes the message as it is composed here
//! and sends it.

use std::str::FromStr;

use vstd::prelude::*;
use vstd::string::*;
use vstd::utf8::decode_utf8;
use vstd::utf8::valid_utf8;

use crate::config::Account;
use crate::config::AccountView;
use crate::config::EmailOpts;
use crate::delivery::NOTICE_SUBJECT;
use crate::pgp::encrypt;
use crate::pgp::is_armored;
use crate::pgp::keyring_opens;
use crate::pgp::EncryptError;
use crate::pgp::EncryptErrorView;
use crate::text::copy_texts;
use crate::text::texts;

verus! {

/// Whether `lettre` takes a text for a mailbox, that is an address with or
/// without a name in front of it (`Mailbox::from_str`).
pub uninterp spec fn mailbox_parses(text: Seq<char>) -> bool;

/// Whether `lettre` takes a text for a content type (`ContentType::parse`).
pub uninterp spec fn content_type_parses(text: Seq<char>) -> bool;

/// Whether a text names one of the ways in which a body is encoded for the
/// transfer.
pub open spec fn names_transfer_encoding(text: Seq<char>) -> bool {
    ||| text == "7bit"@
    ||| text == "quoted-printable"@
    ||| text == "base64"@
    ||| text == "8bit"@
    ||| text == "binary"@
}

/// Asks `lettre` whether a text names a content transfer encoding.
///
/// Calls `ContentTransferEncoding::from_str`, which takes these five names
/// and nothing else.
#[verifier::external_body]
fn is_transfer_encoding(text: &str) -> (valid: bool)
    ensures
        valid == names_transfer_encoding(text@),
{
    lettre::message::header::ContentTransferEncoding::from_str(text).is_ok()
}

/// Asks `lettre` whether a text is a mailbox.
///
/// Calls `Mailbox::from_str`, which parses the text and checks the address
/// in it. The contract names the answer.
#[verifier::external_body]
fn is_mailbox(text: &str) -> (valid: bool)
    ensures
        valid == mailbox_parses(text@),
{
    lettre::message::Mailbox::from_str(text).is_ok()
}

/// Asks `lettre` whether a text is a content type.
///
/// Calls `ContentType::parse`. The contract names the answer.
#[verifier::external_body]
fn is_content_type(text: &str) -> (valid: bool)
    ensures
        valid == content_type_parses(text@),
{
    lettre::message::header::ContentType::parse(text).is_ok()
}

/// Decodes bytes as UTF-8.
///
/// Calls `std::str::from_utf8`, which takes exactly the valid UTF-8 and
/// hands the same bytes back as text.
#[verifier::external_body]
fn utf8_text(bytes: &[u8]) -> (text: Option<String>)
    ensures
        text is Some <==> valid_utf8(bytes@),
        text is Some ==> text->Some_0@ == decode_utf8(bytes@),
{
    std::str::from_utf8(bytes).ok().map(|text| text.to_owned())
}

/// What is wrong with a message.
#[derive(Debug, PartialEq, Eq)]
pub enum SendError {
    /// The account's "From" is no mailbox.
    From(String),
    /// The content type is none.
    ContentType(String),
    /// The transfer encoding is none.
    TransferEncoding(String),
    /// This recipient is no mailbox.
    To(String),
    /// The message could not be encrypted.
    Encrypt(EncryptError),
    /// The encrypted message is no text, armored as it is.
    Armor,
}

/// The mathematical value of a [`SendError`].
pub enum SendErrorView {
    From(Seq<char>),
    ContentType(Seq<char>),
    TransferEncoding(Seq<char>),
    To(Seq<char>),
    Encrypt(EncryptErrorView),
    Armor,
}

impl View for SendError {
    type V = SendErrorView;

    open spec fn view(&self) -> SendErrorView {
        match self {
            SendError::From(text) => SendErrorView::From(text@),
            SendError::ContentType(text) => SendErrorView::ContentType(text@),
            SendError::TransferEncoding(text) => SendErrorView::TransferEncoding(text@),
            SendError::To(text) => SendErrorView::To(text@),
            SendError::Encrypt(error) => SendErrorView::Encrypt(error@),
            SendError::Armor => SendErrorView::Armor,
        }
    }
}

impl SendErrorView {
    /// The text of the failure.
    pub open spec fn message(self) -> Seq<char> {
        match self {
            SendErrorView::From(text) => "failed to parse 'From' specification: `"@ + text + "`"@,
            SendErrorView::ContentType(text) => "failed to parse content type specification `"@
                + text + "`"@,
            SendErrorView::TransferEncoding(text) =>
                "failed to parse transfer encoding specification `"@ + text + "`"@,
            SendErrorView::To(text) => "failed to parse 'To' specification: `"@ + text + "`"@,
            SendErrorView::Encrypt(error) => "failed to encrypt message: "@ + error.message(),
            SendErrorView::Armor => "PGP encrypted message is not a valid UTF-8 string"@,
        }
    }
}

impl SendError {
    /// The text of the failure.
    pub fn message(&self) -> (text: String)
        ensures
            text@ == self@.message(),
    {
        let mut text = String::new();
        match self {
            SendError::From(from) => {
                text.append("failed to parse 'From' specification: `");
                text.append(from.as_str());
                text.append("`");
            },
            SendError::ContentType(content_type) => {
                text.append("failed to parse content type specification `");
                text.append(content_type.as_str());
                text.append("`");
            },
            SendError::TransferEncoding(encoding) => {
                text.append("failed to parse transfer encoding specification `");
                text.append(encoding.as_str());
                text.append("`");
            },
            SendError::To(to) => {
                text.append("failed to parse 'To' specification: `");
                text.append(to.as_str());
                text.append("`");
            },
            SendError::Encrypt(error) => {
                text.append("failed to encrypt message: ");
                text.append(error.message().as_str());
            },
            SendError::Armor => {
                text.append("PGP encrypted message is not a valid UTF-8 string");
            },
        }
        text
    }
}

/// The body of a message.
#[derive(Debug, PartialEq, Eq)]
pub enum Body {
    /// Text. Mail servers get text with the line ends they ask for, so what
    /// is text goes out as text.
    Text(String),
    /// Bytes that are no text.
    Binary(Vec<u8>),
    /// These bytes, to be encrypted to the recipients with the certificates
    /// in the keybox file at this path.
    Sealed { keybox: String, content: Vec<u8> },
}

/// The mathematical value of a [`Body`].
pub enum BodyView {
    Text(Seq<char>),
    Binary(Seq<u8>),
    Sealed { keybox: Seq<char>, content: Seq<u8> },
}

impl View for Body {
    type V = BodyView;

    open spec fn view(&self) -> BodyView {
        match self {
            Body::Text(text) => BodyView::Text(text@),
            Body::Binary(bytes) => BodyView::Binary(bytes@),
            Body::Sealed { keybox, content } => BodyView::Sealed {
                keybox: keybox@,
                content: content@,
            },
        }
    }
}

/// A message as it goes out through one account.
#[derive(Debug, PartialEq, Eq)]
pub struct Composed {
    /// The sender.
    pub from: String,
    /// The recipients, all of them, in their order.
    pub to: Vec<String>,
    /// The subject.
    pub subject: String,
    /// The content type; plain text where there is none.
    pub content_type: Option<String>,
    /// How the body is encoded for the transfer; in the way that suits it
    /// best where this is `None`.
    pub transfer_encoding: Option<String>,
    /// The body.
    pub body: Body,
}

/// The mathematical value of a [`Composed`].
pub struct ComposedView {
    pub from: Seq<char>,
    pub to: Seq<Seq<char>>,
    pub subject: Seq<char>,
    pub content_type: Option<Seq<char>>,
    pub transfer_encoding: Option<Seq<char>>,
    pub body: BodyView,
}

impl View for Composed {
    type V = ComposedView;

    open spec fn view(&self) -> ComposedView {
        ComposedView {
            from: self.from@,
            to: texts(self.to@),
            subject: self.subject@,
            content_type: string_of(self.content_type),
            transfer_encoding: string_of(self.transfer_encoding),
            body: self.body@,
        }
    }
}

/// The body that `message` goes out as: sealed where a keybox is given,
/// else text where it is UTF-8, else bytes.
pub open spec fn body_of(message: Seq<u8>, keybox: Option<Seq<char>>) -> BodyView {
    match keybox {
        Some(keybox) => BodyView::Sealed { keybox, content: message },
        None => if valid_utf8(message) {
            BodyView::Text(decode_utf8(message))
        } else {
            BodyView::Binary(message)
        },
    }
}

/// The place of the first of `recipients` that is no mailbox, if there is
/// one at or behind `from`.
pub open spec fn first_unparsed_from(recipients: Seq<Seq<char>>, from: int) -> Option<int>
    decreases recipients.len() - from,
{
    if from < 0 || from >= recipients.len() {
        None
    } else if !mailbox_parses(recipients[from]) {
        Some(from)
    } else {
        first_unparsed_from(recipients, from + 1)
    }
}

/// The place of the first of `recipients` that is no mailbox.
pub open spec fn first_unparsed(recipients: Seq<Seq<char>>) -> Option<int> {
    first_unparsed_from(recipients, 0)
}

/// The message that goes out, or what is wrong with it, given what the
/// parser found: whether the sender is a mailbox, whether the content type,
/// where there is one, is one, and the place of the first recipient that is
/// no mailbox.
///
/// The sender is looked at first, then the content type, then the transfer
/// encoding, then the recipients in their order.
pub open spec fn composed(
    account: AccountView,
    subject: Seq<char>,
    message: Seq<u8>,
    content_type: Option<Seq<char>>,
    recipients: Seq<Seq<char>>,
    keybox: Option<Seq<char>>,
    transfer_encoding: Option<Seq<char>>,
    from_parses: bool,
    content_type_parses: bool,
    unparsed: Option<int>,
) -> Result<ComposedView, SendErrorView> {
    if !from_parses {
        Err(SendErrorView::From(account.from))
    } else if content_type is Some && !content_type_parses {
        Err(SendErrorView::ContentType(content_type->Some_0))
    } else if transfer_encoding is Some && !names_transfer_encoding(transfer_encoding->Some_0) {
        Err(SendErrorView::TransferEncoding(transfer_encoding->Some_0))
    } else if unparsed is Some && 0 <= unparsed->Some_0 < recipients.len() {
        Err(SendErrorView::To(recipients[unparsed->Some_0]))
    } else {
        Ok(
            ComposedView {
                from: account.from,
                to: recipients,
                subject,
                content_type,
                transfer_encoding,
                body: body_of(message, keybox),
            },
        )
    }
}

/// What `result` holds.
pub open spec fn composed_of(result: Result<Composed, SendError>) -> Result<
    ComposedView,
    SendErrorView,
> {
    match result {
        Ok(composed) => Ok(composed@),
        Err(error) => Err(error@),
    }
}

/// What `text` holds.
pub open spec fn text_of(text: Option<&str>) -> Option<Seq<char>> {
    match text {
        Some(text) => Some(text@),
        None => None,
    }
}

/// What `text` holds.
pub open spec fn string_of(text: Option<String>) -> Option<Seq<char>> {
    match text {
        Some(text) => Some(text@),
        None => None,
    }
}

/// What `place` holds.
pub open spec fn place_of(place: Option<usize>) -> Option<int> {
    match place {
        Some(place) => Some(place as int),
        None => None,
    }
}

/// The place of the first recipient that is no mailbox.
pub fn first_invalid_recipient(recipients: &Vec<String>) -> (place: Option<usize>)
    ensures
        place_of(place) == first_unparsed(texts(recipients@)),
{
    let ghost all = texts(recipients@);
    let mut i: usize = 0;
    while i < recipients.len()
        invariant
            i <= recipients.len(),
            all == texts(recipients@),
            first_unparsed(all) == first_unparsed_from(all, i as int),
        decreases recipients.len() - i,
    {
        if !is_mailbox(recipients[i].as_str()) {
            return Some(i);
        }
        i = i + 1;
    }
    None
}

/// Puts a message together, given what the parser found.
pub fn compose_checked(
    account: &Account,
    subject: &str,
    message: &[u8],
    content_type: Option<&str>,
    recipients: &Vec<String>,
    opts: &EmailOpts,
    from_parses: bool,
    content_type_parses: bool,
    unparsed: Option<usize>,
) -> (result: Result<Composed, SendError>)
    ensures
        composed_of(result) == composed(
            account@,
            subject@,
            message@,
            text_of(content_type),
            texts(recipients@),
            string_of(opts.pgp_keybox),
            string_of(opts.transfer_encoding),
            from_parses,
            content_type_parses,
            place_of(unparsed),
        ),
{
    if !from_parses {
        return Err(SendError::From(account.from.clone()));
    }
    let content_type = match content_type {
        Some(text) => {
            if !content_type_parses {
                return Err(SendError::ContentType(text.to_owned()));
            }
            Some(text.to_owned())
        },
        None => None,
    };
    let transfer_encoding = match &opts.transfer_encoding {
        Some(text) => {
            if !is_transfer_encoding(text.as_str()) {
                return Err(SendError::TransferEncoding(text.clone()));
            }
            Some(text.clone())
        },
        None => None,
    };
    match unparsed {
        Some(place) => {
            if place < recipients.len() {
                return Err(SendError::To(recipients[place].clone()));
            }
        },
        None => {},
    }
    let body = match &opts.pgp_keybox {
        Some(keybox) => Body::Sealed {
            keybox: keybox.clone(),
            content: vstd::slice::slice_to_vec(message),
        },
        None => match utf8_text(message) {
            Some(text) => Body::Text(text),
            None => Body::Binary(vstd::slice::slice_to_vec(message)),
        },
    };
    Ok(
        Composed {
            from: account.from.clone(),
            to: copy_texts(recipients),
            subject: subject.to_owned(),
            content_type,
            transfer_encoding,
            body,
        },
    )
}

/// Puts the message together that goes out through `account`.
///
/// The sender, the content type and the recipients are parsed, in this
/// order, and the first that cannot be parsed is the failure of the
/// attempt. Else the message holds what it was given: the account's sender,
/// every recipient, the subject, the content type, and the body as text
/// where it is text. Where the options name a keybox, the body is marked to
/// be sealed.
pub fn compose(
    account: &Account,
    subject: &str,
    message: &[u8],
    content_type: Option<&str>,
    recipients: &Vec<String>,
    opts: &EmailOpts,
) -> (result: Result<Composed, SendError>)
    ensures
        composed_of(result) == composed(
            account@,
            subject@,
            message@,
            text_of(content_type),
            texts(recipients@),
            string_of(opts.pgp_keybox),
            string_of(opts.transfer_encoding),
            mailbox_parses(account.from@),
            content_type is Some && content_type_parses(content_type->Some_0@),
            first_unparsed(texts(recipients@)),
        ),
{
    let from_parses = is_mailbox(account.from.as_str());
    let content_type_parses = match content_type {
        Some(text) => is_content_type(text),
        None => false,
    };
    let unparsed = first_invalid_recipient(recipients);
    compose_checked(
        account,
        subject,
        message,
        content_type,
        recipients,
        opts,
        from_parses,
        content_type_parses,
        unparsed,
    )
}

/// What becomes of the outcome of an encryption: its failure is the failure
/// of the attempt; what it produced goes on as text, which armored bytes
/// always are, and is refused otherwise.
pub open spec fn armored(encrypted: Result<Seq<u8>, EncryptErrorView>) -> Result<
    Seq<char>,
    SendErrorView,
> {
    match encrypted {
        Err(error) => Err(SendErrorView::Encrypt(error)),
        Ok(bytes) => if valid_utf8(bytes) {
            Ok(decode_utf8(bytes))
        } else {
            Err(SendErrorView::Armor)
        },
    }
}

/// What `encrypted` holds.
pub open spec fn encrypted_of(encrypted: Result<Vec<u8>, EncryptError>) -> Result<
    Seq<u8>,
    EncryptErrorView,
> {
    match encrypted {
        Ok(bytes) => Ok(bytes@),
        Err(error) => Err(error@),
    }
}

/// What `sealed` holds.
pub open spec fn sealed_of(sealed: Result<String, SendError>) -> Result<Seq<char>, SendErrorView> {
    match sealed {
        Ok(text) => Ok(text@),
        Err(error) => Err(error@),
    }
}

/// Takes the outcome of an encryption for the body of a message.
pub fn armored_text(encrypted: Result<Vec<u8>, EncryptError>) -> (sealed: Result<String, SendError>)
    ensures
        sealed_of(sealed) == armored(encrypted_of(encrypted)),
{
    match encrypted {
        Err(error) => Err(SendError::Encrypt(error)),
        Ok(bytes) => match utf8_text(bytes.as_slice()) {
            Some(text) => Ok(text),
            None => Err(SendError::Armor),
        },
    }
}

/// Encrypts `content` to `recipients` with the certificates in `keybox`,
/// the bytes of a keyring, and hands the armored message back as text.
///
/// Without a recipient nothing is encrypted, and a keybox that is no
/// keyring is the failure wherever there is a recipient. Whatever fails is
/// a failure of the encryption. What comes back is an armored message: it
/// is not empty, and its bytes begin with the line that such a message
/// begins with.
pub fn seal(content: &[u8], keybox: &[u8], recipients: &Vec<String>) -> (sealed: Result<
    String,
    SendError,
>)
    ensures
        recipients.len() == 0 <==> sealed_of(sealed) == Err::<Seq<char>, SendErrorView>(
            SendErrorView::Encrypt(EncryptErrorView::NoRecipients),
        ),
        recipients.len() > 0 && !keyring_opens(keybox@) <==> sealed is Err && sealed->Err_0
            is Encrypt && sealed->Err_0->Encrypt_0 is Keyring,
        sealed is Err ==> sealed->Err_0 is Encrypt,
        sealed is Ok ==> sealed->Ok_0@.len() > 0,
        sealed is Ok ==> is_armored(vstd::utf8::encode_utf8(sealed->Ok_0@)),
{
    let encrypted = encrypt(content, keybox, recipients);
    proof {
        if encrypted is Ok {
            // The bytes are text, so the text holds exactly these bytes.
            vstd::utf8::decode_utf8_encode_utf8(encrypted->Ok_0@);
        }
    }
    armored_text(encrypted)
}

/// Puts the notice together that reports earlier failures through
/// `account`: its subject is fixed, its body is the given text, it has no
/// content type of its own and it is never sealed, whatever the options of
/// the delivery say. Of the options it keeps the transfer encoding.
pub fn compose_notice(
    account: &Account,
    body: &str,
    recipients: &Vec<String>,
    opts: &EmailOpts,
) -> (result: Result<Composed, SendError>)
    ensures
        composed_of(result) == composed(
            account@,
            NOTICE_SUBJECT@,
            body.spec_bytes(),
            None,
            texts(recipients@),
            None,
            string_of(opts.transfer_encoding),
            mailbox_parses(account.from@),
            false,
            first_unparsed(texts(recipients@)),
        ),
        result is Ok ==> result->Ok_0@.body == BodyView::Text(body@),
{
    proof {
        vstd::utf8::encode_utf8_valid_utf8(body@);
        vstd::utf8::encode_utf8_decode_utf8(body@);
    }
    let plain = EmailOpts { pgp_keybox: None, transfer_encoding: opts.transfer_encoding.clone() };
    compose(account, NOTICE_SUBJECT, body.as_bytes(), None, recipients, &plain)
}

} // verus!
