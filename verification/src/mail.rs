//! The message that carries a one-time code to the account's address.
//!
//! The wording is fixed here; handing the message to a mail relay is left to
//! the caller.

use crate::text::join;
use lettre::message::Mailbox;
use lettre::Message;
use vstd::prelude::*;

verus! {

/// `lettre::message::Mailbox`: an address with an optional name. Carried
/// through; nothing is known of what it holds.
#[verifier::external_type_specification]
#[verifier::external_body]
pub struct ExMailbox(lettre::message::Mailbox);

/// `lettre::Message`: a message ready for a transport. Carried through;
/// nothing is known of what it holds.
#[verifier::external_type_specification]
#[verifier::external_body]
pub struct ExMessage(lettre::Message);

/// What a one-time-code message says, and to and from whom.
#[derive(Clone, Debug)]
pub struct OtpEmail {
    pub from: String,
    pub reply_to: String,
    pub to: String,
    pub subject: String,
    pub body: String,
}

/// The parts of a one-time-code message, as mathematics sees them.
pub struct OtpEmailView {
    pub from: Seq<char>,
    pub reply_to: Seq<char>,
    pub to: Seq<char>,
    pub subject: Seq<char>,
    pub body: Seq<char>,
}

impl View for OtpEmail {
    type V = OtpEmailView;

    open spec fn view(&self) -> OtpEmailView {
        OtpEmailView {
            from: self.from@,
            reply_to: self.reply_to@,
            to: self.to@,
            subject: self.subject@,
            body: self.body@,
        }
    }
}

/// Why no message could be made.
#[derive(Clone, Copy, Debug, PartialEq, Eq, Structural)]
pub enum MailError {
    /// The sender's address is not a mailbox.
    InvalidSender,
    /// The recipient's address is not a mailbox.
    InvalidRecipient,
    /// The message builder refused the parts.
    Refused,
}

/// The text of the message for `code`.
pub open spec fn otp_body(code: Seq<char>) -> Seq<char> {
    "Your OTP code is: "@ + code
}

/// The parts of the message that carries `code` to the address `to`.
pub open spec fn otp_mail(to: Seq<char>, code: Seq<char>) -> OtpEmailView {
    OtpEmailView {
        from: "no-reply@example.com"@,
        reply_to: "no-reply@example.com"@,
        to,
        subject: "Verify your OTP"@,
        body: otp_body(code),
    }
}

/// Whether `Mailbox::from_str` reads `address` as a mailbox.
pub uninterp spec fn mailbox_parses(address: Seq<char>) -> bool;

/// `str::parse::<Mailbox>`, that is `Mailbox::from_str`.
///
/// Trusted: whether the address parses is a function of its characters.
#[verifier::external_body]
fn parse_mailbox(address: &str) -> (mailbox: Option<Mailbox>)
    ensures
        mailbox is Some == mailbox_parses(address@),
{
    address.parse::<Mailbox>().ok()
}

/// `Message::builder()` with `from`, `reply_to`, `to`, `subject` and a plain
/// `body`.
///
/// Nothing is claimed of the message: the builder stamps it with the current
/// date, and it may refuse the parts. The date stamp panics where the system
/// clock stands before 1970 or past the year 9999; no input decides that.
#[verifier::external_body]
fn build_message(from: Mailbox, reply_to: Mailbox, to: Mailbox, subject: &str, body: String) -> Option<
    Message,
> {
    Message::builder().from(from).reply_to(reply_to).to(to).subject(subject).body(body).ok()
}

/// The address that one-time codes are sent from, and replied to.
pub fn otp_sender() -> (address: &'static str)
    ensures
        address@ == "no-reply@example.com"@,
{
    "no-reply@example.com"
}

/// The subject of a one-time-code message.
pub fn otp_subject() -> (subject: &'static str)
    ensures
        subject@ == "Verify your OTP"@,
{
    "Verify your OTP"
}

/// What to send to `to_email` for `otp_code`.
pub fn otp_email(to_email: &str, otp_code: &str) -> (email: OtpEmail)
    ensures
        email@ == otp_mail(to_email@, otp_code@),
{
    OtpEmail {
        from: String::from_str(otp_sender()),
        reply_to: String::from_str(otp_sender()),
        to: String::from_str(to_email),
        subject: String::from_str(otp_subject()),
        body: join("Your OTP code is: ", otp_code),
    }
}

/// The reason why no message can be made, given which of the three addresses
/// are mailboxes: the sender's addresses are looked at first.
pub open spec fn fault_given(from_ok: bool, reply_to_ok: bool, to_ok: bool) -> Option<MailError> {
    if !from_ok || !reply_to_ok {
        Some(MailError::InvalidSender)
    } else if !to_ok {
        Some(MailError::InvalidRecipient)
    } else {
        None
    }
}

/// The reason why no message can be made of the parts, where their addresses
/// give one.
pub open spec fn address_fault(from: Seq<char>, reply_to: Seq<char>, to: Seq<char>) -> Option<
    MailError,
> {
    fault_given(mailbox_parses(from), mailbox_parses(reply_to), mailbox_parses(to))
}

/// Names the address at fault, given which of the three are mailboxes.
pub fn find_fault(from_ok: bool, reply_to_ok: bool, to_ok: bool) -> (fault: Option<MailError>)
    ensures
        fault == fault_given(from_ok, reply_to_ok, to_ok),
{
    if !from_ok || !reply_to_ok {
        Some(MailError::InvalidSender)
    } else if !to_ok {
        Some(MailError::InvalidRecipient)
    } else {
        None
    }
}

/// Turns the parts into a message for the relay.
///
/// An address that is no mailbox is reported as such. Where all three are
/// mailboxes the builder decides, and its refusal is reported as `Refused`.
pub fn compose(email: OtpEmail) -> (message: Result<Message, MailError>)
    ensures
        address_fault(email.from@, email.reply_to@, email.to@) matches Some(fault) ==> message
            == Err::<Message, MailError>(fault),
        address_fault(email.from@, email.reply_to@, email.to@) is None ==> message is Ok || message
            == Err::<Message, MailError>(MailError::Refused),
{
    let from = parse_mailbox(email.from.as_str());
    let reply_to = parse_mailbox(email.reply_to.as_str());
    let to = parse_mailbox(email.to.as_str());
    match find_fault(from.is_some(), reply_to.is_some(), to.is_some()) {
        Some(fault) => Err(fault),
        None => match build_message(
            from.unwrap(),
            reply_to.unwrap(),
            to.unwrap(),
            email.subject.as_str(),
            email.body,
        ) {
            Some(message) => Ok(message),
            None => Err(MailError::Refused),
        },
    }
}

/// The reason why no one-time-code message can be made for `to_email`, where
/// the addresses give one.
pub open spec fn otp_address_fault(to_email: Seq<char>) -> Option<MailError> {
    address_fault("no-reply@example.com"@, "no-reply@example.com"@, to_email)
}

/// Makes the message that carries `otp_code` to `to_email`.
pub fn send_otp_via_email(to_email: &str, otp_code: &str) -> (message: Result<Message, MailError>)
    ensures
        otp_address_fault(to_email@) matches Some(fault) ==> message == Err::<Message, MailError>(
            fault,
        ),
        otp_address_fault(to_email@) is None ==> message is Ok || message == Err::<
            Message,
            MailError,
        >(MailError::Refused),
{
    compose(otp_email(to_email, otp_code))
}

} // verus!
