//! Mail settings: who sends, who receives, and the SMTP relay host and
//! login; and the parts of each mail sent with them.
use vstd::prelude::*;
use lettre::address::AddressError;
use lettre::message::Mailbox;
use lettre::transport::smtp::Error as SmtpError;
use lettre::transport::smtp::AsyncSmtpTransportBuilder;
use lettre::{AsyncSmtpTransport, Tokio1Executor};

verus! {

#[verifier::external_type_specification]
#[verifier::external_body]
pub struct ExMailbox(Mailbox);

#[verifier::external_type_specification]
#[verifier::external_body]
pub struct ExAddressError(AddressError);

#[verifier::external_type_specification]
#[verifier::external_body]
pub struct ExAsyncSmtpTransportBuilder(AsyncSmtpTransportBuilder);

#[verifier::external_type_specification]
#[verifier::external_body]
pub struct ExSmtpError(SmtpError);

/// What lettre's `Mailbox::from_str` returns for a given text.  Parsing is a
/// function of the text alone.
pub uninterp spec fn mailbox_parse(text: Seq<char>) -> Result<Mailbox, AddressError>;

/// Parses an RFC 5322 mailbox (`Name <user@host>` or `user@host`) with
/// lettre's `<Mailbox as FromStr>::from_str`.  Trusted: the result is the
/// named parse of the text (`mailbox_parse`); which texts lettre accepts is
/// left to lettre and not stated here.
#[verifier::external_body]
fn parse_mailbox(text: &str) -> (res: Result<Mailbox, AddressError>)
    ensures
        res == mailbox_parse(text@),
{
    text.parse::<Mailbox>()
}

/// Makes SMTP transport settings for the relay `host` (implicit TLS on the
/// submissions port) with lettre's `AsyncSmtpTransport::relay`.  Trusted,
/// and nothing is stated of the result: it makes the TLS parameters for
/// `host` with the process's TLS crypto provider, and whether that succeeds
/// is left to lettre.
#[verifier::external_body]
fn smtp_relay(host: &str) -> (res: Result<AsyncSmtpTransportBuilder, SmtpError>) {
    AsyncSmtpTransport::<Tokio1Executor>::relay(host)
}

/// Why mail settings were refused.
#[derive(Debug)]
pub enum MailError {
    /// lettre could not make SMTP transport settings for the relay host.
    Relay(SmtpError),
    /// The sender mailbox does not parse.
    InvalidFrom(AddressError),
    /// The recipient mailbox does not parse.
    InvalidTo(AddressError),
}

/// The content type of every mail the bot sends.
pub open spec fn html_content_type() -> Seq<char> {
    "text/html; charset=utf-8"@
}

/// The parts of one mail: sender, recipient, subject, content type, body.
pub struct Mail<'a> {
    pub from: &'a Mailbox,
    pub to: &'a Mailbox,
    pub subject: String,
    pub content_type: String,
    pub body: String,
}

/// Everything needed to send a mail: both mailboxes, already parsed, and
/// the SMTP relay host and login, which lettre accepted for a relay
/// transport.  The program builds its transport from `smtp_host`,
/// `username` and `password`.
pub struct Mailer {
    from: Mailbox,
    to: Mailbox,
    smtp_host: String,
    username: String,
    password: String,
}

impl Mailer {
    pub closed spec fn spec_from(&self) -> Mailbox {
        self.from
    }

    pub closed spec fn spec_to(&self) -> Mailbox {
        self.to
    }

    pub closed spec fn spec_smtp_host(&self) -> Seq<char> {
        self.smtp_host@
    }

    pub closed spec fn spec_username(&self) -> Seq<char> {
        self.username@
    }

    pub closed spec fn spec_password(&self) -> Seq<char> {
        self.password@
    }

    /// Builds mail settings.  lettre is first asked for relay transport
    /// settings for `smtp_host`; then the sender is parsed, then the
    /// recipient; the first failure is reported.  When both mailboxes parse,
    /// only the relay settings can fail.
    pub fn new(from: &str, to: &str, smtp_host: String, username: String, password: String) -> (res:
        Result<Mailer, MailError>)
        ensures
            match res {
                Ok(m) => {
                    &&& mailbox_parse(from@) == Ok::<Mailbox, AddressError>(m.spec_from())
                    &&& mailbox_parse(to@) == Ok::<Mailbox, AddressError>(m.spec_to())
                    &&& m.spec_smtp_host() == smtp_host@
                    &&& m.spec_username() == username@
                    &&& m.spec_password() == password@
                },
                Err(MailError::Relay(_)) => true,
                Err(MailError::InvalidFrom(e)) => mailbox_parse(from@) == Err::<Mailbox, AddressError>(
                    e,
                ),
                Err(MailError::InvalidTo(e)) => {
                    &&& mailbox_parse(from@) is Ok
                    &&& mailbox_parse(to@) == Err::<Mailbox, AddressError>(e)
                },
            },
            mailbox_parse(from@) is Ok && mailbox_parse(to@) is Ok ==> res is Ok || res matches Err(
                MailError::Relay(_),
            ),
    {
        if let Err(e) = smtp_relay(smtp_host.as_str()) {
            return Err(MailError::Relay(e));
        }
        let from = match parse_mailbox(from) {
            Ok(m) => m,
            Err(e) => return Err(MailError::InvalidFrom(e)),
        };
        let to = match parse_mailbox(to) {
            Ok(m) => m,
            Err(e) => return Err(MailError::InvalidTo(e)),
        };
        Ok(Mailer { from, to, smtp_host, username, password })
    }

    /// The HTML mail with `subject` and `body`, from the sender to the
    /// recipient of these settings.
    pub fn message(&self, subject: String, body: String) -> (res: Mail<'_>)
        ensures
            *res.from == self.spec_from(),
            *res.to == self.spec_to(),
            res.subject@ == subject@,
            res.content_type@ == html_content_type(),
            res.body@ == body@,
    {
        let content_type = "text/html; charset=utf-8".to_string();
        proof {
            vstd::string::to_string_from_display_ensures_for_str(
                "text/html; charset=utf-8",
                content_type,
            );
        }
        Mail { from: &self.from, to: &self.to, subject, content_type, body }
    }

    /// The sender.
    pub fn from(&self) -> (res: &Mailbox)
        ensures
            *res == self.spec_from(),
    {
        &self.from
    }

    /// The recipient.
    pub fn to(&self) -> (res: &Mailbox)
        ensures
            *res == self.spec_to(),
    {
        &self.to
    }

    /// The SMTP relay host.
    pub fn smtp_host(&self) -> (res: &str)
        ensures
            res@ == self.spec_smtp_host(),
    {
        self.smtp_host.as_str()
    }

    /// The SMTP login name.
    pub fn username(&self) -> (res: &str)
        ensures
            res@ == self.spec_username(),
    {
        self.username.as_str()
    }

    /// The SMTP password.
    pub fn password(&self) -> (res: &str)
        ensures
            res@ == self.spec_password(),
    {
        self.password.as_str()
    }
}

} // verus!
