//! Outgoing mail: the SMTP settings, and the messages built with lettre.

use vstd::prelude::*;

use lettre::message::header::ContentType;
use lettre::message::{Mailbox, MultiPart, SinglePart};
use lettre::Message;

use crate::numbers::{parse_u16, parsed_u16};
use crate::text::to_owned_string;

verus! {

/// The SMTP port used when none (or no number) is configured: implicit TLS.
pub const DEFAULT_SMTP_PORT: u16 = 465;

/// How mail is to be sent.
#[derive(Debug, Clone, PartialEq, Eq)]
pub struct SmtpPlan {
    pub server: String,
    pub port: u16,
    pub username: String,
    pub password: String,
    /// `Name <address>` of the sender.
    pub from_mailbox: String,
    /// TLS from the start (port 465); otherwise STARTTLS on `port`.
    pub implicit_tls: bool,
}

/// A setting's value, or the empty text when unset.
pub open spec fn or_empty(s: Option<String>) -> Seq<char> {
    match s {
        Some(x) => x@,
        None => Seq::empty(),
    }
}

/// A setting's value, or `default` when unset.
pub open spec fn or_default(s: Option<String>, default: Seq<char>) -> Seq<char> {
    match s {
        Some(x) => x@,
        None => default,
    }
}

/// The SMTP port from its setting.
pub open spec fn smtp_port_of(port: Option<String>) -> u16 {
    match port {
        Some(p) => match parsed_u16(p@) {
            Some(n) => n,
            None => DEFAULT_SMTP_PORT,
        },
        None => DEFAULT_SMTP_PORT,
    }
}

fn value_or(s: Option<String>, default: &str) -> (r: String)
    ensures
        r@ == or_default(s, default@),
{
    match s {
        Some(x) => x,
        None => to_owned_string(default),
    }
}

/// The sending plan from the SMTP settings (server, port, user name,
/// password, sender address and name). Without a server, a user name and a
/// password there is none: mail is then skipped, not failed.
pub fn smtp_plan(
    server: Option<String>,
    port: Option<String>,
    username: Option<String>,
    password: Option<String>,
    from: Option<String>,
    from_name: Option<String>,
) -> (r: Option<SmtpPlan>)
    ensures
        r is None <==> (or_empty(server).len() == 0 || or_empty(username).len() == 0 || or_empty(
            password,
        ).len() == 0),
        r matches Some(p) ==> {
            &&& p.server@ == or_empty(server)
            &&& p.username@ == or_empty(username)
            &&& p.password@ == or_empty(password)
            &&& p.port == smtp_port_of(port)
            &&& p.implicit_tls == (p.port == 465)
            &&& p.from_mailbox@ == or_default(from_name, "SyncNote"@) + " <"@ + or_default(
                from,
                "support@apich.top"@,
            ) + ">"@
        },
{
    let server = value_or(server, "");
    let username = value_or(username, "");
    let password = value_or(password, "");
    proof {
        reveal_strlit("");
    }
    let port_num = match port {
        Some(p) => match parse_u16(p.as_str()) {
            Some(n) => n,
            None => DEFAULT_SMTP_PORT,
        },
        None => DEFAULT_SMTP_PORT,
    };
    let from = value_or(from, "support@apich.top");
    let from_name = value_or(from_name, "SyncNote");
    if server.as_str().is_empty() || username.as_str().is_empty() || password.as_str().is_empty() {
        return None;
    }
    let mut from_mailbox = from_name;
    from_mailbox.append(" <");
    from_mailbox.append(from.as_str());
    from_mailbox.append(">");
    Some(SmtpPlan {
        server,
        port: port_num,
        username,
        password,
        from_mailbox,
        implicit_tls: port_num == 465,
    })
}

// ---------------------------------------------------------------------------
// Messages
// ---------------------------------------------------------------------------

#[verifier::external_type_specification]
#[verifier::external_body]
pub struct ExMessage(Message);

#[verifier::external_type_specification]
#[verifier::external_body]
pub struct ExMailbox(Mailbox);

/// Whether lettre parses `s` as a mailbox (`Name <user@domain>` or a bare
/// address).
pub uninterp spec fn mailbox_parses(s: Seq<char>) -> bool;

/// The mailbox lettre parses `s` into.
pub uninterp spec fn mailbox_of(s: Seq<char>) -> Mailbox;

/// What a built message holds: sender, recipient, subject, the plain text
/// and, for a `multipart/alternative` one, the HTML.
pub uninterp spec fn message_parts(m: Message) -> (Mailbox, Mailbox, Seq<char>, Seq<char>, Option<Seq<char>>);

/// lettre `Mailbox::from_str`, or the error's text.
#[verifier::external_body]
fn parse_mailbox(s: &str) -> (r: Result<Mailbox, String>)
    ensures
        r is Ok == mailbox_parses(s@),
        r matches Ok(b) ==> b == mailbox_of(s@),
{
    s.parse::<Mailbox>().map_err(|e| e.to_string())
}

/// lettre `Message::builder()` with the sender, the recipient and the
/// subject, and as body a `multipart/alternative` of the text and the HTML.
/// Stated: it is built (lettre refuses a message only without a sender or
/// recipient, or with several senders and no `Sender`), and it holds the
/// given sender, recipient, subject, text and HTML. Not stated: the `Date`
/// and `Message-ID` headers lettre adds.
#[verifier::external_body]
fn alternative_message(from: Mailbox, to: Mailbox, subject: &str, text: &str, html: &str) -> (r: Result<Message, String>)
    ensures
        r is Ok,
        r matches Ok(m) ==> message_parts(m) == (from, to, subject@, text@, Some(html@)),
{
    Message::builder()
        .from(from)
        .to(to)
        .subject(subject)
        .multipart(
            MultiPart::alternative()
                .singlepart(SinglePart::builder().header(ContentType::TEXT_PLAIN).body(text.to_string()))
                .singlepart(SinglePart::builder().header(ContentType::TEXT_HTML).body(html.to_string())),
        )
        .map_err(|e| e.to_string())
}

/// lettre `Message::builder()` with the sender, the recipient and the
/// subject, and the text as a `text/plain` body. Stated: it is built (as
/// above) and holds the given sender, recipient, subject and text, with no
/// HTML.
#[verifier::external_body]
fn plain_message(from: Mailbox, to: Mailbox, subject: &str, text: &str) -> (r: Result<Message, String>)
    ensures
        r is Ok,
        r matches Ok(m) ==> message_parts(m) == (from, to, subject@, text@, None::<Seq<char>>),
{
    Message::builder()
        .from(from)
        .to(to)
        .subject(subject)
        .header(ContentType::TEXT_PLAIN)
        .body(text.to_string())
        .map_err(|e| e.to_string())
}

/// The error of a mailbox that does not parse: `{what} '{value}': ` and
/// lettre's text.
pub open spec fn mailbox_error(m: Seq<char>, what: Seq<char>, value: Seq<char>) -> bool {
    exists|t: Seq<char>| m == #[trigger] (what + " '"@ + value + "': "@ + t)
}

fn mailbox_error_of(what: &str, value: &str, t: String) -> (m: String)
    ensures
        mailbox_error(m@, what@, value@),
{
    let mut m = to_owned_string(what);
    m.append(" '");
    m.append(value);
    m.append("': ");
    m.append(t.as_str());
    assert(m@ == what@ + " '"@ + value@ + "': "@ + t@);
    m
}

/// The message of a mail: from `from` to `to`, with a text body and, when
/// given, an HTML alternative. It fails exactly when a mailbox does not
/// parse, the sender's first.
pub fn build_email(from: &str, to: &str, subject: &str, text: &str, html: Option<&str>) -> (r: Result<
    Message,
    String,
>)
    ensures
        r is Err <==> (!mailbox_parses(from@) || !mailbox_parses(to@)),
        !mailbox_parses(from@) ==> (r matches Err(m) && mailbox_error(m@, "Invalid FROM mailbox"@, from@)),
        mailbox_parses(from@) && !mailbox_parses(to@) ==> (r matches Err(m) && mailbox_error(
            m@,
            "Invalid TO email"@,
            to@,
        )),
        r matches Ok(m) ==> message_parts(m) == (mailbox_of(from@), mailbox_of(to@), subject@, text@, match html {
            Some(h) => Some(h@),
            None => None,
        }),
{
    let from_box = match parse_mailbox(from) {
        Ok(b) => b,
        Err(t) => return Err(mailbox_error_of("Invalid FROM mailbox", from, t)),
    };
    let to_box = match parse_mailbox(to) {
        Ok(b) => b,
        Err(t) => return Err(mailbox_error_of("Invalid TO email", to, t)),
    };
    match html {
        Some(h) => alternative_message(from_box, to_box, subject, text, h),
        None => plain_message(from_box, to_box, subject, text),
    }
}

} // verus!
