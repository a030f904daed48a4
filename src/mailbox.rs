//! The calls into lettre that compose a message, and what they are relied on for.
use vstd::prelude::*;
use lettre::address::AddressError;
use lettre::message::Mailbox;
use lettre::Message;
use crate::dispatch::{MailView, OutgoingMail};

verus! {

/// lettre's parsed mailbox (an optional display name and an address).
#[verifier::external_type_specification]
#[verifier::external_body]
pub struct ExMailbox(Mailbox);

/// lettre's reason for refusing a mailbox text.
#[verifier::external_type_specification]
#[verifier::external_body]
pub struct ExAddressError(AddressError);

/// lettre's composed email, headers and body.
#[verifier::external_type_specification]
#[verifier::external_body]
pub struct ExMessage(Message);

/// Whether lettre accepts `s` as a mailbox (`Name <user@domain>` or a bare
/// address); its address rules fill pages, so the answer is only named here.
pub uninterp spec fn mailbox_parses(s: Seq<char>) -> bool;

/// Relies on `<lettre::message::Mailbox as FromStr>::from_str`: it either
/// parses the text or refuses it, depending on the text alone.
#[verifier::external_body]
pub(crate) fn parse_mailbox(s: &str) -> (r: Result<Mailbox, AddressError>)
    ensures
        r is Ok <==> mailbox_parses(s@),
{
    s.parse::<Mailbox>()
}

/// Whether lettre builds a message with these headers and body. A build
/// fails when the `From` or `To` header does not read back as a mailbox list
/// (a display name with a comma and an `@`, say), so the answer is only named here.
pub uninterp spec fn message_builds(mail: MailView) -> bool;

/// Relies on lettre's `Mailbox::from_str` for the three mailboxes and on its
/// `MessageBuilder` (`from`, `reply_to`, `to`, `subject`, `body`): the outcome
/// depends on the text alone, and nothing is built from a mailbox that does
/// not parse.
#[verifier::external_body]
pub(crate) fn build_message(mail: &OutgoingMail) -> (r: Option<Message>)
    ensures
        r is Some <==> message_builds(mail@),
        r is Some ==> mailbox_parses(mail.from@) && mailbox_parses(mail.reply_to@)
            && mailbox_parses(mail.to@),
{
    match (mail.from.parse::<Mailbox>(), mail.reply_to.parse::<Mailbox>(), mail.to.parse::<Mailbox>()) {
        (Ok(from), Ok(reply_to), Ok(to)) => Message::builder()
            .from(from)
            .reply_to(reply_to)
            .to(to)
            .subject(mail.subject.as_str())
            .body(mail.body.clone())
            .ok(),
        _ => None,
    }
}

} // verus!
