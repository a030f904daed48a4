//! Composing the one outbound email that a submission becomes.
use vstd::prelude::*;
use vstd::string::*;
use lettre::Message;
use crate::mailbox::{build_message, mailbox_parses, message_builds, parse_mailbox};
use crate::submission::{recipient_text, Submission};

verus! {

/// The sender every outbound message carries.
pub const FIXED_FROM: &'static str = "You <you@yordomain.com>";

/// The reply-to mailbox every outbound message carries.
pub const FIXED_REPLY_TO: &'static str = "You <you@yordomain.com>";

/// The subject of every outbound message.
pub const SUBJECT: &'static str = "Axum Rust tutorial";

/// The headers and body of an outbound message, as plain text.
pub struct MailView {
    pub from: Seq<char>,
    pub reply_to: Seq<char>,
    pub to: Seq<char>,
    pub subject: Seq<char>,
    pub body: Seq<char>,
}

/// The headers and body of an outbound message.
pub struct OutgoingMail {
    pub from: String,
    pub reply_to: String,
    pub to: String,
    pub subject: String,
    pub body: String,
}

impl View for OutgoingMail {
    type V = MailView;

    open spec fn view(&self) -> MailView {
        MailView {
            from: self.from@,
            reply_to: self.reply_to@,
            to: self.to@,
            subject: self.subject@,
            body: self.body@,
        }
    }
}

/// Where a message says it comes from and where answers go, checked once.
pub struct SenderIdentity {
    from: String,
    reply_to: String,
}

/// Which configured sender mailbox lettre refused.
#[derive(Debug, Clone, Copy, PartialEq, Eq, Structural)]
pub enum IdentityError {
    InvalidFrom,
    InvalidReplyTo,
}

impl SenderIdentity {
    /// The sender mailbox text.
    pub closed spec fn from_text(&self) -> Seq<char> {
        self.from@
    }

    /// The reply-to mailbox text.
    pub closed spec fn reply_to_text(&self) -> Seq<char> {
        self.reply_to@
    }

    /// Both mailboxes were accepted by lettre.
    pub open spec fn well_formed(&self) -> bool {
        mailbox_parses(self.from_text()) && mailbox_parses(self.reply_to_text())
    }

    /// Both mailboxes parse; the `from` one is checked first.
    pub fn new(from: &str, reply_to: &str) -> (r: Result<SenderIdentity, IdentityError>)
        ensures
            !mailbox_parses(from@) ==> r == Err::<SenderIdentity, IdentityError>(IdentityError::InvalidFrom),
            mailbox_parses(from@) && !mailbox_parses(reply_to@)
                ==> r == Err::<SenderIdentity, IdentityError>(IdentityError::InvalidReplyTo),
            mailbox_parses(from@) && mailbox_parses(reply_to@) ==> (r matches Ok(id)
                && id.from_text() == from@ && id.reply_to_text() == reply_to@),
            r matches Ok(id) ==> id.well_formed(),
    {
        if parse_mailbox(from).is_err() {
            return Err(IdentityError::InvalidFrom);
        }
        if parse_mailbox(reply_to).is_err() {
            return Err(IdentityError::InvalidReplyTo);
        }
        Ok(SenderIdentity { from: String::from_str(from), reply_to: String::from_str(reply_to) })
    }

    /// The identity made of [`FIXED_FROM`] and [`FIXED_REPLY_TO`].
    pub fn fixed() -> (r: Result<SenderIdentity, IdentityError>)
        ensures
            !mailbox_parses(FIXED_FROM@) ==> r == Err::<SenderIdentity, IdentityError>(IdentityError::InvalidFrom),
            mailbox_parses(FIXED_FROM@) && !mailbox_parses(FIXED_REPLY_TO@)
                ==> r == Err::<SenderIdentity, IdentityError>(IdentityError::InvalidReplyTo),
            mailbox_parses(FIXED_FROM@) && mailbox_parses(FIXED_REPLY_TO@) ==> (r matches Ok(id)
                && id.from_text() == FIXED_FROM@ && id.reply_to_text() == FIXED_REPLY_TO@),
            r matches Ok(id) ==> id.well_formed(),
    {
        SenderIdentity::new(FIXED_FROM, FIXED_REPLY_TO)
    }

    /// The sender mailbox text.
    pub fn from(&self) -> (r: &str)
        ensures
            r@ == self.from_text(),
    {
        self.from.as_str()
    }

    /// The reply-to mailbox text.
    pub fn reply_to(&self) -> (r: &str)
        ensures
            r@ == self.reply_to_text(),
    {
        self.reply_to.as_str()
    }
}

/// The message a submission becomes under a sender identity.
pub open spec fn planned_mail(identity: SenderIdentity, fullname: Seq<char>, email: Seq<char>, message: Seq<char>) -> MailView {
    MailView {
        from: identity.from_text(),
        reply_to: identity.reply_to_text(),
        to: recipient_text(fullname, email),
        subject: SUBJECT@,
        body: message,
    }
}

/// The message a submission becomes: fixed sender, reply-to and subject, the
/// submitter as recipient, and the submitted text as body.
pub fn plan_mail(identity: &SenderIdentity, sub: &Submission) -> (r: OutgoingMail)
    ensures
        r@ == planned_mail(*identity, sub.fullname@, sub.email@, sub.message@),
{
    OutgoingMail {
        from: identity.from.clone(),
        reply_to: identity.reply_to.clone(),
        to: sub.recipient(),
        subject: String::from_str(SUBJECT),
        body: sub.message.clone(),
    }
}

/// A message ready for the relay, with the plain text it was made from.
pub struct Dispatch {
    pub mail: OutgoingMail,
    pub message: Message,
}

/// Why a submission could not become a message.
#[derive(Debug, Clone, Copy, PartialEq, Eq, Structural)]
pub enum DispatchError {
    /// lettre refuses the submitter's mailbox text.
    InvalidRecipient,
    /// The mailbox parses, but lettre cannot build a message around it.
    Unbuildable,
}

/// Composes the message for a submission. A recipient mailbox that lettre
/// refuses, or a message it cannot build, is an error and nothing is composed.
pub fn compose(identity: &SenderIdentity, sub: &Submission) -> (r: Result<Dispatch, DispatchError>)
    ensures
        !mailbox_parses(recipient_text(sub.fullname@, sub.email@))
            ==> r == Err::<Dispatch, DispatchError>(DispatchError::InvalidRecipient),
        mailbox_parses(recipient_text(sub.fullname@, sub.email@)) ==> (r is Ok
            <==> message_builds(planned_mail(*identity, sub.fullname@, sub.email@, sub.message@))),
        mailbox_parses(recipient_text(sub.fullname@, sub.email@))
            && !message_builds(planned_mail(*identity, sub.fullname@, sub.email@, sub.message@))
            ==> r == Err::<Dispatch, DispatchError>(DispatchError::Unbuildable),
        r matches Ok(d) ==> d.mail@ == planned_mail(*identity, sub.fullname@, sub.email@, sub.message@),
{
    let mail = plan_mail(identity, sub);
    if parse_mailbox(mail.to.as_str()).is_err() {
        return Err(DispatchError::InvalidRecipient);
    }
    match build_message(&mail) {
        Some(message) => Ok(Dispatch { mail, message }),
        None => Err(DispatchError::Unbuildable),
    }
}

} // verus!
