//! The submission route: from the posted form to a message or an answer.
use vstd::prelude::*;
use crate::dispatch::{compose, planned_mail, Dispatch, DispatchError, MailView, SenderIdentity};
use crate::mailbox::{mailbox_parses, message_builds};
use crate::reply::{
    dispatch_error_reply, dispatch_rejected, send_reply, submission_error_reply,
    submission_rejected, Reply, ReplyView, SendOutcome, STATUS_OK, STATUS_UNPROCESSABLE,
};
use crate::submission::{field_view, fields_error, recipient_text, Submission};

verus! {

/// What the server does next with a posted form.
pub enum Step {
    /// Hand this one message to the relay, then answer with `reply_after_send`.
    Send(Dispatch),
    /// Answer at once; nothing is sent.
    Respond(Reply),
}

/// Whether a form with these fields becomes a message.
pub open spec fn accepts(
    identity: SenderIdentity,
    fullname: Option<Seq<char>>,
    email: Option<Seq<char>>,
    message: Option<Seq<char>>,
) -> bool {
    fields_error(fullname, email, message) is None
        && mailbox_parses(recipient_text(fullname->Some_0, email->Some_0))
        && message_builds(planned_mail(identity, fullname->Some_0, email->Some_0, message->Some_0))
}

/// The answer to a form that does not become a message.
pub open spec fn rejection(
    fullname: Option<Seq<char>>,
    email: Option<Seq<char>>,
    message: Option<Seq<char>>,
) -> ReplyView {
    match fields_error(fullname, email, message) {
        Some(e) => submission_error_reply(e),
        None => if !mailbox_parses(recipient_text(fullname->Some_0, email->Some_0)) {
            dispatch_error_reply(DispatchError::InvalidRecipient)
        } else {
            dispatch_error_reply(DispatchError::Unbuildable)
        },
    }
}

/// Handles a posted form: a missing field, an empty name, or a mailbox or
/// message that lettre refuses is answered with a client error and sends
/// nothing; otherwise exactly one message is composed.
pub fn handle_submission(
    identity: &SenderIdentity,
    fullname: Option<String>,
    email: Option<String>,
    message: Option<String>,
) -> (r: Step)
    ensures
        r is Send <==> accepts(*identity, field_view(fullname), field_view(email), field_view(message)),
        r matches Step::Send(d) ==> d.mail@ == planned_mail(*identity, fullname->Some_0@, email->Some_0@, message->Some_0@),
        r matches Step::Respond(rep) ==> rep@ == rejection(field_view(fullname), field_view(email), field_view(message)),
{
    let sub = match Submission::from_fields(fullname, email, message) {
        Ok(s) => s,
        Err(e) => return Step::Respond(submission_rejected(e)),
    };
    match compose(identity, &sub) {
        Ok(d) => Step::Send(d),
        Err(e) => Step::Respond(dispatch_rejected(e)),
    }
}

/// Form fields as posted, each present or not.
pub type FormFields = (Option<Seq<char>>, Option<Seq<char>>, Option<Seq<char>>);

/// The messages handed to the relay for a run of posted forms, in order.
pub open spec fn outbound(identity: SenderIdentity, forms: Seq<FormFields>) -> Seq<MailView>
    decreases forms.len(),
{
    if forms.len() == 0 {
        Seq::empty()
    } else {
        let earlier = outbound(identity, forms.drop_last());
        let f = forms.last();
        if accepts(identity, f.0, f.1, f.2) {
            earlier.push(planned_mail(identity, f.0->Some_0, f.1->Some_0, f.2->Some_0))
        } else {
            earlier
        }
    }
}

/// A form with a non-empty name, whose mailbox and message lettre accepts,
/// becomes exactly one message, addressed to `"{fullname} <{email}>"`, and a
/// relay that takes it leads to an empty success answer.
pub proof fn lemma_valid_form_sends_one(identity: SenderIdentity, fullname: Seq<char>, email: Seq<char>, message: Seq<char>)
    requires
        fullname.len() > 0,
        mailbox_parses(recipient_text(fullname, email)),
        message_builds(planned_mail(identity, fullname, email, message)),
    ensures
        accepts(identity, Some(fullname), Some(email), Some(message)),
        outbound(identity, seq![(Some(fullname), Some(email), Some(message))]).len() == 1,
        outbound(identity, seq![(Some(fullname), Some(email), Some(message))])[0].to
            == fullname + " <"@ + email + ">"@,
        send_reply(SendOutcome::Sent) == (ReplyView { status: STATUS_OK, html: false, body: Seq::empty() }),
{
    let forms = seq![(Some(fullname), Some(email), Some(message))];
    assert(forms.drop_last() =~= Seq::<FormFields>::empty());
    assert(outbound(identity, forms.drop_last()) == Seq::<MailView>::empty());
}

/// A form that lacks any of its three fields is refused with a client error
/// and sends nothing.
pub proof fn lemma_missing_field_sends_nothing(identity: SenderIdentity, form: FormFields)
    requires
        form.0 is None || form.1 is None || form.2 is None,
    ensures
        !accepts(identity, form.0, form.1, form.2),
        rejection(form.0, form.1, form.2).status == STATUS_UNPROCESSABLE,
        outbound(identity, seq![form]).len() == 0,
{
    assert(seq![form].drop_last() =~= Seq::<FormFields>::empty());
    assert(outbound(identity, seq![form].drop_last()) == Seq::<MailView>::empty());
}

/// A complete form whose address lettre refuses gets a client error for that
/// request alone and sends nothing.
pub proof fn lemma_bad_address_sends_nothing(identity: SenderIdentity, fullname: Seq<char>, email: Seq<char>, message: Seq<char>)
    requires
        !mailbox_parses(recipient_text(fullname, email)),
    ensures
        !accepts(identity, Some(fullname), Some(email), Some(message)),
        rejection(Some(fullname), Some(email), Some(message)).status == STATUS_UNPROCESSABLE,
        outbound(identity, seq![(Some(fullname), Some(email), Some(message))]).len() == 0,
{
    let forms = seq![(Some(fullname), Some(email), Some(message))];
    assert(forms.drop_last() =~= Seq::<FormFields>::empty());
    assert(outbound(identity, forms.drop_last()) == Seq::<MailView>::empty());
}

/// Nothing is deduplicated: posting an accepted form twice, after any earlier
/// forms, adds two identical messages.
pub proof fn lemma_repeat_sends_twice(identity: SenderIdentity, earlier: Seq<FormFields>, form: FormFields)
    requires
        accepts(identity, form.0, form.1, form.2),
    ensures
        outbound(identity, earlier.push(form).push(form)) == outbound(identity, earlier).push(
            planned_mail(identity, form.0->Some_0, form.1->Some_0, form.2->Some_0),
        ).push(planned_mail(identity, form.0->Some_0, form.1->Some_0, form.2->Some_0)),
{
    let mail = planned_mail(identity, form.0->Some_0, form.1->Some_0, form.2->Some_0);
    assert(earlier.push(form).drop_last() =~= earlier);
    assert(outbound(identity, earlier.push(form)) == outbound(identity, earlier).push(mail));
    assert(earlier.push(form).push(form).drop_last() =~= earlier.push(form));
}

} // verus!
