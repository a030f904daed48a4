use vstd::prelude::*;
use vstd::string::*;

verus! {

/// A contact-form submission: who wrote it, where to answer, and what they said.
pub struct Submission {
    pub fullname: String,
    pub email: String,
    pub message: String,
}

/// Why a submitted form could not be taken as a [`Submission`].
#[derive(Debug, Clone, Copy, PartialEq, Eq, Structural)]
pub enum SubmissionError {
    MissingFullname,
    MissingEmail,
    MissingMessage,
    EmptyFullname,
}

/// The mailbox text `"{fullname} <{email}>"` that names the submitter.
pub open spec fn recipient_text(fullname: Seq<char>, email: Seq<char>) -> Seq<char> {
    fullname + " <"@ + email + ">"@
}

/// The error a form with these fields is refused with, if any; fields are
/// checked in the order fullname, email, message.
pub open spec fn fields_error(
    fullname: Option<Seq<char>>,
    email: Option<Seq<char>>,
    message: Option<Seq<char>>,
) -> Option<SubmissionError> {
    if fullname is None {
        Some(SubmissionError::MissingFullname)
    } else if email is None {
        Some(SubmissionError::MissingEmail)
    } else if message is None {
        Some(SubmissionError::MissingMessage)
    } else if fullname->Some_0.len() == 0 {
        Some(SubmissionError::EmptyFullname)
    } else {
        None
    }
}

/// The view of an optional string field.
pub open spec fn field_view(f: Option<String>) -> Option<Seq<char>> {
    match f {
        Some(s) => Some(s@),
        None => None,
    }
}

impl Submission {
    /// Takes the three form fields; each one is required and the name may not be empty.
    pub fn from_fields(fullname: Option<String>, email: Option<String>, message: Option<String>) -> (r: Result<Submission, SubmissionError>)
        ensures
            match fields_error(field_view(fullname), field_view(email), field_view(message)) {
                Some(e) => r == Err::<Submission, SubmissionError>(e),
                None => r matches Ok(s) && s.fullname@ == fullname->Some_0@ && s.email@ == email->Some_0@
                    && s.message@ == message->Some_0@,
            },
    {
        match (fullname, email, message) {
            (Some(f), Some(e), Some(m)) => {
                if f.as_str().is_empty() {
                    Err(SubmissionError::EmptyFullname)
                } else {
                    Ok(Submission { fullname: f, email: e, message: m })
                }
            },
            (None, _, _) => Err(SubmissionError::MissingFullname),
            (Some(_), None, _) => Err(SubmissionError::MissingEmail),
            (Some(_), Some(_), None) => Err(SubmissionError::MissingMessage),
        }
    }

    /// The mailbox text that names the submitter, `"{fullname} <{email}>"`.
    pub fn recipient(&self) -> (r: String)
        ensures
            r@ == recipient_text(self.fullname@, self.email@),
    {
        let mut r = self.fullname.clone();
        r.append(" <");
        r.append(self.email.as_str());
        r.append(">");
        r
    }
}

} // verus!
