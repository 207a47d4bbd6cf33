use crate::confirmation::{is_confirmation_for, ConfirmationEmail};
use crate::domain::subscriber_email::email_syntax_valid;
use crate::domain::subscriber_name::is_valid_name;
use crate::domain::{NewSubscriber, SubscriberEmail, SubscriberName};
use crate::email_client::DispatchError;
use crate::repository::{initial_status, is_v4_uuid, SubscriptionRecord};
use vstd::prelude::*;

verus! {

/// The fields of a subscription form, as submitted.
#[derive(Debug)]
pub struct FormData {
    pub email: String,
    pub name: String,
}

/// Both fields of the form are valid.
pub open spec fn is_valid_form(name: Seq<char>, email: Seq<char>) -> bool {
    is_valid_name(name) && email_syntax_valid(email)
}

/// The message that refuses a form: it names the first field that is not valid.
pub open spec fn refusal_message(name: Seq<char>, email: Seq<char>) -> Seq<char> {
    if !is_valid_name(name) {
        "Invalid subscriber name: "@ + name
    } else {
        "Invalid subscriber email: "@ + email
    }
}

impl NewSubscriber {
    /// Checks the name, then the e-mail address; the message tells which was refused first.
    pub fn try_from(value: FormData) -> (r: Result<NewSubscriber, String>)
        ensures
            r is Ok <==> is_valid_form(value.name@, value.email@),
            r matches Ok(s) ==> s.name@ == value.name@ && s.email@ == value.email@ && s.wf(),
            r matches Err(m) ==> m@ == refusal_message(value.name@, value.email@),
    {
        let name = match SubscriberName::parse(value.name) {
            Ok(name) => name,
            Err(m) => return Err(m),
        };
        let email = match SubscriberEmail::parse(value.email) {
            Ok(email) => email,
            Err(m) => return Err(m),
        };
        Ok(NewSubscriber { email, name })
    }
}

/// Why a submission was refused. Nothing is stored or sent for it.
#[derive(Debug)]
pub enum ValidationError {
    /// The form lacks a field, or could not be decoded.
    MissingField,
    /// A field was refused; the message says which and why.
    Invalid(String),
}

/// Why the storage engine did not store a record.
#[derive(Debug, Clone, Copy, PartialEq, Eq, Structural)]
pub struct PersistenceError;

/// A failure on the server's side, after the submission was found valid.
#[derive(Debug, Clone, Copy, PartialEq, Eq, Structural)]
pub enum InternalError {
    Persistence(PersistenceError),
    Dispatch(DispatchError),
}

/// What became of a submission.
#[derive(Debug)]
pub enum Outcome {
    Accepted,
    Rejected(ValidationError),
    Failed(InternalError),
}

impl Outcome {
    pub open spec fn status(&self) -> u16 {
        match self {
            Outcome::Accepted => 200,
            Outcome::Rejected(_) => 400,
            Outcome::Failed(_) => 500,
        }
    }

    /// The HTTP status that answers the submission.
    pub fn status_code(&self) -> (r: u16)
        ensures
            r == self.status(),
    {
        match self {
            Outcome::Accepted => 200,
            Outcome::Rejected(_) => 400,
            Outcome::Failed(_) => 500,
        }
    }
}

/// A valid submission whose record is to be written.
pub struct PendingWrite {
    pub subscriber: NewSubscriber,
    pub record: SubscriptionRecord,
}

/// A stored submission whose confirmation e-mail is to be sent.
pub struct PendingDispatch {
    pub email: ConfirmationEmail,
}

/// What the caller is to do next with a submission.
pub enum Step {
    /// Write `record` to storage, then report with `PendingWrite::record_written`.
    WriteRecord(PendingWrite),
    /// Send `email`, then report with `PendingDispatch::email_sent`.
    SendEmail(PendingDispatch),
    /// Answer the submission; nothing more is done for it.
    Respond(Outcome),
}

/// The first step of a submission: `form` is `None` where a field was missing. A valid form
/// leads to writing its record; any other form is rejected before anything is written or sent.
pub fn register(form: Option<FormData>) -> (r: Step)
    ensures
        form is None ==> r matches Step::Respond(Outcome::Rejected(ValidationError::MissingField)),
        form matches Some(f) ==> (r is WriteRecord <==> is_valid_form(f.name@, f.email@)),
        form matches Some(f) ==> (!is_valid_form(f.name@, f.email@) ==> (r matches Step::Respond(
            Outcome::Rejected(ValidationError::Invalid(m)),
        ) && m@ == refusal_message(f.name@, f.email@))),
        r matches Step::WriteRecord(w) ==> {
            &&& form matches Some(f)
            &&& w.subscriber.wf()
            &&& w.subscriber.name@ == f.name@
            &&& w.subscriber.email@ == f.email@
            &&& w.record.name@ == f.name@
            &&& w.record.email@ == f.email@
            &&& w.record.status == initial_status()
            &&& is_v4_uuid(w.record.id)
        },
{
    match form {
        None => Step::Respond(Outcome::Rejected(ValidationError::MissingField)),
        Some(form) => match NewSubscriber::try_from(form) {
            Ok(subscriber) => {
                let record = SubscriptionRecord::new(&subscriber);
                Step::WriteRecord(PendingWrite { subscriber, record })
            },
            Err(m) => Step::Respond(Outcome::Rejected(ValidationError::Invalid(m))),
        },
    }
}

impl PendingWrite {
    /// After the write: a stored record leads to the confirmation e-mail; a failed write ends
    /// the submission, and no e-mail is sent.
    pub fn record_written(self, written: Result<(), PersistenceError>) -> (r: Step)
        ensures
            written is Ok ==> (r matches Step::SendEmail(d) && is_confirmation_for(
                d.email,
                self.subscriber.email,
            )),
            written matches Err(e) ==> (r matches Step::Respond(
                Outcome::Failed(InternalError::Persistence(x)),
            ) && x == e),
    {
        match written {
            Ok(()) => Step::SendEmail(
                PendingDispatch { email: ConfirmationEmail::new(self.subscriber.email) },
            ),
            Err(e) => Step::Respond(Outcome::Failed(InternalError::Persistence(e))),
        }
    }
}

impl PendingDispatch {
    /// After the e-mail: the submission is accepted when it was sent. When it was not, the
    /// stored record stays as it is.
    pub fn email_sent(self, sent: Result<(), DispatchError>) -> (r: Outcome)
        ensures
            sent is Ok ==> r is Accepted,
            sent matches Err(e) ==> (r matches Outcome::Failed(InternalError::Dispatch(x)) && x
                == e),
    {
        match sent {
            Ok(()) => Outcome::Accepted,
            Err(e) => Outcome::Failed(InternalError::Dispatch(e)),
        }
    }
}

} // verus!
