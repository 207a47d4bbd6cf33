use crate::domain::SubscriberEmail;
use vstd::prelude::*;

verus! {

/// The request that the e-mail provider's send API takes: a POST of these fields as JSON.
pub struct SendEmailRequest {
    pub url: String,
    pub from: String,
    pub to: String,
    pub subject: String,
    pub html_body: String,
    pub text_body: String,
}

/// What came back from the provider for one request.
#[derive(Debug, Clone, Copy, PartialEq, Eq, Structural)]
pub enum GatewayReply {
    /// A response with this HTTP status code.
    Status(u16),
    /// No response before the client's timeout ran out.
    TimedOut,
    /// The request could not be sent, or its response not read.
    Unreachable,
}

/// Why a confirmation e-mail was not dispatched.
#[derive(Debug, Clone, Copy, PartialEq, Eq, Structural)]
pub enum DispatchError {
    /// The provider answered with a status outside 200..=299.
    Status(u16),
    TimedOut,
    Unreachable,
}

pub open spec fn is_success_status(code: u16) -> bool {
    200 <= code <= 299
}

/// The error, if any, that a reply from the provider stands for.
pub open spec fn reply_result(reply: GatewayReply) -> Result<(), DispatchError> {
    match reply {
        GatewayReply::Status(code) => if is_success_status(code) {
            Ok(())
        } else {
            Err(DispatchError::Status(code))
        },
        GatewayReply::TimedOut => Err(DispatchError::TimedOut),
        GatewayReply::Unreachable => Err(DispatchError::Unreachable),
    }
}

/// Path of the provider's send endpoint, below its base URL.
pub open spec fn send_path() -> Seq<char> {
    "/email"@
}

/// Client of the transactional e-mail provider: where it is, who sends, and how long a request
/// may take. The HTTP connection pool and the server token belong to whoever performs the
/// requests.
pub struct EmailClient {
    pub base_url: String,
    pub sender_email: SubscriberEmail,
    pub timeout_ms: u64,
}

impl EmailClient {
    pub fn new(base_url: String, sender_email: SubscriberEmail, timeout_ms: u64) -> (r: Self)
        ensures
            r.base_url@ == base_url@,
            r.sender_email == sender_email,
            r.timeout_ms == timeout_ms,
    {
        EmailClient { base_url, sender_email, timeout_ms }
    }

    /// Name of the header that carries the provider's server token.
    pub fn auth_header() -> (r: &'static str)
        ensures
            r@ == "X-Postmark-Server-Token"@,
    {
        "X-Postmark-Server-Token"
    }

    /// The request that sends one e-mail to `recipient` from this client's sender.
    pub fn build_request(
        &self,
        recipient: &SubscriberEmail,
        subject: &str,
        html_body: &str,
        text_body: &str,
    ) -> (r: SendEmailRequest)
        ensures
            r.url@ == self.base_url@ + send_path(),
            r.from@ == self.sender_email@,
            r.to@ == recipient@,
            r.subject@ == subject@,
            r.html_body@ == html_body@,
            r.text_body@ == text_body@,
    {
        let url = self.base_url.clone().concat("/email");
        SendEmailRequest {
            url,
            from: String::from_str(self.sender_email.as_ref()),
            to: String::from_str(recipient.as_ref()),
            subject: String::from_str(subject),
            html_body: String::from_str(html_body),
            text_body: String::from_str(text_body),
        }
    }

    /// A 2xx status is a dispatched e-mail; any other status, a timeout or a failed
    /// connection is an error. Nothing is retried.
    pub fn dispatch_result(reply: GatewayReply) -> (r: Result<(), DispatchError>)
        ensures
            r == reply_result(reply),
            r is Ok <==> (reply matches GatewayReply::Status(code) && is_success_status(code)),
    {
        match reply {
            GatewayReply::Status(code) => if 200 <= code && code <= 299 {
                Ok(())
            } else {
                Err(DispatchError::Status(code))
            },
            GatewayReply::TimedOut => Err(DispatchError::TimedOut),
            GatewayReply::Unreachable => Err(DispatchError::Unreachable),
        }
    }
}

} // verus!
