use validator::ValidateEmail;
use vstd::prelude::*;

verus! {

/// Whether a text passes the HTML5 e-mail address syntax that `validator` checks.
pub uninterp spec fn email_syntax_valid(s: Seq<char>) -> bool;

/// The text splits at its last `@` into a non-empty local part and a non-empty domain part.
pub open spec fn has_local_and_domain(s: Seq<char>) -> bool {
    exists|k: int|
        0 < k < s.len() - 1 && #[trigger] s[k] == '@' && (forall|j: int|
            k < j < s.len() ==> s[j] != '@')
}

/// The text holds no `@`.
pub open spec fn lacks_at(s: Seq<char>) -> bool {
    forall|i: int| 0 <= i < s.len() ==> s[i] != '@'
}

/// Nothing stands before the text's last `@`.
pub open spec fn lacks_local_part(s: Seq<char>) -> bool {
    &&& s.len() > 0
    &&& s[0] == '@'
    &&& forall|i: int| 0 < i < s.len() ==> s[i] != '@'
}

/// Nothing stands after the text's last `@`.
pub open spec fn lacks_domain_part(s: Seq<char>) -> bool {
    s.len() > 0 && s.last() == '@'
}

/// A text without an `@`, without a local part or without a domain part does not split into
/// the two parts that an address needs.
pub proof fn lemma_address_needs_both_parts(s: Seq<char>)
    requires
        lacks_at(s) || lacks_local_part(s) || lacks_domain_part(s),
    ensures
        !has_local_and_domain(s),
{
    if has_local_and_domain(s) {
        let k = choose|k: int|
            0 < k < s.len() - 1 && #[trigger] s[k] == '@' && (forall|j: int|
                k < j < s.len() ==> s[j] != '@');
        assert(s[s.len() - 1] != '@');
    }
}

/// Relies on `validator::ValidateEmail::validate_email` for a `String`: true when the text is
/// an e-mail address. Its source splits the text at the last `@` and rejects it when there is
/// none, or when the part before or after it does not match a pattern of one character or more.
#[verifier::external_body]
fn validate_email_syntax(s: &String) -> (r: bool)
    ensures
        r == email_syntax_valid(s@),
        r ==> has_local_and_domain(s@),
{
    s.validate_email()
}

/// A subscriber's e-mail address, which passes the e-mail syntax check.
#[derive(Debug)]
pub struct SubscriberEmail(String);

impl View for SubscriberEmail {
    type V = Seq<char>;

    closed spec fn view(&self) -> Seq<char> {
        self.0@
    }
}

impl SubscriberEmail {
    pub open spec fn wf(&self) -> bool {
        email_syntax_valid(self@)
    }

    /// Accepts `s` unchanged when it is an e-mail address; no case or white space is changed.
    pub fn parse(s: String) -> (r: Result<SubscriberEmail, String>)
        ensures
            r matches Ok(e) <==> email_syntax_valid(s@),
            r matches Ok(e) ==> e@ == s@ && e.wf(),
            r matches Err(m) ==> m@ == "Invalid subscriber email: "@ + s@,
            lacks_at(s@) || lacks_local_part(s@) || lacks_domain_part(s@) ==> r is Err,
    {
        proof {
            if lacks_at(s@) || lacks_local_part(s@) || lacks_domain_part(s@) {
                lemma_address_needs_both_parts(s@);
            }
        }
        if validate_email_syntax(&s) {
            Ok(SubscriberEmail(s))
        } else {
            Err(String::from_str("Invalid subscriber email: ").concat(s.as_str()))
        }
    }

    pub fn as_ref(&self) -> (r: &str)
        ensures
            r@ == self@,
    {
        self.0.as_str()
    }
}

} // verus!
