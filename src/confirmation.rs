use crate::domain::SubscriberEmail;
use vstd::prelude::*;

verus! {

/// Where the scheme separator `://` of a URL starts at `i`.
pub open spec fn scheme_mark_at(s: Seq<char>, i: int) -> bool {
    0 <= i && i + 3 <= s.len() && s[i] == ':' && s[i + 1] == '/' && s[i + 2] == '/'
}

/// A text with no URL in it: no scheme separator anywhere.
pub open spec fn link_free(s: Seq<char>) -> bool {
    forall|i: int| !scheme_mark_at(s, i)
}

/// A character that ends a URL in running text or in markup.
pub open spec fn is_link_delimiter(c: char) -> bool {
    c == ' ' || c == '"' || c == '\'' || c == '<' || c == '>' || c == '\n' || c == '\t'
}

/// A URL as it stands in a text: a run of characters with no delimiter, holding a scheme
/// separator.
pub open spec fn is_link(l: Seq<char>) -> bool {
    &&& exists|k: int| scheme_mark_at(l, k)
    &&& forall|i: int| 0 <= i < l.len() ==> !is_link_delimiter(#[trigger] l[i])
}

/// `body` holds exactly one URL, and it is `link`: the text round it holds none, and a delimiter
/// (or an end of the text) stands on each side of it.
pub open spec fn holds_single_link(body: Seq<char>, link: Seq<char>) -> bool {
    &&& is_link(link)
    &&& exists|before: Seq<char>, after: Seq<char>|
        {
            &&& body == before + link + after
            &&& link_free(before)
            &&& link_free(after)
            &&& before.len() == 0 || is_link_delimiter(before.last())
            &&& after.len() == 0 || is_link_delimiter(after[0])
        }
}

spec fn link_free_from(s: Seq<char>, i: int) -> bool
    decreases s.len() - i,
{
    if i < 0 || i + 3 > s.len() {
        true
    } else {
        !scheme_mark_at(s, i) && link_free_from(s, i + 1)
    }
}

spec fn delimiter_free_from(s: Seq<char>, i: int) -> bool
    decreases s.len() - i,
{
    if i < 0 || i >= s.len() {
        true
    } else {
        !is_link_delimiter(s[i]) && delimiter_free_from(s, i + 1)
    }
}

proof fn lemma_link_free_from(s: Seq<char>, i: int)
    requires
        0 <= i,
        link_free_from(s, i),
    ensures
        forall|j: int| i <= j ==> !scheme_mark_at(s, j),
    decreases s.len() - i,
{
    if i + 3 <= s.len() {
        lemma_link_free_from(s, i + 1);
    }
}

proof fn lemma_delimiter_free_from(s: Seq<char>, i: int)
    requires
        0 <= i,
        delimiter_free_from(s, i),
    ensures
        forall|j: int| i <= j < s.len() ==> !is_link_delimiter(#[trigger] s[j]),
    decreases s.len() - i,
{
    if i < s.len() {
        lemma_delimiter_free_from(s, i + 1);
    }
}

/// The link that a new subscriber follows to confirm the subscription.
pub open spec fn confirmation_link_text() -> Seq<char> {
    "https://domain.com/subscriptions/confirm"@
}

/// The confirmation link; the same for every subscriber.
pub fn confirmation_link() -> (r: &'static str)
    ensures
        r@ == confirmation_link_text(),
        is_link(r@),
{
    proof {
        lemma_confirmation_link_is_link();
    }
    "https://domain.com/subscriptions/confirm"
}

/// The message that asks a new subscriber to confirm the subscription.
pub struct ConfirmationEmail {
    pub recipient: SubscriberEmail,
    pub subject: String,
    pub html_body: String,
    pub text_body: String,
}

/// `e` is the confirmation message for `recipient`.
pub open spec fn is_confirmation_for(e: ConfirmationEmail, recipient: SubscriberEmail) -> bool {
    &&& e.recipient == recipient
    &&& e.subject@ == "Welcome!"@
    &&& e.html_body@ == "Welcome to our newsletter!<br />Click <a href=\""@ + confirmation_link_text()
        + "\">here</a> to confirm your subscription."@
    &&& e.text_body@ == "Welcome! Click: "@ + confirmation_link_text()
        + " to confirm your subscription."@
}

impl ConfirmationEmail {
    /// The confirmation message for `recipient`: a fixed subject, and an HTML and a plain-text
    /// body that each hold the confirmation link once, and no other link.
    pub fn new(recipient: SubscriberEmail) -> (r: ConfirmationEmail)
        ensures
            is_confirmation_for(r, recipient),
            holds_single_link(r.html_body@, confirmation_link_text()),
            holds_single_link(r.text_body@, confirmation_link_text()),
    {
        let link = confirmation_link();
        let html_before = "Welcome to our newsletter!<br />Click <a href=\"";
        let html_after = "\">here</a> to confirm your subscription.";
        let text_before = "Welcome! Click: ";
        let text_after = " to confirm your subscription.";
        let html_body = String::from_str(html_before).concat(link).concat(html_after);
        let text_body = String::from_str(text_before).concat(link).concat(text_after);
        proof {
            assert(html_body@ == html_before@ + link@ + html_after@);
            assert(text_body@ == text_before@ + link@ + text_after@);
        }
        let r = ConfirmationEmail {
            recipient,
            subject: String::from_str("Welcome!"),
            html_body,
            text_body,
        };
        proof {
            lemma_confirmation_has_one_link(r, recipient);
        }
        r
    }
}

proof fn lemma_confirmation_link_is_link()
    ensures
        is_link(confirmation_link_text()),
{
    let link = confirmation_link_text();
    reveal_strlit("https://domain.com/subscriptions/confirm");
    reveal_with_fuel(delimiter_free_from, 45);
    lemma_delimiter_free_from(link, 0);
    assert(scheme_mark_at(link, 5));
}

/// Every confirmation message holds exactly one link in its HTML body and exactly one in its
/// plain-text body, and the two are the same link.
pub proof fn lemma_confirmation_has_one_link(e: ConfirmationEmail, recipient: SubscriberEmail)
    requires
        is_confirmation_for(e, recipient),
    ensures
        holds_single_link(e.html_body@, confirmation_link_text()),
        holds_single_link(e.text_body@, confirmation_link_text()),
{
    let link = confirmation_link_text();
    let html_before = "Welcome to our newsletter!<br />Click <a href=\""@;
    let html_after = "\">here</a> to confirm your subscription."@;
    let text_before = "Welcome! Click: "@;
    let text_after = " to confirm your subscription."@;
    reveal_strlit("Welcome to our newsletter!<br />Click <a href=\"");
    reveal_strlit("\">here</a> to confirm your subscription.");
    reveal_strlit("Welcome! Click: ");
    reveal_strlit(" to confirm your subscription.");
    reveal_with_fuel(link_free_from, 50);
    lemma_link_free_from(html_before, 0);
    lemma_link_free_from(html_after, 0);
    lemma_link_free_from(text_before, 0);
    lemma_link_free_from(text_after, 0);
    lemma_confirmation_link_is_link();
    assert(e.html_body@ == html_before + link + html_after);
    assert(e.text_body@ == text_before + link + text_after);
}

} // verus!
