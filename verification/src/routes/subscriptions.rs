use crate::domain::new_subscriber::NewSubscriber;
use crate::domain::string_checks::passes_generic_checks;
use crate::domain::subscriber_email::{invalid_email_message, passes_email_checks, SubscriberEmail};
use crate::domain::subscriber_name::{invalid_name_message, SubscriberName};
use crate::routes::status::{BAD_REQUEST, INTERNAL_SERVER_ERROR, OK};
use vstd::prelude::*;
use vstd::string::StringExecFns;

verus! {

/// The form that a subscription request carries.
pub struct SubscribeRequest {
    pub email: String,
    pub name: String,
}

/// A subscription request whose name and e-mail address are both valid.
pub open spec fn is_valid_request(name: Seq<char>, email: Seq<char>) -> bool {
    passes_generic_checks(name) && passes_email_checks(email)
}

impl SubscribeRequest {
    /// Validates the request: the name is checked first, then the e-mail
    /// address, and the first rejection is the error.
    pub fn try_into(self) -> (r: Result<NewSubscriber, String>)
        ensures
            r is Ok <==> is_valid_request(self.name@, self.email@),
            r is Ok <==> (passes_generic_checks(self.name@) && passes_email_checks(self.email@)),
            r matches Ok(s) ==> s.name@ == self.name@ && s.email@ == self.email@,
            r matches Err(msg) ==> msg@ == (if !passes_generic_checks(self.name@) {
                invalid_name_message(self.name@)
            } else {
                invalid_email_message(self.email@)
            }),
    {
        let name = SubscriberName::parse(self.name)?;
        let email = SubscriberEmail::parse(self.email)?;
        Ok(NewSubscriber { email, name })
    }
}

/// A request is valid exactly when its name is accepted as a name and its
/// address as an e-mail address; nothing else about either is asked.
pub proof fn lemma_valid_request_exactly(name: Seq<char>, email: Seq<char>)
    ensures
        is_valid_request(name, email) <==> (passes_generic_checks(name) && passes_email_checks(email)),
{
}

/// The welcome message sent to a new subscriber.
pub struct WelcomeEmail {
    pub recipient: SubscriberEmail,
    pub subject: String,
    pub html_content: String,
    pub text_content: String,
}

/// The subject of the welcome message.
pub open spec fn welcome_subject() -> Seq<char> {
    "Welcome!"@
}

/// The body of the welcome message, as HTML and as plain text alike.
pub open spec fn welcome_body() -> Seq<char> {
    "Welcome to our newsletter!"@
}

/// The first step of a subscription: a valid request gives the subscriber
/// to store; an invalid one is answered `400` and stores nothing.
pub fn subscribe_received(payload: SubscribeRequest) -> (r: Result<NewSubscriber, u16>)
    ensures
        r is Ok <==> is_valid_request(payload.name@, payload.email@),
        r is Ok <==> (passes_generic_checks(payload.name@) && passes_email_checks(payload.email@)),
        r matches Ok(s) ==> s.name@ == payload.name@ && s.email@ == payload.email@,
        r matches Err(code) ==> code == BAD_REQUEST,
{
    match payload.try_into() {
        Ok(new_subscriber) => Ok(new_subscriber),
        Err(_) => Err(BAD_REQUEST),
    }
}

/// The step after storing: a failed store is answered `500` and sends no
/// mail; a stored subscriber is sent the welcome message at their address.
pub fn subscriber_stored(new_subscriber: NewSubscriber, stored: bool) -> (r: Result<WelcomeEmail, u16>)
    ensures
        r is Ok <==> stored,
        r matches Err(code) ==> code == INTERNAL_SERVER_ERROR,
        r matches Ok(m) ==> {
            &&& m.recipient@ == new_subscriber.email@
            &&& m.subject@ == welcome_subject()
            &&& m.html_content@ == welcome_body()
            &&& m.text_content@ == welcome_body()
        },
{
    if !stored {
        return Err(INTERNAL_SERVER_ERROR);
    }
    Ok(
        WelcomeEmail {
            recipient: new_subscriber.email,
            subject: String::from_str("Welcome!"),
            html_content: String::from_str("Welcome to our newsletter!"),
            text_content: String::from_str("Welcome to our newsletter!"),
        },
    )
}

/// The last step: whether or not the welcome message went out, the
/// subscription is answered `200`.
pub fn welcome_sent(_sent: bool) -> (status: u16)
    ensures
        status == OK,
{
    OK
}

} // verus!
