//! The computable side of the mail-transport client: the endpoint a send is
//! posted to and the request payload, built here so that what goes out on the
//! wire is pinned down; the HTTP call itself lives with the caller.

use vstd::prelude::*;
use vstd::string::*;

use crate::domain::SubscriberEmail;

verus! {

/// The payload of one transport send.
pub struct SendEmailRequest {
    pub from: String,
    pub to: String,
    pub subject: String,
    pub text_body: String,
    pub html_body: String,
}

/// The endpoint of the transport's send operation.
pub fn send_email_url(base_url: &String) -> (r: String)
    ensures
        r@ == base_url@ + "/email"@,
{
    let mut url = base_url.clone();
    url.append("/email");
    url
}

/// Builds the payload for one send from a validated sender and recipient and
/// the issue's subject and bodies, each carried over unchanged.
pub fn build_send_email_request(
    sender: &SubscriberEmail,
    receiver: &SubscriberEmail,
    subject: &String,
    html_body: &String,
    text_body: &String,
) -> (r: SendEmailRequest)
    ensures
        r.from@ == sender@,
        r.to@ == receiver@,
        r.subject@ == subject@,
        r.text_body@ == text_body@,
        r.html_body@ == html_body@,
{
    SendEmailRequest {
        from: String::from_str(sender.as_ref()),
        to: String::from_str(receiver.as_ref()),
        subject: subject.clone(),
        text_body: text_body.clone(),
        html_body: html_body.clone(),
    }
}

} // verus!
