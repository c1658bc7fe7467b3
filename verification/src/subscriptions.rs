//! The signup workflow: validate a raw form, persist the subscriber together
//! with a single-use confirmation token in one all-or-nothing step, and
//! prepare the confirmation email for the mail transport.

use vstd::prelude::*;
use vstd::string::*;

use crate::domain::{
    email_error_message, is_valid_email, is_valid_name, name_error_message, NewSubscriber,
    SubscriberEmail, SubscriberName,
};
use crate::startup::ApplicationBaseUrl;
use crate::store::{has_subscriber, Store, SubscriberRecord, TokenRecord};

verus! {

/// The raw signup form, exactly as the HTTP layer hands it over.
pub struct FormData {
    pub name: String,
    pub email: String,
}

impl NewSubscriber {
    /// Validates a raw form: the name first, then the email, as the rejection
    /// message of the first failing field is the one reported.
    pub fn try_from(form: FormData) -> (r: Result<NewSubscriber, String>)
        ensures
            r is Ok <==> is_valid_name(form.name@) && is_valid_email(form.email@),
            r matches Ok(n) ==> n.email@ == form.email@ && n.name@ == form.name@ && n.wf(),
            !is_valid_name(form.name@) ==> (r matches Err(m) && m@ == name_error_message(
                form.name@,
            )),
            is_valid_name(form.name@) && !is_valid_email(form.email@) ==> (r matches Err(m) && m@
                == email_error_message(form.email@)),
    {
        let name = match SubscriberName::parse(form.name) {
            Ok(name) => name,
            Err(m) => {
                return Err(m);
            },
        };
        let email = match SubscriberEmail::parse(form.email) {
            Ok(email) => email,
            Err(m) => {
                return Err(m);
            },
        };
        Ok(NewSubscriber { email, name })
    }
}

/// What went wrong during signup: the client's input was invalid, or some
/// collaborator failed; the cause is carried as text for diagnostics.
#[derive(Debug)]
pub enum SubscribeError {
    ValidationError(String),
    UnexpectedError(String),
}

impl SubscribeError {
    /// The message the error shows: a validation error carries its own text,
    /// an unexpected one is transparent about its cause.
    pub fn message(&self) -> (r: String)
        ensures
            r@ == (match self {
                SubscribeError::ValidationError(m) => m@,
                SubscribeError::UnexpectedError(m) => m@,
            }),
    {
        match self {
            SubscribeError::ValidationError(m) => m.clone(),
            SubscribeError::UnexpectedError(m) => m.clone(),
        }
    }

    /// The HTTP status the error maps to: invalid input is the client's
    /// fault, everything else is an internal failure.
    pub fn status_code(&self) -> (r: u16)
        ensures
            r == (match self {
                SubscribeError::ValidationError(_) => 400u16,
                SubscribeError::UnexpectedError(_) => 500u16,
            }),
    {
        match self {
            SubscribeError::ValidationError(_) => 400,
            SubscribeError::UnexpectedError(_) => 500,
        }
    }
}

/// The storage layer failed while a confirmation token was being saved; the
/// underlying cause is carried as text.
#[derive(Debug)]
pub struct StoreTokenError(pub String);

impl StoreTokenError {
    /// The single message this error shows; the wrapped cause stays in the
    /// diagnostic chain.
    pub fn message(&self) -> (r: String)
        ensures
            r@ == "A database error was encountered while trying to store a subscription token."@,
    {
        String::from_str("A database error was encountered while trying to store a subscription token.")
    }
}

/// The diagnostic text for an error followed by its chain of causes.
pub open spec fn error_chain_text(top: Seq<char>, causes: Seq<Seq<char>>) -> Seq<char>
    decreases causes.len(),
{
    if causes.len() == 0 {
        top + "\n\n"@
    } else {
        error_chain_text(top, causes.drop_last()) + "Caused by:\n\t"@ + causes.last() + "\n"@
    }
}

/// Renders an error and its chain of causes, one cause per line, for logs.
pub fn error_chain_fmt(top: &String, causes: &Vec<String>) -> (r: String)
    ensures
        r@ == error_chain_text(top@, causes.deep_view()),
{
    let ghost cv = causes.deep_view();
    let mut out = top.clone();
    out.append("\n\n");
    let mut i: usize = 0;
    proof {
        assert(cv.take(0) =~= Seq::<Seq<char>>::empty());
    }
    while i < causes.len()
        invariant
            i <= causes@.len(),
            cv == causes.deep_view(),
            cv.len() == causes@.len(),
            forall|j: int| 0 <= j < causes@.len() ==> cv[j] == causes@[j]@,
            out@ == error_chain_text(top@, cv.take(i as int)),
        decreases causes@.len() - i,
    {
        out.append("Caused by:\n\t");
        out.append(causes[i].as_str());
        out.append("\n");
        proof {
            assert(cv.take(i + 1).drop_last() =~= cv.take(i as int));
            assert(cv.take(i + 1).last() == cv[i as int]);
        }
        i += 1;
    }
    proof {
        assert(cv.take(causes@.len() as int) =~= cv);
    }
    out
}

// ---------------------------------------------------------------------------
// Store writes
// ---------------------------------------------------------------------------
/// Inserts a new subscriber row with a fresh random id, the current time, and
/// status `PendingConfirmation`; nothing else in the store moves. Runs inside
/// the caller's transaction so that it commits together with the token.
pub fn insert_subscriber(store: &mut Store, new_subscriber: &NewSubscriber) -> (id: String)
    ensures
        ({
            let rec = final(store).subscribers@.last();
            &&& final(store).subscribers@ == old(store).subscribers@.push(rec)
            &&& rec.id@ == id@
            &&& rec.email@ == new_subscriber.email@
            &&& rec.name@ == new_subscriber.name@
            &&& rec.status is PendingConfirmation
        }),
        final(store).tokens@ == old(store).tokens@,
        final(store).users@ == old(store).users@,
        old(store).wf() ==> final(store).wf(),
{
    let id = crate::store::fresh_uuid();
    let subscribed_at = crate::store::now_unix_seconds();
    let rec = SubscriberRecord {
        id: id.clone(),
        email: String::from_str(new_subscriber.email.as_ref()),
        name: String::from_str(new_subscriber.name.as_ref()),
        subscribed_at,
        status: crate::store::SubscriberStatus::PendingConfirmation,
    };
    store.subscribers.push(rec);
    proof {
        if old(store).wf() {
            assert forall|i: int| 0 <= i < store.tokens@.len() implies has_subscriber(
                store.subscribers@,
                (#[trigger] store.tokens@[i]).subscriber_id@,
            ) by {
                assert(has_subscriber(
                    old(store).subscribers@,
                    old(store).tokens@[i].subscriber_id@,
                ));
                let j = choose|j: int|
                    0 <= j < old(store).subscribers@.len() && (#[trigger] old(
                        store,
                    ).subscribers@[j]).id@ == old(store).tokens@[i].subscriber_id@;
                assert(store.subscribers@[j].id@ == store.tokens@[i].subscriber_id@);
            }
        }
    }
    id
}

/// Inserts the `(subscriber_id, token)` pair; nothing else in the store
/// moves. Runs in the same transaction as the subscriber insert: a subscriber
/// must never be observable without a matching token.
pub fn insert_subscription_token(
    store: &mut Store,
    subscriber_id: &String,
    subscription_token: &String,
) -> (r: Result<(), StoreTokenError>)
    requires
        has_subscriber(old(store).subscribers@, subscriber_id@),
    ensures
        r is Ok,
        ({
            let tok = final(store).tokens@.last();
            &&& final(store).tokens@ == old(store).tokens@.push(tok)
            &&& tok.subscriber_id@ == subscriber_id@
            &&& tok.subscription_token@ == subscription_token@
        }),
        final(store).subscribers@ == old(store).subscribers@,
        final(store).users@ == old(store).users@,
        old(store).wf() ==> final(store).wf(),
{
    store.tokens.push(
        TokenRecord {
            subscriber_id: subscriber_id.clone(),
            subscription_token: subscription_token.clone(),
        },
    );
    proof {
        if old(store).wf() {
            assert forall|i: int| 0 <= i < store.tokens@.len() implies has_subscriber(
                store.subscribers@,
                (#[trigger] store.tokens@[i]).subscriber_id@,
            ) by {
                if i < old(store).tokens@.len() {
                    assert(has_subscriber(
                        old(store).subscribers@,
                        old(store).tokens@[i].subscriber_id@,
                    ));
                } else {
                    assert(store.tokens@[i].subscriber_id@ == subscriber_id@);
                }
            }
        }
    }
    Ok(())
}

// ---------------------------------------------------------------------------
// The confirmation email
// ---------------------------------------------------------------------------
/// The link a new subscriber must visit to confirm the subscription.
pub open spec fn confirmation_link(base_url: Seq<char>, token: Seq<char>) -> Seq<char> {
    base_url + "/subscriptions/confirm?subscription_token="@ + token
}

/// The plain-text body of the confirmation email.
pub open spec fn confirmation_text_body(link: Seq<char>) -> Seq<char> {
    "Welcome to our newsletter!\nVisit "@ + link + " to confirm your subscription."@
}

/// The HTML body of the confirmation email.
pub open spec fn confirmation_html_body(link: Seq<char>) -> Seq<char> {
    "Welcome to our newsletter!\nVisit <a href=\""@ + link + "\">"@ + link
        + "</a> to confirm your subscription."@
}

/// A confirmation email, ready for the mail transport to send.
pub struct ConfirmationEmail {
    pub recipient: SubscriberEmail,
    pub subject: String,
    pub html_body: String,
    pub text_body: String,
}

/// Builds the confirmation email for a freshly stored subscriber: the
/// confirmation link embeds the token, and both bodies embed the link.
pub fn build_confirmation_email(
    base_url: &ApplicationBaseUrl,
    recipient: SubscriberEmail,
    subscription_token: &String,
) -> (r: ConfirmationEmail)
    ensures
        r.recipient == recipient,
        r.subject@ == "Email Confirmation"@,
        ({
            let link = confirmation_link(base_url.0@, subscription_token@);
            &&& r.text_body@ == confirmation_text_body(link)
            &&& r.html_body@ == confirmation_html_body(link)
        }),
{
    let mut link = base_url.0.clone();
    link.append("/subscriptions/confirm?subscription_token=");
    link.append(subscription_token.as_str());

    let mut text_body = String::from_str("Welcome to our newsletter!\nVisit ");
    text_body.append(link.as_str());
    text_body.append(" to confirm your subscription.");

    let mut html_body = String::from_str("Welcome to our newsletter!\nVisit <a href=\"");
    html_body.append(link.as_str());
    html_body.append("\">");
    html_body.append(link.as_str());
    html_body.append("</a> to confirm your subscription.");

    ConfirmationEmail {
        recipient,
        subject: String::from_str("Email Confirmation"),
        html_body,
        text_body,
    }
}

// ---------------------------------------------------------------------------
// The signup request
// ---------------------------------------------------------------------------
/// Handles one signup request: validates the form, persists the subscriber
/// and its confirmation token atomically, and returns the confirmation email
/// for the caller to send. Invalid input is rejected before the store is
/// touched, and then nothing is persisted. The email is sent outside the
/// transaction: if the transport later fails, the subscriber stays pending.
pub fn subscribe(store: &mut Store, form: FormData, base_url: &ApplicationBaseUrl) -> (r: Result<
    ConfirmationEmail,
    SubscribeError,
>)
    requires
        old(store).wf(),
    ensures
        final(store).wf(),
        r is Ok <==> is_valid_name(form.name@) && is_valid_email(form.email@),
        !(is_valid_name(form.name@) && is_valid_email(form.email@)) ==> final(store).subscribers@
            == old(store).subscribers@ && final(store).tokens@ == old(store).tokens@
            && final(store).users@ == old(store).users@,
        !is_valid_name(form.name@) ==> (r matches Err(SubscribeError::ValidationError(m)) && m@
            == name_error_message(form.name@)),
        is_valid_name(form.name@) && !is_valid_email(form.email@) ==> (r matches Err(
            SubscribeError::ValidationError(m),
        ) && m@ == email_error_message(form.email@)),
        r matches Ok(email) ==> ({
            let rec = final(store).subscribers@.last();
            let tok = final(store).tokens@.last();
            let link = confirmation_link(base_url.0@, tok.subscription_token@);
            &&& final(store).subscribers@ == old(store).subscribers@.push(rec)
            &&& final(store).tokens@ == old(store).tokens@.push(tok)
            &&& final(store).users@ == old(store).users@
            &&& rec.email@ == form.email@
            &&& rec.name@ == form.name@
            &&& rec.status is PendingConfirmation
            &&& tok.subscriber_id@ == rec.id@
            &&& email.recipient@ == form.email@
            &&& email.subject@ == "Email Confirmation"@
            &&& email.text_body@ == confirmation_text_body(link)
            &&& email.html_body@ == confirmation_html_body(link)
        }),
{
    let new_subscriber = match NewSubscriber::try_from(form) {
        Ok(n) => n,
        Err(m) => {
            return Err(SubscribeError::ValidationError(m));
        },
    };
    let subscriber_id = insert_subscriber(store, &new_subscriber);
    proof {
        assert(has_subscriber(store.subscribers@, subscriber_id@));
    }
    let subscription_token = crate::store::fresh_uuid();
    let _ = insert_subscription_token(store, &subscriber_id, &subscription_token);
    let email = build_confirmation_email(base_url, new_subscriber.email, &subscription_token);
    Ok(email)
}

} // verus!
