//! Publishing a newsletter issue: authenticate the publisher, load the
//! confirmed subscribers, and dispatch one send per confirmed recipient —
//! skipping rows whose stored address no longer validates, and aborting the
//! batch on the first transport failure.

use vstd::prelude::*;
use vstd::string::*;

use crate::auth::{basic_auth_spec, basic_authentication, header_bytes, Credentials, Password};
use crate::domain::{email_error_message, is_valid_email, SubscriberEmail};
use crate::store::{
    confirmed_emails, confirmed_valid_emails, find_user_spec, Store, SubscriberRecord,
    SubscriberStatus,
};

verus! {

/// A newsletter issue as the publisher posts it.
pub struct BodyData {
    pub title: String,
    pub content: Content,
}

/// The two renderings of the issue's body.
pub struct Content {
    pub text: String,
    pub html: String,
}

/// Rebuilds a request body from its optional parts. Any missing part means
/// the request was malformed: nothing is returned, and neither the store nor
/// the transport is ever consulted for such a request.
pub fn body_from_parts(title: Option<String>, text: Option<String>, html: Option<String>) -> (r:
    Option<BodyData>)
    ensures
        r is Some <==> (title is Some && text is Some && html is Some),
        r matches Some(b) ==> b.title@ == title.unwrap()@ && b.content.text@ == text.unwrap()@
            && b.content.html@ == html.unwrap()@,
{
    match (title, text, html) {
        (Some(title), Some(text), Some(html)) => Some(
            BodyData { title, content: Content { text, html } },
        ),
        _ => None,
    }
}

/// Why publishing failed: the caller could not be authenticated, or some
/// collaborator failed; the cause is carried as text.
#[derive(Debug)]
pub enum PublishError {
    AuthError(String),
    UnexpectedError(String),
}

/// The status line and challenge header of an error response.
pub struct ResponseHead {
    pub status: u16,
    pub www_authenticate: Option<String>,
}

impl PublishError {
    /// The message the error shows: every authentication failure reads the
    /// same, whatever its internal cause; an unexpected error is transparent
    /// about its own.
    pub fn message(&self) -> (r: String)
        ensures
            r@ == (match self {
                PublishError::AuthError(_) => "Authentication failed"@,
                PublishError::UnexpectedError(m) => m@,
            }),
    {
        match self {
            PublishError::AuthError(_) => String::from_str("Authentication failed"),
            PublishError::UnexpectedError(m) => m.clone(),
        }
    }

    /// The HTTP response the error maps to: authentication failures are
    /// rejected with 401 and a `WWW-Authenticate` challenge; everything else
    /// is an internal failure.
    pub fn error_response(&self) -> (r: ResponseHead)
        ensures
            match self {
                PublishError::UnexpectedError(_) => r.status == 500 && r.www_authenticate is None,
                PublishError::AuthError(_) => r.status == 401 && (r.www_authenticate matches Some(
                    h,
                ) && h@ == "Basic realm=\"publish\""@),
            },
    {
        match self {
            PublishError::UnexpectedError(_) => ResponseHead {
                status: 500,
                www_authenticate: None,
            },
            PublishError::AuthError(_) => ResponseHead {
                status: 401,
                www_authenticate: Some(String::from_str("Basic realm=\"publish\"")),
            },
        }
    }
}

// ---------------------------------------------------------------------------
// Credential verification
// ---------------------------------------------------------------------------
/// The verdict of verifying a password against a PHC-format hash string:
/// nothing when the string does not parse as a PHC hash, otherwise whether
/// the password matches.
pub uninterp spec fn argon2_verified(phc: Seq<char>, password: Seq<char>) -> Option<bool>;

/// Relies on `argon2::PasswordHash::new` to parse a PHC-format hash string,
/// and on `Argon2::verify_password` (of `argon2::PasswordVerifier`, with the
/// default Argon2 context) to check a password against it. The algorithm,
/// parameters and salt come from the hash string itself, so the verdict
/// depends on the two arguments alone.
#[verifier::external_body]
fn verify_against_phc(expected_password_hash: &str, password_candidate: &str) -> (r: Option<bool>)
    ensures
        r == argon2_verified(expected_password_hash@, password_candidate@),
{
    match argon2::PasswordHash::new(expected_password_hash) {
        Ok(parsed) => match argon2::PasswordVerifier::verify_password(
            &argon2::Argon2::default(),
            password_candidate.as_bytes(),
            &parsed,
        ) {
            Ok(()) => Some(true),
            Err(_) => Some(false),
        },
        Err(_) => None,
    }
}

/// Checks a candidate password against a stored PHC-format hash. A wrong
/// password and a malformed stored hash fail with the same authentication
/// error kind, so the two stay externally indistinguishable; which of them
/// happened survives only in the internal diagnostic cause. The hashing work
/// is deliberately expensive, so callers run this off the request-handling
/// scheduler.
pub fn verify_password_hash(expected_password_hash: &String, password_candidate: &Password) -> (r:
    Result<(), PublishError>)
    ensures
        match argon2_verified(expected_password_hash@, password_candidate@) {
            Some(true) => r is Ok,
            Some(false) => (r matches Err(PublishError::AuthError(m)) && m@
                == "Invalid Password"@),
            None => (r matches Err(PublishError::AuthError(m)) && m@
                == "Failed to parse hash in PHC string format."@),
        },
{
    match verify_against_phc(expected_password_hash.as_str(), password_candidate.expose_secret()) {
        Some(true) => Ok(()),
        Some(false) => Err(PublishError::AuthError(String::from_str("Invalid Password"))),
        None => Err(
            PublishError::AuthError(
                String::from_str("Failed to parse hash in PHC string format."),
            ),
        ),
    }
}

/// Verifies parsed credentials against the users table and returns the
/// publisher's id. Every failure — unknown username, wrong password, or a
/// stored hash that does not parse — is the same authentication error kind
/// to the caller; an unknown username still verifies the password against a
/// fixed fallback hash first, so that it costs the same hashing work as a
/// wrong password and the two stay indistinguishable in time as well.
pub fn validate_credentials(credentials: Credentials, store: &Store) -> (r: Result<
    String,
    PublishError,
>)
    ensures
        match find_user_spec(store.users@, credentials.username@) {
            None => (r matches Err(PublishError::AuthError(m)) && m@ == "Unknown username"@),
            Some(u) => match argon2_verified(u.password_hash@, credentials.password@) {
                Some(true) => (r matches Ok(id) && id@ == u.user_id@),
                Some(false) => (r matches Err(PublishError::AuthError(m)) && m@
                    == "Invalid Password"@),
                None => (r matches Err(PublishError::AuthError(m)) && m@
                    == "Failed to parse hash in PHC string format."@),
            },
        },
{
    match store.find_user_by_username(&credentials.username) {
        Some((user_id, expected_password_hash)) => {
            match verify_password_hash(&expected_password_hash, &credentials.password) {
                Ok(()) => Ok(user_id),
                Err(e) => Err(e),
            }
        },
        None => {
            let fallback = String::from_str(
                "$argon2id$v=19$m=15000,t=2,p=1$gZiV/M1gPc22ElAH/Jh1Hw$CWOrkoo7oJBQ/iyh7uJ0LO2aLEfrHwTWllSAxT0zRno",
            );
            let _ = verify_against_phc(fallback.as_str(), credentials.password.expose_secret());
            Err(PublishError::AuthError(String::from_str("Unknown username")))
        },
    }
}

// ---------------------------------------------------------------------------
// Confirmed recipients
// ---------------------------------------------------------------------------
/// Reads every confirmed subscriber's stored email, re-validated: historical
/// rows may predate today's validation rules, so each row comes back as
/// either a usable address or the rejection it earns today.
pub fn get_confirmed_subscribers(store: &Store) -> (r: Vec<Result<SubscriberEmail, String>>)
    ensures
        ({
            let emails = confirmed_emails(store.subscribers@);
            &&& r@.len() == emails.len()
            &&& forall|i: int|
                0 <= i < emails.len() ==> match #[trigger] r@[i] {
                    Ok(e) => is_valid_email(emails[i]) && e@ == emails[i],
                    Err(m) => !is_valid_email(emails[i]) && m@ == email_error_message(emails[i]),
                }
        }),
{
    let n = store.subscribers.len();
    let mut out: Vec<Result<SubscriberEmail, String>> = Vec::new();
    let mut i: usize = 0;
    proof {
        assert(store.subscribers@.take(0) =~= Seq::<SubscriberRecord>::empty());
    }
    while i < n
        invariant
            i <= n,
            n == store.subscribers@.len(),
            out@.len() == confirmed_emails(store.subscribers@.take(i as int)).len(),
            forall|j: int|
                0 <= j < out@.len() ==> match #[trigger] out@[j] {
                    Ok(e) => is_valid_email(confirmed_emails(store.subscribers@.take(i as int))[j])
                        && e@ == confirmed_emails(store.subscribers@.take(i as int))[j],
                    Err(m) => !is_valid_email(
                        confirmed_emails(store.subscribers@.take(i as int))[j],
                    ) && m@ == email_error_message(
                        confirmed_emails(store.subscribers@.take(i as int))[j],
                    ),
                },
        decreases n - i,
    {
        proof {
            assert(store.subscribers@.take(i as int + 1).drop_last() =~= store.subscribers@.take(
                i as int,
            ));
            assert(store.subscribers@.take(i as int + 1).last() == store.subscribers@[i as int]);
        }
        if store.subscribers[i].status == SubscriberStatus::Confirmed {
            out.push(SubscriberEmail::parse(store.subscribers[i].email.clone()));
        }
        i += 1;
    }
    proof {
        assert(store.subscribers@.take(n as int) =~= store.subscribers@);
    }
    out
}

// ---------------------------------------------------------------------------
// The dispatch of one issue
// ---------------------------------------------------------------------------
/// One newsletter issue in flight: the recipients owed a send, in store
/// order, how many have been served, and whether a transport failure aborted
/// the batch. The caller performs each send and reports its outcome back.
pub struct Dispatch {
    pub recipients: Vec<SubscriberEmail>,
    pub sent: usize,
    pub failed: bool,
    pub title: String,
    pub html: String,
    pub text: String,
}

impl Dispatch {
    /// The address owed the next send: the first recipient not yet served,
    /// or nothing once the batch is done — or aborted.
    pub open spec fn spec_next(&self) -> Option<Seq<char>> {
        if !self.failed && self.sent < self.recipients@.len() {
            Some(self.recipients@[self.sent as int]@)
        } else {
            None
        }
    }

    /// Hands out the next recipient, if a send is still owed.
    pub fn next_recipient(&self) -> (r: Option<&SubscriberEmail>)
        ensures
            match self.spec_next() {
                Some(e) => (r matches Some(x) && x@ == e),
                None => r is None,
            },
    {
        if !self.failed && self.sent < self.recipients.len() {
            Some(&self.recipients[self.sent])
        } else {
            None
        }
    }

    /// Records that the transport accepted the current send; the batch moves
    /// to the next recipient.
    pub fn record_sent(&mut self)
        requires
            old(self).spec_next() is Some,
        ensures
            final(self).sent == old(self).sent + 1,
            final(self).recipients@ == old(self).recipients@,
            final(self).failed == old(self).failed,
            final(self).title@ == old(self).title@,
            final(self).html@ == old(self).html@,
            final(self).text@ == old(self).text@,
    {
        let _n = self.recipients.len();
        self.sent = self.sent + 1;
    }

    /// Records that the transport failed the current send: the batch aborts,
    /// and no further recipient is ever handed out.
    pub fn record_failure(&mut self)
        ensures
            final(self).failed,
            final(self).sent == old(self).sent,
            final(self).recipients@ == old(self).recipients@,
            final(self).title@ == old(self).title@,
            final(self).html@ == old(self).html@,
            final(self).text@ == old(self).text@,
            final(self).spec_next() is None,
    {
        self.failed = true;
    }

    /// The error surfaced when the current send failed, naming the failing
    /// recipient.
    pub fn failure_error(&self) -> (r: PublishError)
        requires
            self.sent < self.recipients@.len(),
        ensures
            (r matches PublishError::UnexpectedError(m) && m@
                == "Failed to send newsletter issue to "@ + self.recipients@[self.sent as int]@),
    {
        let mut m = String::from_str("Failed to send newsletter issue to ");
        m.append(self.recipients[self.sent].as_ref());
        PublishError::UnexpectedError(m)
    }

    /// The HTTP status of a finished batch: 500 after an abort, 200 when
    /// every recipient was served.
    pub fn response_status(&self) -> (r: u16)
        ensures
            r == (if self.failed {
                500u16
            } else {
                200u16
            }),
    {
        if self.failed {
            500
        } else {
            200
        }
    }
}

/// After a transport failure nothing further is attempted: an aborted batch
/// never hands out another recipient, whatever else its state holds.
pub proof fn lemma_abort_stops_dispatch(d: Dispatch)
    requires
        d.failed,
    ensures
        d.spec_next() is None,
{
}

/// Each subscriber row contributes to a dispatch exactly its due: a confirmed
/// row with a valid address contributes one send, to its own address and in
/// row order; a pending or invalid row contributes none.
pub proof fn lemma_one_send_per_confirmed(subs: Seq<SubscriberRecord>, rec: SubscriberRecord)
    ensures
        confirmed_valid_emails(subs.push(rec)) == (if rec.status is Confirmed && is_valid_email(
            rec.email@,
        ) {
            confirmed_valid_emails(subs).push(rec.email@)
        } else {
            confirmed_valid_emails(subs)
        }),
{
    assert(subs.push(rec).drop_last() =~= subs);
    assert(subs.push(rec).last() == rec);
    if rec.status is Confirmed {
        assert(confirmed_emails(subs.push(rec)) == confirmed_emails(subs).push(rec.email@));
        assert(confirmed_emails(subs).push(rec.email@).drop_last() =~= confirmed_emails(subs));
    } else {
        assert(confirmed_emails(subs.push(rec)) == confirmed_emails(subs));
    }
}

/// Handles one publish request up to the sends themselves: authenticates the
/// caller and plans the dispatch. Any authentication failure is rejected
/// before a single recipient is looked at, so it triggers no send at all;
/// success yields a batch owing exactly one send per confirmed subscriber
/// whose stored address still validates, in store order.
pub fn publish_newsletter(store: &Store, body: BodyData, authorization: Option<&Vec<u8>>) -> (r:
    Result<Dispatch, PublishError>)
    ensures
        match basic_auth_spec(header_bytes(authorization)) {
            Err(e) => (r matches Err(PublishError::AuthError(m)) && m@ == e.spec_message()),
            Ok(creds) => match find_user_spec(store.users@, creds.0) {
                None => (r matches Err(PublishError::AuthError(m)) && m@ == "Unknown username"@),
                Some(u) => match argon2_verified(u.password_hash@, creds.1) {
                    Some(true) => (r matches Ok(d) && {
                        let due = confirmed_valid_emails(store.subscribers@);
                        &&& d.recipients@.len() == due.len()
                        &&& (forall|i: int|
                            0 <= i < due.len() ==> (#[trigger] d.recipients@[i])@ == due[i])
                        &&& d.sent == 0
                        &&& !d.failed
                        &&& d.title@ == body.title@
                        &&& d.html@ == body.content.html@
                        &&& d.text@ == body.content.text@
                    }),
                    Some(false) => (r matches Err(PublishError::AuthError(m)) && m@
                        == "Invalid Password"@),
                    None => (r matches Err(PublishError::AuthError(m)) && m@
                        == "Failed to parse hash in PHC string format."@),
                },
            },
        },
{
    let credentials = match basic_authentication(authorization) {
        Ok(c) => c,
        Err(e) => {
            return Err(PublishError::AuthError(e.message()));
        },
    };
    let _user_id = match validate_credentials(credentials, store) {
        Ok(id) => id,
        Err(e) => {
            return Err(e);
        },
    };
    let n = store.subscribers.len();
    let mut recipients: Vec<SubscriberEmail> = Vec::new();
    let mut i: usize = 0;
    proof {
        assert(store.subscribers@.take(0) =~= Seq::<SubscriberRecord>::empty());
    }
    while i < n
        invariant
            i <= n,
            n == store.subscribers@.len(),
            recipients@.len() == confirmed_valid_emails(store.subscribers@.take(i as int)).len(),
            forall|j: int|
                0 <= j < recipients@.len() ==> (#[trigger] recipients@[j])@
                    == confirmed_valid_emails(store.subscribers@.take(i as int))[j],
        decreases n - i,
    {
        proof {
            assert(store.subscribers@.take(i as int + 1) =~= store.subscribers@.take(
                i as int,
            ).push(store.subscribers@[i as int]));
            lemma_one_send_per_confirmed(
                store.subscribers@.take(i as int),
                store.subscribers@[i as int],
            );
        }
        if store.subscribers[i].status == SubscriberStatus::Confirmed {
            match SubscriberEmail::parse(store.subscribers[i].email.clone()) {
                Ok(email) => {
                    recipients.push(email);
                },
                Err(_) => {
                    // The stored address no longer validates: skip this row
                    // without aborting the batch.
                },
            }
        }
        i += 1;
    }
    proof {
        assert(store.subscribers@.take(n as int) =~= store.subscribers@);
    }
    Ok(
        Dispatch {
            recipients,
            sent: 0,
            failed: false,
            title: body.title,
            html: body.content.html,
            text: body.content.text,
        },
    )
}

} // verus!
