//! The subscriber store: the rows the service persists — subscribers, their
//! confirmation tokens, and publisher accounts — modelled as plain records so
//! that every state transition of the subscriber lifecycle is checked. The
//! surrounding application maps these records onto its relational database.

use vstd::prelude::*;

verus! {

/// A subscriber's lifecycle state: it only ever moves from
/// `PendingConfirmation` to `Confirmed`, never back.
#[derive(Clone, Copy, PartialEq, Eq, Structural, Debug)]
pub enum SubscriberStatus {
    PendingConfirmation,
    Confirmed,
}

/// One persisted subscriber row. The email and name are kept as raw strings:
/// historical rows may predate today's validation rules, so readers must
/// re-validate.
pub struct SubscriberRecord {
    pub id: String,
    pub email: String,
    pub name: String,
    pub subscribed_at: i64,
    pub status: SubscriberStatus,
}

/// One persisted confirmation-token row; it exists only while its owning
/// subscriber exists, and is never mutated.
pub struct TokenRecord {
    pub subscriber_id: String,
    pub subscription_token: String,
}

/// One publisher account; read-only for this crate.
pub struct UserRecord {
    pub user_id: String,
    pub username: String,
    pub password_hash: String,
}

/// The persisted state of the service.
pub struct Store {
    pub subscribers: Vec<SubscriberRecord>,
    pub tokens: Vec<TokenRecord>,
    pub users: Vec<UserRecord>,
}

/// The subscriber id a token resolves to: the first row carrying the token.
pub open spec fn resolve_token_spec(tokens: Seq<TokenRecord>, token: Seq<char>) -> Option<
    Seq<char>,
>
    decreases tokens.len(),
{
    if tokens.len() == 0 {
        None
    } else if tokens[0].subscription_token@ == token {
        Some(tokens[0].subscriber_id@)
    } else {
        resolve_token_spec(tokens.drop_first(), token)
    }
}

/// The first user row carrying the username, if any.
pub open spec fn find_user_spec(users: Seq<UserRecord>, username: Seq<char>) -> Option<UserRecord>
    decreases users.len(),
{
    if users.len() == 0 {
        None
    } else if users[0].username@ == username {
        Some(users[0])
    } else {
        find_user_spec(users.drop_first(), username)
    }
}

/// The subscriber rows after confirming `id`: every row with that id becomes
/// `Confirmed`, with its other columns untouched; every other row is left as
/// it was.
pub open spec fn confirm_all(subs: Seq<SubscriberRecord>, id: Seq<char>) -> Seq<SubscriberRecord> {
    Seq::new(
        subs.len(),
        |i: int|
            if subs[i].id@ == id {
                SubscriberRecord {
                    id: subs[i].id,
                    email: subs[i].email,
                    name: subs[i].name,
                    subscribed_at: subs[i].subscribed_at,
                    status: SubscriberStatus::Confirmed,
                }
            } else {
                subs[i]
            },
    )
}

/// The emails of the confirmed rows, in row order, valid or not.
pub open spec fn confirmed_emails(subs: Seq<SubscriberRecord>) -> Seq<Seq<char>>
    decreases subs.len(),
{
    if subs.len() == 0 {
        Seq::empty()
    } else {
        let init = confirmed_emails(subs.drop_last());
        if subs.last().status is Confirmed {
            init.push(subs.last().email@)
        } else {
            init
        }
    }
}

/// The syntactically valid addresses among `emails`, in order.
pub open spec fn valid_emails(emails: Seq<Seq<char>>) -> Seq<Seq<char>>
    decreases emails.len(),
{
    if emails.len() == 0 {
        Seq::empty()
    } else {
        let init = valid_emails(emails.drop_last());
        if crate::domain::is_valid_email(emails.last()) {
            init.push(emails.last())
        } else {
            init
        }
    }
}

/// The addresses a newsletter issue goes out to: the valid emails of the
/// confirmed subscribers, in row order.
pub open spec fn confirmed_valid_emails(subs: Seq<SubscriberRecord>) -> Seq<Seq<char>> {
    valid_emails(confirmed_emails(subs))
}

/// Everything `valid_emails` keeps is a syntactically valid address: a
/// dispatch never owes a send to an address that does not validate.
pub proof fn lemma_valid_emails_are_valid(emails: Seq<Seq<char>>, i: int)
    requires
        0 <= i < valid_emails(emails).len(),
    ensures
        crate::domain::is_valid_email(valid_emails(emails)[i]),
    decreases emails.len(),
{
    if emails.len() > 0 {
        let init = valid_emails(emails.drop_last());
        if crate::domain::is_valid_email(emails.last()) {
            if i < init.len() {
                lemma_valid_emails_are_valid(emails.drop_last(), i);
            }
        } else {
            lemma_valid_emails_are_valid(emails.drop_last(), i);
        }
    }
}

/// Whether some subscriber row carries the id.
pub open spec fn has_subscriber(subs: Seq<SubscriberRecord>, id: Seq<char>) -> bool {
    exists|j: int| 0 <= j < subs.len() && (#[trigger] subs[j]).id@ == id
}

impl Store {
    /// Every token row is owned by an existing subscriber row.
    pub open spec fn wf(&self) -> bool {
        forall|i: int|
            0 <= i < self.tokens@.len() ==> has_subscriber(
                self.subscribers@,
                (#[trigger] self.tokens@[i]).subscriber_id@,
            )
    }

    /// An empty store.
    pub fn new() -> (r: Store)
        ensures
            r.subscribers@.len() == 0,
            r.tokens@.len() == 0,
            r.users@.len() == 0,
            r.wf(),
    {
        Store { subscribers: Vec::new(), tokens: Vec::new(), users: Vec::new() }
    }

    /// Adds a publisher account. Provisioning is outside the core workflows;
    /// this exists so that a deployment (or a test) can seed the users table.
    pub fn add_user(&mut self, user_id: String, username: String, password_hash: String)
        ensures
            final(self).users@ == old(self).users@.push(
                UserRecord { user_id, username, password_hash },
            ),
            final(self).subscribers@ == old(self).subscribers@,
            final(self).tokens@ == old(self).tokens@,
            old(self).wf() ==> final(self).wf(),
    {
        self.users.push(UserRecord { user_id, username, password_hash });
        proof {
            if old(self).wf() {
                assert forall|i: int| 0 <= i < self.tokens@.len() implies has_subscriber(
                    self.subscribers@,
                    (#[trigger] self.tokens@[i]).subscriber_id@,
                ) by {
                    assert(has_subscriber(
                        old(self).subscribers@,
                        old(self).tokens@[i].subscriber_id@,
                    ));
                }
            }
        }
    }

    /// Looks a publisher up by username; returns its id and stored password
    /// hash.
    pub fn find_user_by_username(&self, username: &String) -> (r: Option<(String, String)>)
        ensures
            match find_user_spec(self.users@, username@) {
                Some(u) => r matches Some(p) && p.0@ == u.user_id@ && p.1@ == u.password_hash@,
                None => r is None,
            },
    {
        let n = self.users.len();
        let mut i: usize = 0;
        proof {
            assert(self.users@.skip(0) =~= self.users@);
        }
        while i < n
            invariant
                i <= n,
                n == self.users@.len(),
                find_user_spec(self.users@, username@) == find_user_spec(
                    self.users@.skip(i as int),
                    username@,
                ),
            decreases n - i,
        {
            proof {
                assert(self.users@.skip(i as int).drop_first() =~= self.users@.skip(i as int + 1));
                assert(self.users@.skip(i as int)[0] == self.users@[i as int]);
            }
            let u = &self.users[i];
            if u.username.eq(username) {
                return Some((u.user_id.clone(), u.password_hash.clone()));
            }
            i += 1;
        }
        proof {
            assert(self.users@.skip(n as int) =~= Seq::<UserRecord>::empty());
        }
        None
    }
}

/// Relies on `uuid::Uuid::new_v4` and the `Display` impl of `uuid::Uuid`: a
/// fresh random version-4 UUID, rendered in the hyphenated form, which is 36
/// characters long. The value is random; nothing more is promised of it.
#[verifier::external_body]
pub(crate) fn fresh_uuid() -> (r: String)
    ensures
        r@.len() == 36,
{
    uuid::Uuid::new_v4().to_string()
}

/// Relies on `chrono::Utc::now`: the current time, as whole seconds of the
/// Unix epoch. The value depends on the clock; nothing is promised of it.
#[verifier::external_body]
pub(crate) fn now_unix_seconds() -> i64 {
    chrono::Utc::now().timestamp()
}

} // verus!
