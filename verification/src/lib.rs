//! Core of an email-newsletter service: validated subscriber identities, the
//! subscriber lifecycle (pending confirmation until a confirmation token is
//! redeemed), HTTP Basic credential verification against stored password
//! hashes, and fan-out dispatch of newsletter issues to confirmed subscribers.

pub mod auth;
pub mod domain;
pub mod email_client;
pub mod newsletter;
pub mod startup;
pub mod store;
pub mod subscriptions;
pub mod subscriptions_confirm;
