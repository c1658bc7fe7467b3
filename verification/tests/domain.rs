use zero2prod::domain::{NewSubscriber, SubscriberEmail, SubscriberName};
use zero2prod::subscriptions::FormData;

#[test]
fn valid_email_round_trips() {
    let email = SubscriberEmail::parse("ursula_le_guin@gmail.com".to_string()).unwrap();
    assert_eq!(email.as_ref(), "ursula_le_guin@gmail.com");
}

#[test]
fn empty_email_is_rejected() {
    let r = SubscriberEmail::parse("".to_string());
    assert_eq!(
        r.err().unwrap(),
        " is not a valid subscriber email.".to_string()
    );
}

#[test]
fn email_without_at_is_rejected() {
    assert!(SubscriberEmail::parse("ursuladomain.com".to_string()).is_err());
}

#[test]
fn email_without_local_part_is_rejected() {
    assert!(SubscriberEmail::parse("@domain.com".to_string()).is_err());
}

#[test]
fn email_without_domain_is_rejected() {
    assert!(SubscriberEmail::parse("ursula@".to_string()).is_err());
}

#[test]
fn email_with_two_ats_is_rejected() {
    assert!(SubscriberEmail::parse("ursula@le@guin.com".to_string()).is_err());
}

#[test]
fn email_with_space_is_rejected() {
    assert!(SubscriberEmail::parse("ursula le guin@domain.com".to_string()).is_err());
}

#[test]
fn email_domain_may_not_start_or_end_with_dot() {
    assert!(SubscriberEmail::parse("ursula@.domain.com".to_string()).is_err());
    assert!(SubscriberEmail::parse("ursula@domain.com.".to_string()).is_err());
}

#[test]
fn valid_name_round_trips() {
    let name = SubscriberName::parse("Ursula K. Le Guin".to_string()).unwrap();
    assert_eq!(name.as_ref(), "Ursula K. Le Guin");
}

#[test]
fn empty_name_is_rejected() {
    let r = SubscriberName::parse("".to_string());
    assert_eq!(
        r.err().unwrap(),
        " is not a valid subscriber name.".to_string()
    );
}

#[test]
fn a_256_grapheme_long_name_is_valid() {
    let name = "a".repeat(256);
    assert!(SubscriberName::parse(name).is_ok());
}

#[test]
fn a_name_longer_than_256_graphemes_is_rejected() {
    let name = "a".repeat(257);
    assert!(SubscriberName::parse(name).is_err());
}

#[test]
fn grapheme_clusters_count_once_even_over_several_chars() {
    // 256 copies of "e" followed by a combining acute accent: 512 chars but
    // 256 grapheme clusters, so the name is exactly at the limit.
    let name = "e\u{301}".repeat(256);
    assert_eq!(name.chars().count(), 512);
    assert!(SubscriberName::parse(name).is_ok());
    let too_long = "e\u{301}".repeat(257);
    assert!(SubscriberName::parse(too_long).is_err());
}

#[test]
fn names_with_forbidden_characters_are_rejected() {
    for c in ['/', '(', ')', '"', '<', '>', '\\', '{', '}'] {
        let name = format!("name {} name", c);
        assert!(SubscriberName::parse(name).is_err());
    }
}

#[test]
fn try_from_accepts_a_valid_form() {
    let form = FormData {
        name: "le guin".to_string(),
        email: "ursula_le_guin@gmail.com".to_string(),
    };
    let n = NewSubscriber::try_from(form).unwrap();
    assert_eq!(n.name.as_ref(), "le guin");
    assert_eq!(n.email.as_ref(), "ursula_le_guin@gmail.com");
}

#[test]
fn try_from_reports_the_name_error_first() {
    let form = FormData {
        name: "".to_string(),
        email: "not-an-email".to_string(),
    };
    let m = NewSubscriber::try_from(form).err().unwrap();
    assert_eq!(m, " is not a valid subscriber name.".to_string());
}

#[test]
fn try_from_rejects_an_invalid_email() {
    let form = FormData {
        name: "le guin".to_string(),
        email: "not-an-email".to_string(),
    };
    let m = NewSubscriber::try_from(form).err().unwrap();
    assert_eq!(m, "not-an-email is not a valid subscriber email.".to_string());
}
