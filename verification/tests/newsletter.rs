use argon2::password_hash::{PasswordHasher, SaltString};
use base64::Engine;

use zero2prod::auth::{basic_authentication, AuthHeaderError, Credentials, Password};
use zero2prod::email_client::{build_send_email_request, send_email_url};
use zero2prod::newsletter::{
    body_from_parts, get_confirmed_subscribers, publish_newsletter, validate_credentials,
    verify_password_hash, BodyData, Content, PublishError,
};
use zero2prod::startup::ApplicationBaseUrl;
use zero2prod::store::{Store, SubscriberRecord, SubscriberStatus};
use zero2prod::subscriptions::{subscribe, FormData};
use zero2prod::subscriptions_confirm::{confirm, Parameters};

fn phc_hash(password: &str) -> String {
    let salt = SaltString::from_b64("gZiV/M1gPc22ElAH/Jh1Hw").unwrap();
    argon2::Argon2::default()
        .hash_password(password.as_bytes(), &salt)
        .unwrap()
        .to_string()
}

fn auth_header(username: &str, password: &str) -> Vec<u8> {
    let encoded =
        base64::engine::general_purpose::STANDARD.encode(format!("{}:{}", username, password));
    format!("Basic {}", encoded).into_bytes()
}

fn newsletter_body() -> BodyData {
    BodyData {
        title: "Newsletter title".to_string(),
        content: Content {
            text: "Newsletter body as plain text".to_string(),
            html: "<p>Newsletter body as HTML</P>".to_string(),
        },
    }
}

/// A store with one publisher, one confirmed subscriber `a@example.com` and
/// one pending subscriber `b@example.com`.
fn seeded_store() -> Store {
    let mut store = Store::new();
    store.add_user(
        "user-1".to_string(),
        "publisher".to_string(),
        phc_hash("everythinghastostartsomewhere"),
    );
    let base = ApplicationBaseUrl("https://newsletter.example.com".to_string());
    for email in ["a@example.com", "b@example.com"] {
        let form = FormData {
            name: "le guin".to_string(),
            email: email.to_string(),
        };
        subscribe(&mut store, form, &base).unwrap();
    }
    let token_a = store.tokens[0].subscription_token.clone();
    assert_eq!(
        confirm(
            &mut store,
            &Parameters {
                subscription_token: token_a
            }
        ),
        200
    );
    store
}

#[test]
fn missing_header_is_rejected() {
    let r = basic_authentication(None);
    assert_eq!(r.err().unwrap(), AuthHeaderError::MissingHeader);
    assert_eq!(
        AuthHeaderError::MissingHeader.message(),
        "The 'Authorization' header was missing"
    );
}

#[test]
fn non_utf8_header_is_rejected() {
    let header = vec![0xffu8, 0xfe, 0x42];
    let r = basic_authentication(Some(&header));
    assert_eq!(r.err().unwrap(), AuthHeaderError::NotUtf8);
}

#[test]
fn non_basic_scheme_is_rejected() {
    let header = b"Bearer some-token".to_vec();
    let r = basic_authentication(Some(&header));
    assert_eq!(r.err().unwrap(), AuthHeaderError::NotBasic);
}

#[test]
fn invalid_base64_is_rejected() {
    let header = b"Basic !!!not-base64!!!".to_vec();
    let r = basic_authentication(Some(&header));
    assert_eq!(r.err().unwrap(), AuthHeaderError::BadBase64);
}

#[test]
fn credentials_that_decode_to_non_utf8_are_rejected() {
    let encoded = base64::engine::general_purpose::STANDARD.encode([0xffu8, 0xfe]);
    let header = format!("Basic {}", encoded).into_bytes();
    let r = basic_authentication(Some(&header));
    assert_eq!(r.err().unwrap(), AuthHeaderError::DecodedNotUtf8);
}

#[test]
fn credentials_without_a_colon_are_rejected() {
    let encoded = base64::engine::general_purpose::STANDARD.encode("alice");
    let header = format!("Basic {}", encoded).into_bytes();
    let r = basic_authentication(Some(&header));
    assert_eq!(r.err().unwrap(), AuthHeaderError::MissingPassword);
}

#[test]
fn credentials_split_on_the_first_colon_only() {
    let header = auth_header("alice", "se:cr:et");
    let c = basic_authentication(Some(&header)).unwrap();
    assert_eq!(c.username, "alice");
    assert_eq!(c.password.expose_secret(), "se:cr:et");
}

#[test]
fn an_empty_username_is_parsed_as_such() {
    let header = auth_header("", "secret");
    let c = basic_authentication(Some(&header)).unwrap();
    assert_eq!(c.username, "");
    assert_eq!(c.password.expose_secret(), "secret");
}

#[test]
fn verify_password_hash_accepts_the_right_password() {
    let phc = phc_hash("everythinghastostartsomewhere");
    let ok = verify_password_hash(
        &phc,
        &Password::new("everythinghastostartsomewhere".to_string()),
    );
    assert!(ok.is_ok());
}

#[test]
fn verify_password_hash_rejects_a_wrong_password() {
    let phc = phc_hash("everythinghastostartsomewhere");
    let r = verify_password_hash(&phc, &Password::new("wrong-password".to_string()));
    match r.err().unwrap() {
        PublishError::AuthError(m) => assert_eq!(m, "Invalid Password"),
        PublishError::UnexpectedError(_) => panic!("expected an auth error"),
    }
}

#[test]
fn a_malformed_stored_hash_fails_like_a_wrong_password() {
    let r = verify_password_hash(
        &"not-a-phc-hash".to_string(),
        &Password::new("anything".to_string()),
    );
    let e = r.err().unwrap();
    // Externally this is indistinguishable from a wrong password: the same
    // error kind, the same uniform message, the same 401 with a challenge;
    // the parse-failure cause survives only internally.
    match &e {
        PublishError::AuthError(m) => {
            assert_eq!(m, "Failed to parse hash in PHC string format.")
        }
        PublishError::UnexpectedError(_) => panic!("expected an auth error"),
    }
    assert_eq!(e.message(), "Authentication failed");
    let head = e.error_response();
    assert_eq!(head.status, 401);
    assert_eq!(head.www_authenticate.unwrap(), "Basic realm=\"publish\"");
}

#[test]
fn an_unknown_username_is_an_auth_error() {
    let store = seeded_store();
    let credentials = Credentials {
        username: "nobody".to_string(),
        password: Password::new("whatever".to_string()),
    };
    match validate_credentials(credentials, &store).err().unwrap() {
        PublishError::AuthError(m) => assert_eq!(m, "Unknown username"),
        PublishError::UnexpectedError(_) => panic!("expected an auth error"),
    }
}

#[test]
fn valid_credentials_resolve_to_the_user_id() {
    let store = seeded_store();
    let credentials = Credentials {
        username: "publisher".to_string(),
        password: Password::new("everythinghastostartsomewhere".to_string()),
    };
    let id = validate_credentials(credentials, &store).unwrap();
    assert_eq!(id, "user-1");
}

#[test]
fn publishing_without_authorization_sends_nothing() {
    let store = seeded_store();
    let r = publish_newsletter(&store, newsletter_body(), None);
    let e = r.err().unwrap();
    match &e {
        PublishError::AuthError(m) => {
            assert_eq!(m, "The 'Authorization' header was missing")
        }
        PublishError::UnexpectedError(_) => panic!("expected an auth error"),
    }
    let head = e.error_response();
    assert_eq!(head.status, 401);
    assert_eq!(head.www_authenticate.unwrap(), "Basic realm=\"publish\"");
}

#[test]
fn publishing_with_wrong_credentials_sends_nothing() {
    let store = seeded_store();
    let header = auth_header("publisher", "not-the-password");
    let r = publish_newsletter(&store, newsletter_body(), Some(&header));
    let e = r.err().unwrap();
    match &e {
        PublishError::AuthError(m) => assert_eq!(m, "Invalid Password"),
        PublishError::UnexpectedError(_) => panic!("expected an auth error"),
    }
    assert_eq!(e.error_response().status, 401);
}

#[test]
fn newsletters_are_delivered_once_per_confirmed_subscriber() {
    let store = seeded_store();
    let header = auth_header("publisher", "everythinghastostartsomewhere");
    let mut dispatch = publish_newsletter(&store, newsletter_body(), Some(&header)).unwrap();
    assert_eq!(dispatch.title, "Newsletter title");
    assert_eq!(dispatch.text, "Newsletter body as plain text");
    assert_eq!(dispatch.html, "<p>Newsletter body as HTML</P>");

    let mut sends: Vec<String> = Vec::new();
    loop {
        let next = dispatch.next_recipient().map(|e| e.as_ref().to_string());
        match next {
            Some(to) => {
                sends.push(to);
                dispatch.record_sent();
            }
            None => break,
        }
    }
    assert_eq!(sends, vec!["a@example.com".to_string()]);
    assert_eq!(dispatch.response_status(), 200);
}

#[test]
fn a_transport_failure_aborts_the_batch() {
    let mut store = seeded_store();
    // Confirm the second subscriber too, so two sends are owed.
    let token_b = store.tokens[1].subscription_token.clone();
    assert_eq!(
        confirm(
            &mut store,
            &Parameters {
                subscription_token: token_b
            }
        ),
        200
    );
    let header = auth_header("publisher", "everythinghastostartsomewhere");
    let mut dispatch = publish_newsletter(&store, newsletter_body(), Some(&header)).unwrap();

    let first = dispatch.next_recipient().map(|e| e.as_ref().to_string());
    assert_eq!(first.unwrap(), "a@example.com");
    // The transport fails this send: the batch aborts.
    let e = dispatch.failure_error();
    dispatch.record_failure();
    assert!(dispatch.next_recipient().is_none());
    match &e {
        PublishError::UnexpectedError(m) => {
            assert_eq!(m, "Failed to send newsletter issue to a@example.com")
        }
        PublishError::AuthError(_) => panic!("expected an internal error"),
    }
    let head = e.error_response();
    assert_eq!(head.status, 500);
    assert!(head.www_authenticate.is_none());
    assert_eq!(dispatch.response_status(), 500);
}

#[test]
fn rows_with_invalid_historical_emails_are_skipped_not_fatal() {
    let mut store = seeded_store();
    store.subscribers.push(SubscriberRecord {
        id: "legacy-row".to_string(),
        email: "not an email".to_string(),
        name: "legacy".to_string(),
        subscribed_at: 0,
        status: SubscriberStatus::Confirmed,
    });

    let listed = get_confirmed_subscribers(&store);
    assert_eq!(listed.len(), 2);
    assert_eq!(listed[0].as_ref().unwrap().as_ref(), "a@example.com");
    assert_eq!(
        listed[1].as_ref().err().unwrap(),
        "not an email is not a valid subscriber email."
    );

    let header = auth_header("publisher", "everythinghastostartsomewhere");
    let mut dispatch = publish_newsletter(&store, newsletter_body(), Some(&header)).unwrap();
    let mut sends: Vec<String> = Vec::new();
    loop {
        let next = dispatch.next_recipient().map(|e| e.as_ref().to_string());
        match next {
            Some(to) => {
                sends.push(to);
                dispatch.record_sent();
            }
            None => break,
        }
    }
    assert_eq!(sends, vec!["a@example.com".to_string()]);
}

#[test]
fn a_body_missing_its_title_is_malformed() {
    let r = body_from_parts(
        None,
        Some("Newsletter body as plain text".to_string()),
        Some("<p>Newsletter body as HTML</P>".to_string()),
    );
    assert!(r.is_none());
}

#[test]
fn a_body_missing_its_content_is_malformed() {
    let r = body_from_parts(Some("Newsletter Title!".to_string()), None, None);
    assert!(r.is_none());
}

#[test]
fn a_complete_body_is_rebuilt_unchanged() {
    let b = body_from_parts(
        Some("Newsletter title".to_string()),
        Some("Newsletter body as plain text".to_string()),
        Some("<p>Newsletter body as HTML</P>".to_string()),
    )
    .unwrap();
    assert_eq!(b.title, "Newsletter title");
    assert_eq!(b.content.text, "Newsletter body as plain text");
    assert_eq!(b.content.html, "<p>Newsletter body as HTML</P>");
}

#[test]
fn the_send_request_carries_the_issue_unchanged() {
    let sender = zero2prod::domain::SubscriberEmail::parse("sender@example.com".to_string())
        .unwrap();
    let receiver = zero2prod::domain::SubscriberEmail::parse("a@example.com".to_string()).unwrap();
    let request = build_send_email_request(
        &sender,
        &receiver,
        &"Newsletter title".to_string(),
        &"<p>Newsletter body as HTML</P>".to_string(),
        &"Newsletter body as plain text".to_string(),
    );
    assert_eq!(request.from, "sender@example.com");
    assert_eq!(request.to, "a@example.com");
    assert_eq!(request.subject, "Newsletter title");
    assert_eq!(request.html_body, "<p>Newsletter body as HTML</P>");
    assert_eq!(request.text_body, "Newsletter body as plain text");

    let url = send_email_url(&"https://transport.example.com".to_string());
    assert_eq!(url, "https://transport.example.com/email");
}
