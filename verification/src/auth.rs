//! HTTP Basic credential extraction: parses an `Authorization` header into a
//! username and a password, split on the first colon only.

use vstd::prelude::*;
use vstd::string::*;
use vstd::utf8::{decode_utf8, valid_utf8};

verus! {

/// A password in flight: held only for the duration of one authentication
/// check. The type offers no rendering of any kind; the secret is read only
/// at the point of use.
pub struct Password {
    secret: String,
}

impl View for Password {
    type V = Seq<char>;

    closed spec fn view(&self) -> Seq<char> {
        self.secret@
    }
}

impl Password {
    /// Wraps a secret.
    pub fn new(secret: String) -> (r: Password)
        ensures
            r@ == secret@,
    {
        Password { secret }
    }

    /// Reads the secret, at the point of use only.
    pub fn expose_secret(&self) -> (r: &str)
        ensures
            r@ == self@,
    {
        self.secret.as_str()
    }
}

/// Credentials parsed from one request, held only for one check.
pub struct Credentials {
    pub username: String,
    pub password: Password,
}

/// Why an `Authorization` header was rejected.
#[derive(Clone, Copy, PartialEq, Eq, Structural, Debug)]
pub enum AuthHeaderError {
    MissingHeader,
    NotUtf8,
    NotBasic,
    BadBase64,
    DecodedNotUtf8,
    MissingPassword,
}

impl AuthHeaderError {
    /// The human-readable cause carried to diagnostics.
    pub open spec fn spec_message(self) -> Seq<char> {
        match self {
            AuthHeaderError::MissingHeader => "The 'Authorization' header was missing"@,
            AuthHeaderError::NotUtf8 => "The 'Authorization' header was not a valid UTF8 string."@,
            AuthHeaderError::NotBasic => "The authorization scheme was not 'Basic'."@,
            AuthHeaderError::BadBase64 => "Failed to base64-decode 'Basic' credentials."@,
            AuthHeaderError::DecodedNotUtf8 => "The decoded credential string is not valid UTF8."@,
            AuthHeaderError::MissingPassword => "A password must be provided in 'Basic' auth."@,
        }
    }

    /// The human-readable cause, as text.
    pub fn message(&self) -> (r: String)
        ensures
            r@ == self.spec_message(),
    {
        match self {
            AuthHeaderError::MissingHeader => String::from_str(
                "The 'Authorization' header was missing",
            ),
            AuthHeaderError::NotUtf8 => String::from_str(
                "The 'Authorization' header was not a valid UTF8 string.",
            ),
            AuthHeaderError::NotBasic => String::from_str(
                "The authorization scheme was not 'Basic'.",
            ),
            AuthHeaderError::BadBase64 => String::from_str(
                "Failed to base64-decode 'Basic' credentials.",
            ),
            AuthHeaderError::DecodedNotUtf8 => String::from_str(
                "The decoded credential string is not valid UTF8.",
            ),
            AuthHeaderError::MissingPassword => String::from_str(
                "A password must be provided in 'Basic' auth.",
            ),
        }
    }
}

/// What the standard-alphabet base64 decoding of a string yields, if it
/// decodes at all.
pub uninterp spec fn base64_standard_decoded(s: Seq<char>) -> Option<Seq<u8>>;

/// Relies on `base64::Engine::decode` with the
/// `base64::engine::general_purpose::STANDARD` engine: whether and to what a
/// string base64-decodes depends on its characters alone.
#[verifier::external_body]
fn base64_decode_standard(s: &str) -> (r: Option<Vec<u8>>)
    ensures
        match r {
            Some(v) => base64_standard_decoded(s@) == Some(v@),
            None => base64_standard_decoded(s@) is None,
        },
{
    match base64::Engine::decode(&base64::engine::general_purpose::STANDARD, s) {
        Ok(v) => Some(v),
        Err(_) => None,
    }
}

/// Relies on `core::str::from_utf8`: it succeeds exactly on valid UTF-8 and
/// yields its decoding.
#[verifier::external_body]
fn utf8_to_string(bytes: &[u8]) -> (r: Option<String>)
    ensures
        r is Some <==> valid_utf8(bytes@),
        r matches Some(s) ==> s@ == decode_utf8(bytes@),
{
    match core::str::from_utf8(bytes) {
        Ok(s) => Some(s.to_owned()),
        Err(_) => None,
    }
}

/// The position of the first colon in `s`, or -1 when there is none.
pub open spec fn first_colon(s: Seq<char>) -> int
    decreases s.len(),
{
    if s.len() == 0 {
        -1
    } else if s[0] == ':' {
        0
    } else {
        let r = first_colon(s.drop_first());
        if r < 0 {
            -1
        } else {
            r + 1
        }
    }
}

proof fn lemma_first_colon_none(s: Seq<char>)
    requires
        forall|j: int| 0 <= j < s.len() ==> s[j] != ':',
    ensures
        first_colon(s) == -1,
    decreases s.len(),
{
    if s.len() > 0 {
        assert forall|j: int| 0 <= j < s.drop_first().len() implies s.drop_first()[j] != ':' by {
            assert(s.drop_first()[j] == s[j + 1]);
        }
        lemma_first_colon_none(s.drop_first());
    }
}

proof fn lemma_first_colon_at(s: Seq<char>, k: int)
    requires
        0 <= k < s.len(),
        s[k] == ':',
        forall|j: int| 0 <= j < k ==> s[j] != ':',
    ensures
        first_colon(s) == k,
    decreases s.len(),
{
    if k > 0 {
        assert(s[0] != ':');
        assert(s.drop_first()[k - 1] == s[k]);
        assert forall|j: int| 0 <= j < k - 1 implies s.drop_first()[j] != ':' by {
            assert(s.drop_first()[j] == s[j + 1]);
        }
        lemma_first_colon_at(s.drop_first(), k - 1);
    }
}

/// The bytes of an optional header value.
pub open spec fn header_bytes(header: Option<&Vec<u8>>) -> Option<Seq<u8>> {
    match header {
        Some(h) => Some(h@),
        None => None,
    }
}

/// What parsing an `Authorization` header yields: either the username and
/// password, or the first reason the header is unusable. The value must be
/// present, UTF-8, carry the `"Basic "` scheme, base64-decode, decode to
/// UTF-8 again, and hold a colon; the username is everything before the
/// first colon, the password everything after it (passwords may contain
/// colons).
pub open spec fn basic_auth_spec(header: Option<Seq<u8>>) -> Result<
    (Seq<char>, Seq<char>),
    AuthHeaderError,
> {
    match header {
        None => Err(AuthHeaderError::MissingHeader),
        Some(raw) => if !valid_utf8(raw) {
            Err(AuthHeaderError::NotUtf8)
        } else {
            let h = decode_utf8(raw);
            if !(h.len() >= 6 && h.subrange(0, 6) == "Basic "@) {
                Err(AuthHeaderError::NotBasic)
            } else {
                match base64_standard_decoded(h.skip(6)) {
                    None => Err(AuthHeaderError::BadBase64),
                    Some(bytes) => if !valid_utf8(bytes) {
                        Err(AuthHeaderError::DecodedNotUtf8)
                    } else {
                        let creds = decode_utf8(bytes);
                        let c = first_colon(creds);
                        if c < 0 {
                            Err(AuthHeaderError::MissingPassword)
                        } else {
                            Ok((creds.take(c), creds.skip(c + 1)))
                        }
                    },
                }
            }
        },
    }
}

/// Parses an `Authorization` header value into Basic credentials.
pub fn basic_authentication(header: Option<&Vec<u8>>) -> (r: Result<Credentials, AuthHeaderError>)
    ensures
        match basic_auth_spec(header_bytes(header)) {
            Ok(p) => (r matches Ok(c) && c.username@ == p.0 && c.password@ == p.1),
            Err(e) => (r matches Err(e2) && e2 == e),
        },
{
    proof {
        reveal_strlit("Basic ");
    }
    let raw = match header {
        Some(h) => h,
        None => {
            return Err(AuthHeaderError::MissingHeader);
        },
    };
    let s = match utf8_to_string(raw.as_slice()) {
        Some(s) => s,
        None => {
            return Err(AuthHeaderError::NotUtf8);
        },
    };
    let n = s.as_str().unicode_len();
    if n < 6 {
        return Err(AuthHeaderError::NotBasic);
    }
    let scheme_ok = s.as_str().get_char(0) == 'B' && s.as_str().get_char(1) == 'a'
        && s.as_str().get_char(2) == 's' && s.as_str().get_char(3) == 'i' && s.as_str().get_char(4)
        == 'c' && s.as_str().get_char(5) == ' ';
    proof {
        assert(s@.subrange(0, 6)[0] == s@[0]);
        assert(s@.subrange(0, 6)[1] == s@[1]);
        assert(s@.subrange(0, 6)[2] == s@[2]);
        assert(s@.subrange(0, 6)[3] == s@[3]);
        assert(s@.subrange(0, 6)[4] == s@[4]);
        assert(s@.subrange(0, 6)[5] == s@[5]);
    }
    if !scheme_ok {
        proof {
            assert(s@.subrange(0, 6) != "Basic "@);
        }
        return Err(AuthHeaderError::NotBasic);
    }
    proof {
        assert(s@.subrange(0, 6) =~= "Basic "@);
    }
    let encoded = s.as_str().substring_char(6, n);
    proof {
        assert(encoded@ =~= s@.skip(6));
    }
    let decoded = match base64_decode_standard(encoded) {
        Some(v) => v,
        None => {
            return Err(AuthHeaderError::BadBase64);
        },
    };
    let creds = match utf8_to_string(decoded.as_slice()) {
        Some(c) => c,
        None => {
            return Err(AuthHeaderError::DecodedNotUtf8);
        },
    };
    let m = creds.as_str().unicode_len();
    let mut i: usize = 0;
    while i < m
        invariant
            i <= m,
            m == creds@.len(),
            forall|j: int| 0 <= j < i ==> creds@[j] != ':',
            header_bytes(header) == Some(raw@),
            valid_utf8(raw@),
            decode_utf8(raw@) == s@,
            s@.len() >= 6,
            s@.subrange(0, 6) == "Basic "@,
            base64_standard_decoded(s@.skip(6)) == Some(decoded@),
            valid_utf8(decoded@),
            decode_utf8(decoded@) == creds@,
        decreases m - i,
    {
        if creds.as_str().get_char(i) == ':' {
            proof {
                lemma_first_colon_at(creds@, i as int);
            }
            let username = String::from_str(creds.as_str().substring_char(0, i));
            let password = String::from_str(creds.as_str().substring_char(i + 1, m));
            proof {
                assert(username@ =~= creds@.take(i as int));
                assert(password@ =~= creds@.skip(i as int + 1));
            }
            return Ok(Credentials { username, password: Password::new(password) });
        }
        i += 1;
    }
    proof {
        lemma_first_colon_none(creds@);
    }
    Err(AuthHeaderError::MissingPassword)
}

} // verus!
