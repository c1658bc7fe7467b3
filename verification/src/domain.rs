//! Identity value objects: a subscriber's email address and display name,
//! each validated once at construction and immutable afterwards.

use vstd::prelude::*;
use vstd::string::*;

verus! {

// ---------------------------------------------------------------------------
// Display names
// ---------------------------------------------------------------------------
/// Characters that a subscriber's display name must not contain.
pub open spec fn is_forbidden_name_char(c: char) -> bool {
    c == '/' || c == '(' || c == ')' || c == '"' || c == '<' || c == '>' || c == '\\' || c == '{'
        || c == '}'
}

/// How many extended grapheme clusters a string of these characters splits
/// into.
pub uninterp spec fn grapheme_units(s: Seq<char>) -> nat;

/// Relies on `unicode_segmentation::UnicodeSegmentation::graphemes` (extended
/// grapheme clusters, as `graphemes(s, true)`) to count the grapheme clusters
/// of a string; the segmentation depends on the characters alone.
#[verifier::external_body]
fn count_graphemes(s: &str) -> (n: usize)
    ensures
        n as nat == grapheme_units(s@),
{
    unicode_segmentation::UnicodeSegmentation::graphemes(s, true).count()
}

/// A display name is valid when it is non-empty, at most 256 grapheme
/// clusters long, and free of the forbidden characters.
pub open spec fn is_valid_name(s: Seq<char>) -> bool {
    &&& s.len() > 0
    &&& forall|i: int| 0 <= i < s.len() ==> !is_forbidden_name_char(#[trigger] s[i])
    &&& grapheme_units(s) <= 256
}

/// The message `SubscriberName::parse` rejects an input with.
pub open spec fn name_error_message(s: Seq<char>) -> Seq<char> {
    s + " is not a valid subscriber name."@
}

/// A subscriber's display name, known valid since construction.
pub struct SubscriberName {
    name: String,
}

impl View for SubscriberName {
    type V = Seq<char>;

    closed spec fn view(&self) -> Seq<char> {
        self.name@
    }
}

impl SubscriberName {
    /// Every constructed value holds a valid display name.
    pub open spec fn wf(&self) -> bool {
        is_valid_name(self@)
    }

    /// Validates a raw display name; the only way to construct the type.
    pub fn parse(s: String) -> (r: Result<SubscriberName, String>)
        ensures
            r is Ok <==> is_valid_name(s@),
            r matches Ok(name) ==> name@ == s@ && name.wf(),
            r matches Err(m) ==> m@ == name_error_message(s@),
    {
        let n: usize = s.as_str().unicode_len();
        if n == 0 {
            return Err(name_error(s));
        }
        let mut i: usize = 0;
        while i < n
            invariant
                i <= n,
                n == s@.len(),
                forall|j: int| 0 <= j < i ==> !is_forbidden_name_char(#[trigger] s@[j]),
            decreases n - i,
        {
            let c = s.as_str().get_char(i);
            if c == '/' || c == '(' || c == ')' || c == '"' || c == '<' || c == '>' || c == '\\'
                || c == '{' || c == '}' {
                return Err(name_error(s));
            }
            i += 1;
        }
        if count_graphemes(s.as_str()) > 256 {
            return Err(name_error(s));
        }
        Ok(SubscriberName { name: s })
    }

    /// The validated name, exactly as it was parsed.
    pub fn as_ref(&self) -> (r: &str)
        ensures
            r@ == self@,
    {
        self.name.as_str()
    }
}

/// Builds the rejection message for a raw display name.
fn name_error(s: String) -> (r: String)
    ensures
        r@ == name_error_message(s@),
{
    let mut m = s;
    m.append(" is not a valid subscriber name.");
    m
}

// ---------------------------------------------------------------------------
// Email addresses
// ---------------------------------------------------------------------------
/// Characters allowed in the local part and the domain of an email address:
/// visible (no space, no control character) and not the separating '@'.
pub open spec fn is_email_atom_char(c: char) -> bool {
    (c as u32) > 32 && (c as u32) != 127 && c != '@'
}

/// The local part before the '@': non-empty, made of atom characters.
pub open spec fn is_valid_email_local(s: Seq<char>) -> bool {
    &&& s.len() > 0
    &&& forall|i: int| 0 <= i < s.len() ==> is_email_atom_char(#[trigger] s[i])
}

/// The domain after the '@': non-empty, made of atom characters, and neither
/// starting nor ending with a dot.
pub open spec fn is_valid_email_domain(s: Seq<char>) -> bool {
    &&& s.len() > 0
    &&& forall|i: int| 0 <= i < s.len() ==> is_email_atom_char(#[trigger] s[i])
    &&& s[0] != '.'
    &&& s[s.len() - 1] != '.'
}

/// An email address is valid when some position splits it into a valid local
/// part, an '@', and a valid domain. Atom characters exclude '@', so the
/// split position — the address's only '@' — is unique.
pub open spec fn is_valid_email(s: Seq<char>) -> bool {
    exists|i: int|
        0 <= i < s.len() && #[trigger] s[i] == '@' && is_valid_email_local(s.subrange(0, i))
            && is_valid_email_domain(s.subrange(i + 1, s.len() as int))
}

/// The message `SubscriberEmail::parse` rejects an input with.
pub open spec fn email_error_message(s: Seq<char>) -> Seq<char> {
    s + " is not a valid subscriber email."@
}

/// A subscriber's email address, known syntactically valid since construction.
pub struct SubscriberEmail {
    email: String,
}

impl View for SubscriberEmail {
    type V = Seq<char>;

    closed spec fn view(&self) -> Seq<char> {
        self.email@
    }
}

impl SubscriberEmail {
    /// Every constructed value holds a valid address.
    pub open spec fn wf(&self) -> bool {
        is_valid_email(self@)
    }

    /// Validates a raw email address; the only way to construct the type.
    pub fn parse(s: String) -> (r: Result<SubscriberEmail, String>)
        ensures
            r is Ok <==> is_valid_email(s@),
            r matches Ok(email) ==> email@ == s@ && email.wf(),
            r matches Err(m) ==> m@ == email_error_message(s@),
    {
        let ghost sv = s@;
        let n: usize = s.as_str().unicode_len();
        let mut i: usize = 0;
        let mut at_found: bool = false;
        let mut at_pos: usize = 0;
        while i < n
            invariant
                i <= n,
                n == sv.len(),
                sv == s@,
                !at_found ==> forall|j: int| 0 <= j < i ==> is_email_atom_char(#[trigger] sv[j]),
                at_found ==> at_pos < i && sv[at_pos as int] == '@',
                at_found ==> forall|j: int|
                    0 <= j < i && j != at_pos ==> is_email_atom_char(#[trigger] sv[j]),
            decreases n - i,
        {
            let c = s.as_str().get_char(i);
            if c == '@' {
                if at_found {
                    proof {
                        lemma_two_ats_not_email(sv, at_pos as int, i as int);
                    }
                    return Err(email_error(s));
                }
                at_found = true;
                at_pos = i;
            } else if !email_atom_char(c) {
                proof {
                    lemma_bad_char_not_email(sv, i as int);
                }
                return Err(email_error(s));
            }
            i += 1;
        }
        if !at_found {
            proof {
                assert forall|w: int| 0 <= w < sv.len() implies sv[w] != '@' by {
                    assert(is_email_atom_char(sv[w]));
                }
            }
            return Err(email_error(s));
        }
        // The scan saw exactly one '@', at `at_pos`.
        proof {
            assert forall|w: int| 0 <= w < sv.len() && #[trigger] sv[w] == '@' implies w
                == at_pos as int by {
                if w != at_pos as int {
                    assert(is_email_atom_char(sv[w]));
                }
            }
        }
        if at_pos == 0 {
            proof {
                assert(sv.subrange(0, 0).len() == 0);
            }
            return Err(email_error(s));
        }
        if at_pos + 1 == n {
            proof {
                assert(sv.subrange(at_pos as int + 1, sv.len() as int).len() == 0);
            }
            return Err(email_error(s));
        }
        if s.as_str().get_char(at_pos + 1) == '.' {
            proof {
                assert(sv.subrange(at_pos as int + 1, sv.len() as int)[0] == sv[
                at_pos as int + 1]);
            }
            return Err(email_error(s));
        }
        if s.as_str().get_char(n - 1) == '.' {
            proof {
                let d = sv.subrange(at_pos as int + 1, sv.len() as int);
                assert(d[d.len() - 1] == sv[sv.len() - 1]);
            }
            return Err(email_error(s));
        }
        proof {
            let a = at_pos as int;
            assert forall|k: int| 0 <= k < a implies is_email_atom_char(
                #[trigger] sv.subrange(0, a)[k],
            ) by {
                assert(sv.subrange(0, a)[k] == sv[k]);
            }
            let d = sv.subrange(a + 1, sv.len() as int);
            assert forall|k: int| 0 <= k < d.len() implies is_email_atom_char(
                #[trigger] d[k],
            ) by {
                assert(d[k] == sv[a + 1 + k]);
            }
            assert(d[0] == sv[a + 1]);
            assert(d[d.len() - 1] == sv[sv.len() - 1]);
            assert(sv[a] == '@' && is_valid_email_local(sv.subrange(0, a))
                && is_valid_email_domain(d));
        }
        Ok(SubscriberEmail { email: s })
    }

    /// The validated address, exactly as it was parsed.
    pub fn as_ref(&self) -> (r: &str)
        ensures
            r@ == self@,
    {
        self.email.as_str()
    }
}

/// Decides whether `c` may appear in the local part or domain of an address.
fn email_atom_char(c: char) -> (r: bool)
    ensures
        r == is_email_atom_char(c),
{
    (c as u32) > 32 && (c as u32) != 127 && c != '@'
}

/// Builds the rejection message for a raw email address.
fn email_error(s: String) -> (r: String)
    ensures
        r@ == email_error_message(s@),
{
    let mut m = s;
    m.append(" is not a valid subscriber email.");
    m
}

/// A string holding a character that is neither an atom character nor '@' is
/// not a valid email address: the character would fall in the local part or
/// the domain of any split.
proof fn lemma_bad_char_not_email(s: Seq<char>, p: int)
    requires
        0 <= p < s.len(),
        !is_email_atom_char(s[p]),
        s[p] != '@',
    ensures
        !is_valid_email(s),
{
    assert forall|w: int| 0 <= w < s.len() && #[trigger] s[w] == '@' implies !(
    is_valid_email_local(s.subrange(0, w)) && is_valid_email_domain(
        s.subrange(w + 1, s.len() as int),
    )) by {
        if p < w {
            assert(s.subrange(0, w)[p] == s[p]);
        } else {
            assert(s.subrange(w + 1, s.len() as int)[p - w - 1] == s[p]);
        }
    }
}

/// A string holding two '@' characters is not a valid email address: one of
/// them would fall in the local part or the domain of any split.
proof fn lemma_two_ats_not_email(s: Seq<char>, a: int, b: int)
    requires
        0 <= a < b < s.len(),
        s[a] == '@',
        s[b] == '@',
    ensures
        !is_valid_email(s),
{
    assert forall|w: int| 0 <= w < s.len() && #[trigger] s[w] == '@' implies !(
    is_valid_email_local(s.subrange(0, w)) && is_valid_email_domain(
        s.subrange(w + 1, s.len() as int),
    )) by {
        let p = if w == a {
            b
        } else {
            a
        };
        if p < w {
            assert(s.subrange(0, w)[p] == s[p]);
        } else {
            assert(s.subrange(w + 1, s.len() as int)[p - w - 1] == s[p]);
        }
    }
}

// ---------------------------------------------------------------------------
// A fully validated signup payload
// ---------------------------------------------------------------------------
/// A fully validated signup request: the input to subscriber creation, never
/// persisted as such.
pub struct NewSubscriber {
    pub email: SubscriberEmail,
    pub name: SubscriberName,
}

impl NewSubscriber {
    /// Both parts were validated at construction.
    pub open spec fn wf(&self) -> bool {
        self.email.wf() && self.name.wf()
    }
}

} // verus!
