//! Where messages from a sender go by default (inbox, spam or blocked), and
//! how sender addresses and domains are normalised before they are stored or
//! looked up.

use vstd::prelude::*;
use crate::text::{chars_of, string_from_chars};

verus! {

/// The characters that survive in a sanitized email address.
pub const EMAIL_PATTERN: &'static str = "[^a-zA-Z0-9!#$%&'*+\\-=?^_`{|}~@.\\[\\]]+";

/// The characters that survive in a sanitized domain (as for an address, but
/// without `@`).
pub const DOMAIN_PATTERN: &'static str = "[^a-zA-Z0-9!#$%&'*+\\-=?^_`{|}~.\\[\\]]+";

/// Whether `c` is one of the special characters an address may keep.
pub open spec fn is_address_symbol(c: char) -> bool {
    ||| c == '!' ||| c == '#' ||| c == '$' ||| c == '%' ||| c == '&' ||| c == '\''
    ||| c == '*' ||| c == '+' ||| c == '-' ||| c == '=' ||| c == '?' ||| c == '^'
    ||| c == '_' ||| c == '`' ||| c == '{' ||| c == '|' ||| c == '}' ||| c == '~'
    ||| c == '.' ||| c == '[' ||| c == ']'
}

/// Whether `c` is an ASCII letter or digit.
pub open spec fn is_ascii_alphanumeric(c: char) -> bool {
    ('a' <= c <= 'z') || ('A' <= c <= 'Z') || ('0' <= c <= '9')
}

/// The characters a sanitized email address keeps.
pub open spec fn is_email_char(c: char) -> bool {
    is_ascii_alphanumeric(c) || is_address_symbol(c) || c == '@'
}

/// The characters a sanitized domain keeps.
pub open spec fn is_domain_char(c: char) -> bool {
    is_ascii_alphanumeric(c) || is_address_symbol(c)
}

/// `c` with an ASCII upper case letter made lower case.
pub open spec fn ascii_lower(c: char) -> char {
    if 'A' <= c <= 'Z' {
        ((c as u32) + 32) as char
    } else {
        c
    }
}

/// What an email address is stored and looked up as: the characters a
/// sanitized address keeps, lower-cased.
pub open spec fn sanitized_email(s: Seq<char>) -> Seq<char> {
    s.filter(|c: char| is_email_char(c)).map_values(|c: char| ascii_lower(c))
}

/// What a domain is stored and looked up as.
pub open spec fn sanitized_domain(s: Seq<char>) -> Seq<char> {
    s.filter(|c: char| is_domain_char(c)).map_values(|c: char| ascii_lower(c))
}

/// `Regex::new(pattern)` and `Regex::replace_all(text, rep)` with an empty
/// replacement, for the two character-class patterns of this module: every
/// maximal run of characters outside the class is removed, so exactly the
/// characters of the class remain, in order.
#[verifier::external_body]
fn regex_remove_all(pattern: &str, text: &str, rep: &str) -> (r: String)
    requires
        pattern@ == EMAIL_PATTERN@ || pattern@ == DOMAIN_PATTERN@,
        rep@.len() == 0,
    ensures
        pattern@ == EMAIL_PATTERN@ ==> r@ == text@.filter(|c: char| is_email_char(c)),
        pattern@ == DOMAIN_PATTERN@ ==> r@ == text@.filter(|c: char| is_domain_char(c)),
{
    regex::Regex::new(pattern).unwrap().replace_all(text, rep).to_string()
}

/// `s` with its ASCII upper case letters made lower case.
fn ascii_lowercase(s: &str) -> (r: String)
    ensures
        r@ == s@.map_values(|c: char| ascii_lower(c)),
{
    let cs = chars_of(s);
    let mut out: Vec<char> = Vec::new();
    let mut i: usize = 0;
    while i < cs.len()
        invariant
            i <= cs.len(),
            cs@ == s@,
            out@ == cs@.take(i as int).map_values(|c: char| ascii_lower(c)),
        decreases cs.len() - i,
    {
        let c = cs[i];
        let lc = if 'A' <= c && c <= 'Z' {
            let n = (c as u32) + 32;
            proof {
                assert(n < 0xD800);
            }
            char_from_ascii(n)
        } else {
            c
        };
        out.push(lc);
        proof {
            assert(cs@.take(i + 1) =~= cs@.take(i as int).push(c));
            assert(cs@.take(i + 1).map_values(|c: char| ascii_lower(c)) =~= cs@.take(
                i as int,
            ).map_values(|c: char| ascii_lower(c)).push(ascii_lower(c)));
        }
        i = i + 1;
    }
    proof {
        assert(cs@.take(cs@.len() as int) =~= cs@);
    }
    string_from_chars(&out)
}

/// The character with the code `n`, an ASCII code.
fn char_from_ascii(n: u32) -> (r: char)
    requires
        n < 128,
    ensures
        r == n as char,
{
    let b: u8 = n as u8;
    b as char
}

/// A sender's incoming default.
#[derive(Clone, Debug)]
pub struct IncomingDefault {
    pub local_id: Option<u64>,
    pub remote_id: Option<String>,
    pub location: IncomingDefaultLocation,
    /// XOR with `IncomingDefault::domain`.
    pub email: Option<String>,
    /// XOR with `IncomingDefault::email`.
    pub domain: Option<String>,
    pub deleted: bool,
}

impl IncomingDefault {
    /// This sanitization replicates what the server does, except for
    /// truncating addresses.
    pub fn sanitize_email(email: &str) -> (r: String)
        ensures
            r@ == sanitized_email(email@),
    {
        proof {
            reveal_strlit("");
        }
        let kept = regex_remove_all(EMAIL_PATTERN, email, "");
        ascii_lowercase(kept.as_str())
    }

    pub fn sanitize_domain(domain: &str) -> (r: String)
        ensures
            r@ == sanitized_domain(domain@),
    {
        proof {
            reveal_strlit("");
        }
        let kept = regex_remove_all(DOMAIN_PATTERN, domain, "");
        ascii_lowercase(kept.as_str())
    }

    /// Before it is stored, the address of an incoming default is sanitized.
    pub fn before_save(&mut self)
        ensures
            final(self).email.is_some() == old(self).email.is_some(),
            old(self).email.is_some() ==> final(self).email.unwrap()@ == sanitized_email(
                old(self).email.unwrap()@,
            ),
            *final(self) == (IncomingDefault { email: final(self).email, ..*old(self) }),
    {
        let email = match &self.email {
            Some(e) => Some(Self::sanitize_email(e.as_str())),
            None => None,
        };
        self.email = email;
    }
}

/// The domain of an address: what follows its first `@`, as
/// `str::split_once('@')` finds it.
pub fn email_domain(email: &str) -> (r: Option<String>)
    ensures
        r.is_some() == email@.contains('@'),
        r.is_some() ==> exists|i: int|
            0 <= i < email@.len() && email@[i] == '@' && (forall|j: int|
                0 <= j < i ==> email@[j] != '@') && r.unwrap()@ == email@.skip(i + 1),
{
    let cs = chars_of(email);
    let mut i: usize = 0;
    while i < cs.len()
        invariant
            i <= cs.len(),
            cs@ == email@,
            forall|j: int| 0 <= j < i ==> cs@[j] != '@',
        decreases cs.len() - i,
    {
        if cs[i] == '@' {
            let mut rest: Vec<char> = Vec::new();
            let mut k: usize = i + 1;
            while k < cs.len()
                invariant
                    i < k <= cs.len(),
                    rest@ == cs@.subrange(i + 1, k as int),
                decreases cs.len() - k,
            {
                rest.push(cs[k]);
                proof {
                    assert(cs@.subrange(i + 1, k + 1) =~= cs@.subrange(i + 1, k as int).push(
                        cs@[k as int],
                    ));
                }
                k = k + 1;
            }
            proof {
                assert(cs@.subrange(i + 1, cs@.len() as int) =~= email@.skip(i + 1));
                assert(email@.contains('@')) by {
                    assert(email@[i as int] == '@');
                }
            }
            return Some(string_from_chars(&rest));
        }
        i = i + 1;
    }
    None
}

/// Where messages from a sender go by default.
#[derive(Clone, Copy, Debug, PartialEq, Eq, Structural)]
pub enum IncomingDefaultLocation {
    /// The messages are allowed and go to inbox
    Inbox,
    /// Marked as spam by the user, next incoming messages goes to spam directly
    Spam,
    /// Email address blocked by the user; its messages are deleted on arrival
    Blocked,
}

/// The number each location is stored as.
pub open spec fn location_code(l: IncomingDefaultLocation) -> u8 {
    match l {
        IncomingDefaultLocation::Inbox => 0,
        IncomingDefaultLocation::Spam => 4,
        IncomingDefaultLocation::Blocked => 14,
    }
}

impl IncomingDefaultLocation {
    /// The number this location is stored as.
    pub fn to_repr(&self) -> (r: u8)
        ensures
            r == location_code(*self),
    {
        match self {
            IncomingDefaultLocation::Inbox => 0,
            IncomingDefaultLocation::Spam => 4,
            IncomingDefaultLocation::Blocked => 14,
        }
    }

    /// Reads a stored location back; any other number is no location.
    pub fn try_from_repr(v: u8) -> (r: Option<Self>)
        ensures
            r.is_some() <==> (v == 0 || v == 4 || v == 14),
            r.is_some() ==> location_code(r.unwrap()) == v,
    {
        if v == 0 {
            Some(IncomingDefaultLocation::Inbox)
        } else if v == 4 {
            Some(IncomingDefaultLocation::Spam)
        } else if v == 14 {
            Some(IncomingDefaultLocation::Blocked)
        } else {
            None
        }
    }
}

/// The stored number of a location reads back as that location.
pub proof fn lemma_location_code_round_trip(a: IncomingDefaultLocation, b: IncomingDefaultLocation)
    ensures
        location_code(a) == location_code(b) ==> a == b,
        location_code(a) == 0 || location_code(a) == 4 || location_code(a) == 14,
{
}

} // verus!
