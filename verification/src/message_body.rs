//! The decrypted raw body of a message as it is stored locally, with the
//! decryption error in place of a body when decryption failed.

use vstd::prelude::*;
use vstd::utf8::{decode_utf8, encode_utf8, valid_utf8};
use crate::text::{chars_of, string_from_chars};

verus! {

/// `String::from_utf8`, the error dropped: the text the bytes encode, or
/// `None` when they are not valid UTF-8.
#[verifier::external_body]
fn string_from_utf8(bytes: Vec<u8>) -> (r: Option<String>)
    ensures
        match r {
            Some(s) => valid_utf8(bytes@) && s@ == decode_utf8(bytes@),
            None => !valid_utf8(bytes@),
        },
{
    String::from_utf8(bytes).ok()
}

/// The UTF-8 bytes of a string.
fn utf8_bytes(s: &str) -> (r: Vec<u8>)
    ensures
        r@ == encode_utf8(s@),
{
    let b = s.as_bytes();
    let mut out: Vec<u8> = Vec::new();
    let mut i: usize = 0;
    while i < b.len()
        invariant
            i <= b@.len(),
            b@ == encode_utf8(s@),
            out@ == b@.take(i as int),
        decreases b.len() - i,
    {
        out.push(b[i]);
        proof {
            assert(b@.take(i + 1) =~= b@.take(i as int).push(b@[i as int]));
        }
        i = i + 1;
    }
    proof {
        assert(b@.take(b@.len() as int) =~= b@);
    }
    out
}

/// How the raw body is encoded.
#[derive(Clone, Copy, Debug, PartialEq, Eq, Structural)]
pub enum RawMessageBodyType {
    Plain,
    Mime,
}

/// The number a body type is stored as.
pub open spec fn raw_body_type_code(t: RawMessageBodyType) -> i64 {
    match t {
        RawMessageBodyType::Plain => 0,
        RawMessageBodyType::Mime => 1,
    }
}

impl RawMessageBodyType {
    /// The number this type is stored as.
    pub fn to_column(&self) -> (r: i64)
        ensures
            r == raw_body_type_code(*self),
    {
        match self {
            RawMessageBodyType::Plain => 0,
            RawMessageBodyType::Mime => 1,
        }
    }

    /// Reads a stored type back; a number that is no type's is handed back
    /// as the error.
    pub fn from_column(v: i64) -> (r: Result<Self, i64>)
        ensures
            v == 0 ==> r == Ok::<Self, i64>(RawMessageBodyType::Plain),
            v == 1 ==> r == Ok::<Self, i64>(RawMessageBodyType::Mime),
            v != 0 && v != 1 ==> r == Err::<Self, i64>(v),
    {
        if v == 0 {
            Ok(RawMessageBodyType::Plain)
        } else if v == 1 {
            Ok(RawMessageBodyType::Mime)
        } else {
            Err(v)
        }
    }
}

/// Reading back the number a body type is stored as gives the type.
pub proof fn lemma_raw_body_type_round_trip(t: RawMessageBodyType)
    ensures
        raw_body_type_code(t) == 0 || raw_body_type_code(t) == 1,
        raw_body_type_code(t) == 0 <==> t == RawMessageBodyType::Plain,
{
}

/// A successfully decrypted body, as decryption hands it over.
#[derive(Clone, Debug)]
pub enum RawDecryptedBody {
    Plain { raw_body: Vec<u8>, signatures: Vec<u8> },
    Mime { message_id: String, raw_body: Vec<u8>, signatures: Vec<u8> },
}

/// The stored raw body of a message.
#[derive(Debug)]
pub struct RawMessageBody {
    body: Vec<u8>,
    signatures: Vec<u8>,
    raw_message_id: Option<String>,
    decryption_error: Option<String>,
    raw_type: RawMessageBodyType,
}

/// Why a stored body could not be handed out: the decryption error, and the
/// body as text (or `"Invalid utf8"`).
pub struct RawMessageBodyDecryptionError {
    pub error: String,
    pub body: String,
}

fn clone_opt_string(s: &Option<String>) -> (r: Option<String>)
    ensures
        r == *s,
{
    match s {
        Some(v) => Some(v.clone()),
        None => None,
    }
}

impl Clone for RawMessageBody {
    fn clone(&self) -> (r: Self)
        ensures
            r.spec_body() == self.spec_body(),
            r.spec_signatures() == self.spec_signatures(),
            r.spec_raw_message_id() == self.spec_raw_message_id(),
            r.spec_decryption_error() == self.spec_decryption_error(),
            r.spec_raw_type() == self.spec_raw_type(),
    {
        proof {
            use_type_invariant(self);
        }
        RawMessageBody {
            body: self.body.clone(),
            signatures: self.signatures.clone(),
            raw_message_id: clone_opt_string(&self.raw_message_id),
            decryption_error: clone_opt_string(&self.decryption_error),
            raw_type: self.raw_type,
        }
    }
}

impl RawMessageBody {
    /// A decrypted MIME body always knows the id of its MIME message.
    #[verifier::type_invariant]
    spec fn well_formed(self) -> bool {
        self.decryption_error.is_none() && self.raw_type == RawMessageBodyType::Mime
            ==> self.raw_message_id.is_some()
    }

    pub closed spec fn spec_body(&self) -> Seq<u8> {
        self.body@
    }

    pub closed spec fn spec_signatures(&self) -> Seq<u8> {
        self.signatures@
    }

    pub closed spec fn spec_raw_message_id(&self) -> Option<String> {
        self.raw_message_id
    }

    pub closed spec fn spec_decryption_error(&self) -> Option<String> {
        self.decryption_error
    }

    pub closed spec fn spec_raw_type(&self) -> RawMessageBodyType {
        self.raw_type
    }

    /// A body read back from storage, field by field.
    pub fn from_stored(
        body: Vec<u8>,
        signatures: Vec<u8>,
        raw_message_id: Option<String>,
        decryption_error: Option<String>,
        raw_type: RawMessageBodyType,
    ) -> (r: Self)
        requires
            decryption_error.is_none() && raw_type == RawMessageBodyType::Mime
                ==> raw_message_id.is_some(),
        ensures
            r.spec_body() == body@,
            r.spec_signatures() == signatures@,
            r.spec_raw_message_id() == raw_message_id,
            r.spec_decryption_error() == decryption_error,
            r.spec_raw_type() == raw_type,
    {
        RawMessageBody { body, signatures, raw_message_id, decryption_error, raw_type }
    }

    pub fn body(&self) -> (r: &[u8])
        ensures
            r@ == self.spec_body(),
    {
        self.body.as_slice()
    }

    /// The stored form of a decrypted body.
    pub fn ok(body: RawDecryptedBody) -> (r: Self)
        ensures
            r.spec_decryption_error().is_none(),
            match body {
                RawDecryptedBody::Plain { raw_body, signatures } => {
                    &&& r.spec_body() == raw_body@
                    &&& r.spec_signatures() == signatures@
                    &&& r.spec_raw_message_id().is_none()
                    &&& r.spec_raw_type() == RawMessageBodyType::Plain
                },
                RawDecryptedBody::Mime { message_id, raw_body, signatures } => {
                    &&& r.spec_body() == raw_body@
                    &&& r.spec_signatures() == signatures@
                    &&& r.spec_raw_message_id() == Some(message_id)
                    &&& r.spec_raw_type() == RawMessageBodyType::Mime
                },
            },
    {
        match body {
            RawDecryptedBody::Plain { raw_body, signatures } => RawMessageBody {
                body: raw_body,
                signatures,
                raw_message_id: None,
                decryption_error: None,
                raw_type: RawMessageBodyType::Plain,
            },
            RawDecryptedBody::Mime { message_id, raw_body, signatures } => RawMessageBody {
                body: raw_body,
                signatures,
                raw_message_id: Some(message_id),
                decryption_error: None,
                raw_type: RawMessageBodyType::Mime,
            },
        }
    }

    /// The body of a draft written on this device: plain text, without
    /// signatures until the draft is encrypted for upload.
    pub fn local_draft(body: &str) -> (r: Self)
        ensures
            r.spec_body() == encode_utf8(body@),
            r.spec_signatures().len() == 0,
            r.spec_raw_message_id().is_none(),
            r.spec_decryption_error().is_none(),
            r.spec_raw_type() == RawMessageBodyType::Plain,
    {
        Self::ok(RawDecryptedBody::Plain { raw_body: utf8_bytes(body), signatures: Vec::new() })
    }

    /// A body that could not be decrypted, kept with the error.
    pub fn error(body: Vec<u8>, error: &str) -> (r: Self)
        ensures
            r.spec_body() == body@,
            r.spec_signatures().len() == 0,
            r.spec_raw_message_id().is_none(),
            r.spec_decryption_error().is_some(),
            r.spec_decryption_error().unwrap()@ == error@,
            r.spec_raw_type() == RawMessageBodyType::Plain,
    {
        RawMessageBody {
            body,
            signatures: Vec::new(),
            raw_message_id: None,
            decryption_error: Some(string_from_chars(&chars_of(error))),
            raw_type: RawMessageBodyType::Plain,
        }
    }

    /// The decrypted body, or the decryption error with the body as text.
    pub fn into_raw_decrypted_body(self) -> (r: Result<RawDecryptedBody, RawMessageBodyDecryptionError>)
        ensures
            match r {
                Err(e) => {
                    &&& self.spec_decryption_error().is_some()
                    &&& e.error == self.spec_decryption_error().unwrap()
                    &&& valid_utf8(self.spec_body()) ==> e.body@ == decode_utf8(self.spec_body())
                    &&& !valid_utf8(self.spec_body()) ==> e.body@ == "Invalid utf8"@
                },
                Ok(b) => {
                    &&& self.spec_decryption_error().is_none()
                    &&& match b {
                        RawDecryptedBody::Plain { raw_body, signatures } => {
                            &&& self.spec_raw_type() == RawMessageBodyType::Plain
                            &&& raw_body@ == self.spec_body()
                            &&& signatures@ == self.spec_signatures()
                        },
                        RawDecryptedBody::Mime { message_id, raw_body, signatures } => {
                            &&& self.spec_raw_type() == RawMessageBodyType::Mime
                            &&& raw_body@ == self.spec_body()
                            &&& signatures@ == self.spec_signatures()
                            &&& Some(message_id) == self.spec_raw_message_id()
                        },
                    }
                },
            },
    {
        proof {
            use_type_invariant(&self);
        }
        let RawMessageBody { body, signatures, raw_message_id, decryption_error, raw_type } = self;
        match decryption_error {
            Some(error) => {
                let text = match string_from_utf8(body) {
                    Some(s) => s,
                    None => string_from_chars(&chars_of("Invalid utf8")),
                };
                Err(RawMessageBodyDecryptionError { error, body: text })
            },
            None => match raw_type {
                RawMessageBodyType::Plain => Ok(
                    RawDecryptedBody::Plain { raw_body: body, signatures },
                ),
                RawMessageBodyType::Mime => {
                    let message_id = raw_message_id.unwrap();
                    Ok(RawDecryptedBody::Mime { raw_body: body, signatures, message_id })
                },
            },
        }
    }

    pub fn decryption_failed(&self) -> (r: bool)
        ensures
            r == self.spec_decryption_error().is_some(),
    {
        self.decryption_error.is_some()
    }
}

} // verus!
