//! The MIME type of a message body as the client shows it, and how it is read
//! from what the server reports.

use vstd::prelude::*;
use crate::text::str_eq;

verus! {

/// The MIME type of a message as the server reports it.
#[derive(Clone, Copy, Debug, PartialEq, Eq, Structural)]
pub enum MimeType {
    TextHtml,
    TextPlain,
    MultipartMixed,
    /// Any type that a message body is not expected to have.
    Other,
}

/// The MIME type of a message body as the client shows it.
#[derive(Clone, Copy, Debug, PartialEq, Eq, Structural)]
pub enum MessageMimeType {
    TextHtml,
    TextPlain,
}

impl Default for MessageMimeType {
    fn default() -> (r: Self)
        ensures
            r == MessageMimeType::TextHtml,
    {
        MessageMimeType::TextHtml
    }
}

/// The text a MIME type is stored as.
pub open spec fn mime_type_text(t: MessageMimeType) -> Seq<char> {
    match t {
        MessageMimeType::TextHtml => "text/html"@,
        MessageMimeType::TextPlain => "text/plain"@,
    }
}

/// The MIME type stored as `s`, if any.
pub open spec fn mime_type_of_text(s: Seq<char>) -> Option<MessageMimeType> {
    if s == "text/html"@ {
        Some(MessageMimeType::TextHtml)
    } else if s == "text/plain"@ {
        Some(MessageMimeType::TextPlain)
    } else {
        None
    }
}

impl MessageMimeType {
    /// The type of a message from what the server reports: HTML and plain text
    /// as such, and for a multipart (encrypted MIME) message whatever
    /// `if_encrypted` finds inside.
    pub fn from_api<F: FnOnce() -> MessageMimeType>(api: MimeType, if_encrypted: F) -> (r: Self)
        requires
            api != MimeType::Other,
            api == MimeType::MultipartMixed ==> call_requires(if_encrypted, ()),
        ensures
            api == MimeType::TextHtml ==> r == MessageMimeType::TextHtml,
            api == MimeType::TextPlain ==> r == MessageMimeType::TextPlain,
            api == MimeType::MultipartMixed ==> call_ensures(if_encrypted, (), r),
    {
        match api {
            MimeType::TextHtml => MessageMimeType::TextHtml,
            MimeType::TextPlain => MessageMimeType::TextPlain,
            MimeType::MultipartMixed => if_encrypted(),
            MimeType::Other => MessageMimeType::TextPlain,
        }
    }

    /// The server's name for this type.
    pub fn to_api(self) -> (r: MimeType)
        ensures
            self == MessageMimeType::TextHtml ==> r == MimeType::TextHtml,
            self == MessageMimeType::TextPlain ==> r == MimeType::TextPlain,
    {
        match self {
            MessageMimeType::TextHtml => MimeType::TextHtml,
            MessageMimeType::TextPlain => MimeType::TextPlain,
        }
    }

    /// The text this type is stored as.
    pub fn as_sql_text(&self) -> (r: &'static str)
        ensures
            r@ == mime_type_text(*self),
    {
        match self {
            MessageMimeType::TextHtml => "text/html",
            MessageMimeType::TextPlain => "text/plain",
        }
    }

    /// Reads a stored type back; any other text is no type.
    pub fn from_sql_text(s: &str) -> (r: Option<Self>)
        ensures
            r == mime_type_of_text(s@),
    {
        if str_eq(s, "text/html") {
            Some(MessageMimeType::TextHtml)
        } else if str_eq(s, "text/plain") {
            Some(MessageMimeType::TextPlain)
        } else {
            None
        }
    }
}

/// Reading back the text a MIME type is stored as gives the type.
pub proof fn lemma_mime_type_text_round_trip(t: MessageMimeType)
    ensures
        mime_type_of_text(mime_type_text(t)) == Some(t),
{
    reveal_strlit("text/html");
    reveal_strlit("text/plain");
    assert("text/html"@.len() != "text/plain"@.len());
}

} // verus!
