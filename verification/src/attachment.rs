//! Attachments: where they are stored, how local ones are created and named,
//! and how a stored attachment keeps what the server gave it.

use vstd::prelude::*;
use crate::draft_errors::{AttachmentUploadError, DraftError, MailContextError};
use crate::errors::AppError;
use crate::text::{chars_of, string_from_chars};
use crate::types::{LocalAddressId, LocalAttachmentId, LocalConversationId, LocalMessageId};

verus! {

/// Whether an attachment is shown inline or attached.
#[derive(Clone, Copy, Debug, PartialEq, Eq, Structural)]
pub enum Disposition {
    Attachment,
    Inline,
}

/// Where an attachment comes from.
#[derive(Clone, Debug, PartialEq, Eq)]
pub enum AttachmentType {
    /// Some if it exists in the server and None if it's local
    Remote(Option<String>),
    Pgp,
}

impl AttachmentType {
    pub fn is_pgp(&self) -> (r: bool)
        ensures
            r == (*self is Pgp),
    {
        match self {
            AttachmentType::Pgp => true,
            _ => false,
        }
    }
}

impl Default for AttachmentType {
    /// A local attachment, not on the server yet.
    fn default() -> (r: Self)
        ensures
            r == AttachmentType::Remote(None),
    {
        AttachmentType::Remote(None)
    }
}

/// The most attachments a message may have.
pub const MAX_ATTACHMENTS_PER_MESSAGE: usize = 100;

/// The largest an attachment may be, in bytes (25 MiB).
pub const MAX_ATTACHMENT_SIZE: u64 = 26214400;

/// The MIME type of public key attachments.
pub const PGP_KEYS_MIME_TYPE: &'static str = "application/pgp-keys";

/// An attachment of a message.
#[derive(Clone, Debug)]
pub struct Attachment {
    pub local_id: Option<LocalAttachmentId>,
    pub attachment_type: AttachmentType,
    pub local_address_id: Option<LocalAddressId>,
    pub remote_address_id: Option<String>,
    pub local_conversation_id: Option<LocalConversationId>,
    pub remote_conversation_id: Option<String>,
    pub local_message_id: Option<LocalMessageId>,
    pub remote_message_id: Option<String>,
    pub disposition: Disposition,
    pub enc_signature: Option<Vec<u8>>,
    pub is_auto_forwardee: bool,
    pub key_packets: Option<Vec<u8>>,
    pub mime_type: String,
    pub filename: String,
    pub sender: Option<String>,
    pub signature: Option<Vec<u8>>,
    /// Size of the attachment in bytes.
    pub size: u64,
    /// Content id of the attachment if inlined in the message.
    pub content_id: Option<String>,
    pub transfer_encoding: Option<String>,
    pub image_width: Option<String>,
    pub image_height: Option<String>,
}

/// The prefix of the file name of a public key attachment.
pub open spec fn public_key_prefix() -> Seq<char> {
    "publickey - "@
}

/// The suffix of the file name of a public key attachment.
pub open spec fn public_key_suffix() -> Seq<char> {
    ".asc"@
}

/// Whether `name` is the file name of a public key attachment.
pub open spec fn is_public_key_name(name: Seq<char>) -> bool {
    &&& name.len() >= public_key_prefix().len()
    &&& name.take(public_key_prefix().len() as int) == public_key_prefix()
    &&& name.len() >= public_key_suffix().len()
    &&& name.skip(name.len() - public_key_suffix().len()) == public_key_suffix()
}

/// `c` with an ASCII lower case letter made upper case.
pub open spec fn ascii_upper(c: char) -> char {
    if 'a' <= c <= 'z' {
        ((c as u32) - 32) as char
    } else {
        c
    }
}

/// Whether `pat` is a prefix of `s`.
fn starts_with(s: &Vec<char>, pat: &Vec<char>) -> (r: bool)
    ensures
        r == (s@.len() >= pat@.len() && s@.take(pat@.len() as int) == pat@),
{
    if s.len() < pat.len() {
        return false;
    }
    let mut k: usize = 0;
    while k < pat.len()
        invariant
            pat@.len() <= s@.len(),
            k <= pat@.len(),
            forall|m: int| 0 <= m < k ==> s@[m] == pat@[m],
        decreases pat.len() - k,
    {
        if s[k] != pat[k] {
            assert(s@.take(pat@.len() as int)[k as int] != pat@[k as int]);
            return false;
        }
        k = k + 1;
    }
    assert(s@.take(pat@.len() as int) =~= pat@);
    true
}

/// Whether `pat` is a suffix of `s`.
fn ends_with(s: &Vec<char>, pat: &Vec<char>) -> (r: bool)
    ensures
        r == (s@.len() >= pat@.len() && s@.skip(s@.len() - pat@.len()) == pat@),
{
    if s.len() < pat.len() {
        return false;
    }
    let off = s.len() - pat.len();
    let mut k: usize = 0;
    while k < pat.len()
        invariant
            pat@.len() <= s@.len(),
            off == s@.len() - pat@.len(),
            s@.len() == s.len(),
            k <= pat@.len(),
            forall|m: int| 0 <= m < k ==> s@[off + m] == pat@[m],
        decreases pat.len() - k,
    {
        if s[off + k] != pat[k] {
            assert(s@.skip(off as int)[k as int] != pat@[k as int]);
            return false;
        }
        k = k + 1;
    }
    assert(s@.skip(off as int) =~= pat@);
    true
}

fn append_chars(out: &mut Vec<char>, more: &Vec<char>)
    ensures
        final(out)@ == old(out)@ + more@,
{
    let mut k: usize = 0;
    while k < more.len()
        invariant
            k <= more@.len(),
            out@ == old(out)@ + more@.take(k as int),
        decreases more.len() - k,
    {
        out.push(more[k]);
        proof {
            assert(more@.take(k + 1) =~= more@.take(k as int).push(more@[k as int]));
            assert(old(out)@ + more@.take(k + 1) =~= (old(out)@ + more@.take(k as int)).push(
                more@[k as int],
            ));
        }
        k = k + 1;
    }
    proof {
        assert(more@.take(more@.len() as int) =~= more@);
    }
}

/// The file name of a public key attachment: the address and the first
/// eight characters of the key's fingerprint, upper-cased.
pub open spec fn public_key_filename(email: Seq<char>, fingerprint: Seq<char>) -> Seq<char> {
    "publickey - "@ + email + " - 0x"@ + fingerprint.take(8).map_values(|c: char| ascii_upper(c))
        + ".asc"@
}

/// The file name of every public key attachment reads as one: it starts
/// with the public key prefix and ends with the key suffix.
pub proof fn lemma_public_key_filename_is_recognised(email: Seq<char>, fingerprint: Seq<char>)
    requires
        fingerprint.len() >= 8,
    ensures
        is_public_key_name(public_key_filename(email, fingerprint)),
{
    reveal_strlit("publickey - ");
    reveal_strlit(".asc");
    let name = public_key_filename(email, fingerprint);
    let head = "publickey - "@ + email + " - 0x"@ + fingerprint.take(8).map_values(
        |c: char| ascii_upper(c),
    );
    assert(name == head + ".asc"@);
    assert(name.take(public_key_prefix().len() as int) =~= public_key_prefix());
    assert(name.skip(name.len() - public_key_suffix().len()) =~= public_key_suffix());
}

/// Whether `r` is the new local attachment of a draft with the given address,
/// disposition, name, media type and size: not on the server yet, in no
/// message, with no keys or signatures, and an inline one with the content id
/// `new_content_id`.
pub open spec fn is_new_local(
    r: Attachment,
    remote_address_id: String,
    local_address_id: Option<LocalAddressId>,
    disposition: Disposition,
    filename: String,
    mime_type: Seq<char>,
    size: u64,
    new_content_id: String,
) -> bool {
    &&& r.local_id.is_none()
    &&& r.attachment_type == AttachmentType::Remote(None)
    &&& r.local_address_id == local_address_id
    &&& r.remote_address_id == Some(remote_address_id)
    &&& r.local_conversation_id.is_none() && r.remote_conversation_id.is_none()
    &&& r.local_message_id.is_none() && r.remote_message_id.is_none()
    &&& r.disposition == disposition
    &&& r.content_id == if disposition == Disposition::Inline {
        Some(new_content_id)
    } else {
        None::<String>
    }
    &&& r.enc_signature.is_none() && r.signature.is_none() && r.key_packets.is_none()
    &&& !r.is_auto_forwardee
    &&& r.mime_type@ == mime_type
    &&& r.filename == filename
    &&& r.sender.is_none()
    &&& r.size == size
    &&& r.transfer_encoding.is_none() && r.image_width.is_none() && r.image_height.is_none()
}

/// The media type that the file-format crate detects in the contents of a
/// file.
pub uninterp spec fn detected_media_type(contents: Seq<u8>) -> Seq<char>;

/// `FileFormat::from_bytes(contents).media_type()` of the file-format crate:
/// the media type of the format it detects in `contents`, which depends on
/// the contents alone; empty contents are of the empty format. Which type
/// other contents have is not stated here.
#[verifier::external_body]
fn media_type_of(contents: &[u8]) -> (r: String)
    ensures
        r@ == detected_media_type(contents@),
        contents@.len() == 0 ==> r@ == "application/x-empty"@,
{
    file_format::FileFormat::from_bytes(contents).media_type().to_string()
}

impl Attachment {
    /// The attachment's id on the server, if it is a remote attachment that
    /// has one.
    pub fn remote_id(&self) -> (r: Option<String>)
        ensures
            r == match self.attachment_type {
                AttachmentType::Remote(id) => id,
                _ => None::<String>,
            },
    {
        match &self.attachment_type {
            AttachmentType::Remote(id) => match id {
                Some(v) => Some(v.clone()),
                None => None,
            },
            _ => None,
        }
    }

    /// The remote id under which the attachment's data is fetched from the
    /// server: only a remote attachment that the server knows has one.
    pub fn remote_id_to_fetch(&self) -> (r: Result<String, MailContextError>)
        ensures
            r == match self.attachment_type {
                AttachmentType::Remote(Some(id)) => Ok::<String, MailContextError>(id),
                AttachmentType::Remote(None) => Err::<String, MailContextError>(
                    MailContextError::CalledFetchedAttachmentLocalAttachment,
                ),
                AttachmentType::Pgp => Err::<String, MailContextError>(
                    MailContextError::CalledFetchedAttachmentOnPgp,
                ),
            },
    {
        match &self.attachment_type {
            AttachmentType::Remote(Some(id)) => Ok(id.clone()),
            AttachmentType::Remote(None) => Err(
                MailContextError::CalledFetchedAttachmentLocalAttachment,
            ),
            AttachmentType::Pgp => Err(MailContextError::CalledFetchedAttachmentOnPgp),
        }
    }

    /// Whether the attachment is a PGP attachment.
    pub fn is_pgp_attachment(&self) -> (r: bool)
        ensures
            r == (self.attachment_type is Pgp),
    {
        self.attachment_type.is_pgp()
    }

    /// The attachment has what its decryption needs: its key packets and the
    /// address it was sent to.
    pub fn has_complete_metadata(&self) -> (r: bool)
        ensures
            r == (self.key_packets.is_some() && self.remote_address_id.is_some()),
    {
        self.key_packets.is_some() && self.remote_address_id.is_some()
    }

    /// Checks a file that is to become an attachment: it has to be a file,
    /// have a name and be no larger than an attachment may be (else it is the
    /// upload error of a too large attachment). Returns the attachment's file
    /// name: the one given instead of the file's, if any.
    pub fn validate_local_file(
        is_file: bool,
        file_name: Option<String>,
        file_name_override: Option<String>,
        size: u64,
    ) -> (r: Result<String, MailContextError>)
        ensures
            !is_file ==> (r matches Err(
                MailContextError::App(AppError::InvalidInput(m)),
            ) && m@ == "Path is not file"@),
            is_file && file_name.is_none() ==> (r matches Err(
                MailContextError::App(AppError::InvalidInput(m)),
            ) && m@ == "Path does not have a file name"@),
            is_file && file_name.is_some() && size > MAX_ATTACHMENT_SIZE ==> r == Err::<
                String,
                MailContextError,
            >(MailContextError::Draft(DraftError::AttachmentUpload(AttachmentUploadError::AttachmentTooLarge))),
            is_file && file_name.is_some() && size <= MAX_ATTACHMENT_SIZE ==> r == Ok::<
                String,
                MailContextError,
            >(
                match file_name_override {
                    Some(n) => n,
                    None => file_name.unwrap(),
                },
            ),
    {
        if !is_file {
            return Err(
                MailContextError::App(
                    AppError::InvalidInput(string_from_chars(&chars_of("Path is not file"))),
                ),
            );
        }
        let file_name = match file_name {
            Some(n) => n,
            None => {
                return Err(
                    MailContextError::App(
                        AppError::InvalidInput(
                            string_from_chars(&chars_of("Path does not have a file name")),
                        ),
                    ),
                );
            },
        };
        if size > MAX_ATTACHMENT_SIZE {
            return Err(
                MailContextError::Draft(
                    DraftError::AttachmentUpload(AttachmentUploadError::AttachmentTooLarge),
                ),
            );
        }
        match file_name_override {
            Some(n) => Ok(n),
            None => Ok(file_name),
        }
    }

    /// A new local attachment of a draft, not yet on the server: an inline
    /// one gets the content id it is referenced by in the body.
    pub fn new_local(
        remote_address_id: String,
        local_address_id: Option<LocalAddressId>,
        disposition: Disposition,
        filename: String,
        mime_type: String,
        size: u64,
        new_content_id: String,
    ) -> (r: Self)
        ensures
            is_new_local(
                r,
                remote_address_id,
                local_address_id,
                disposition,
                filename,
                mime_type@,
                size,
                new_content_id,
            ),
    {
        let content_id = if disposition == Disposition::Inline {
            Some(new_content_id)
        } else {
            None
        };
        Attachment {
            local_id: None,
            attachment_type: AttachmentType::Remote(None),
            local_address_id,
            remote_address_id: Some(remote_address_id),
            local_conversation_id: None,
            remote_conversation_id: None,
            local_message_id: None,
            remote_message_id: None,
            disposition,
            content_id,
            enc_signature: None,
            is_auto_forwardee: false,
            key_packets: None,
            mime_type,
            filename,
            sender: None,
            signature: None,
            size,
            transfer_encoding: None,
            image_width: None,
            image_height: None,
        }
    }

    /// A new local attachment of a draft made from a file that
    /// `validate_local_file` accepted, named as it said: its media type is
    /// the one detected in the file's contents, its size the file's.
    pub fn local_from_file(
        remote_address_id: String,
        local_address_id: Option<LocalAddressId>,
        disposition: Disposition,
        filename: String,
        contents: &Vec<u8>,
        size: u64,
        new_content_id: String,
    ) -> (r: Self)
        ensures
            is_new_local(
                r,
                remote_address_id,
                local_address_id,
                disposition,
                filename,
                detected_media_type(contents@),
                size,
                new_content_id,
            ),
    {
        let mime_type = media_type_of(contents.as_slice());
        Self::new_local(
            remote_address_id,
            local_address_id,
            disposition,
            filename,
            mime_type,
            size,
            new_content_id,
        )
    }

    /// The public key attachment of an address: an attachment of the key's
    /// size and type, named after the address and the key's fingerprint.
    pub fn new_public_key(
        local_address_id: Option<LocalAddressId>,
        remote_address_id: Option<String>,
        email: &str,
        fingerprint: &str,
        key_len: usize,
    ) -> (r: Self)
        requires
            fingerprint@.len() >= 8,
            forall|k: int| 0 <= k < 8 ==> (fingerprint@[k] as u32) < 128,
        ensures
            r.local_id.is_none(),
            r.attachment_type == AttachmentType::Remote(None),
            r.local_address_id == local_address_id,
            r.remote_address_id == remote_address_id,
            r.disposition == Disposition::Attachment,
            r.mime_type@ == PGP_KEYS_MIME_TYPE@,
            r.filename@ == public_key_filename(email@, fingerprint@),
            r.size == key_len,
            r.content_id.is_none(),
    {
        let filename = Self::public_key_attachment_filename(email, fingerprint);
        Attachment {
            local_id: None,
            attachment_type: AttachmentType::Remote(None),
            local_address_id,
            remote_address_id,
            local_conversation_id: None,
            remote_conversation_id: None,
            local_message_id: None,
            remote_message_id: None,
            disposition: Disposition::Attachment,
            enc_signature: None,
            is_auto_forwardee: false,
            key_packets: None,
            mime_type: string_from_chars(&chars_of(PGP_KEYS_MIME_TYPE)),
            filename,
            sender: None,
            signature: None,
            size: key_len as u64,
            content_id: None,
            transfer_encoding: None,
            image_width: None,
            image_height: None,
        }
    }

    /// The file name of the public key attachment of an address.
    pub fn public_key_attachment_filename(email: &str, fingerprint: &str) -> (r: String)
        requires
            fingerprint@.len() >= 8,
            forall|k: int| 0 <= k < 8 ==> (fingerprint@[k] as u32) < 128,
        ensures
            r@ == public_key_filename(email@, fingerprint@),
    {
        let fp = chars_of(fingerprint);
        let mut upper: Vec<char> = Vec::new();
        let mut k: usize = 0;
        while k < 8
            invariant
                k <= 8,
                fp@ == fingerprint@,
                fp@.len() >= 8,
                upper@ == fp@.take(k as int).map_values(|c: char| ascii_upper(c)),
            decreases 8 - k,
        {
            let c = fp[k];
            let u = if 'a' <= c && c <= 'z' {
                let n = (c as u32) - 32;
                char_of_ascii(n)
            } else {
                c
            };
            upper.push(u);
            proof {
                assert(fp@.take(k + 1) =~= fp@.take(k as int).push(c));
                assert(fp@.take(k + 1).map_values(|c: char| ascii_upper(c)) =~= fp@.take(
                    k as int,
                ).map_values(|c: char| ascii_upper(c)).push(ascii_upper(c)));
            }
            k = k + 1;
        }
        let mut out = chars_of("publickey - ");
        append_chars(&mut out, &chars_of(email));
        append_chars(&mut out, &chars_of(" - 0x"));
        append_chars(&mut out, &upper);
        append_chars(&mut out, &chars_of(".asc"));
        string_from_chars(&out)
    }

    /// Whether `name` is the file name of a public key attachment.
    pub fn is_public_key_attachment_filename(name: &str) -> (r: bool)
        ensures
            r == is_public_key_name(name@),
    {
        let cs = chars_of(name);
        starts_with(&cs, &chars_of("publickey - ")) && ends_with(&cs, &chars_of(".asc"))
    }

    /// Whether the attachment is a public key: of the key type, and named as
    /// one.
    pub fn is_public_key_attachment(&self) -> (r: bool)
        ensures
            r == (self.mime_type@ == PGP_KEYS_MIME_TYPE@ && is_public_key_name(self.filename@)),
    {
        crate::text::str_eq(self.mime_type.as_str(), PGP_KEYS_MIME_TYPE)
            && Self::is_public_key_attachment_filename(self.filename.as_str())
    }

    /// The HTML that shows an inline attachment in a message body.
    pub fn as_inline_img(&self) -> (r: Option<String>)
        ensures
            r.is_some() == self.content_id.is_some(),
            r.is_some() ==> r.unwrap()@ == "<img src=\"cid:"@ + self.content_id.unwrap()@
                + "\" style=\"max-width: 100%;\"><br>"@,
    {
        match &self.content_id {
            Some(cid) => {
                let mut out = chars_of("<img src=\"cid:");
                append_chars(&mut out, &chars_of(cid.as_str()));
                append_chars(&mut out, &chars_of("\" style=\"max-width: 100%;\"><br>"));
                Some(string_from_chars(&out))
            },
            None => None,
        }
    }

    /// Before a stored attachment is saved again it keeps what the stored
    /// one got from the server: its remote id, and its key packets and
    /// signatures where it has none.
    pub fn keep_stored_metadata(&mut self, existing: Attachment)
        ensures
            final(self).attachment_type == if existing.attachment_type matches AttachmentType::Remote(
                Some(_),
            ) {
                existing.attachment_type
            } else {
                old(self).attachment_type
            },
            final(self).key_packets == if old(self).key_packets.is_none() {
                existing.key_packets
            } else {
                old(self).key_packets
            },
            final(self).enc_signature == if old(self).enc_signature.is_none() {
                existing.enc_signature
            } else {
                old(self).enc_signature
            },
            final(self).signature == if old(self).signature.is_none() {
                existing.signature
            } else {
                old(self).signature
            },
            *final(self) == (Attachment {
                attachment_type: final(self).attachment_type,
                key_packets: final(self).key_packets,
                enc_signature: final(self).enc_signature,
                signature: final(self).signature,
                ..*old(self)
            }),
    {
        let has_remote_id = match &existing.attachment_type {
            AttachmentType::Remote(Some(_)) => true,
            _ => false,
        };
        if has_remote_id {
            self.attachment_type = existing.attachment_type;
        }
        if self.key_packets.is_none() {
            self.key_packets = existing.key_packets;
        }
        if self.enc_signature.is_none() {
            self.enc_signature = existing.enc_signature;
        }
        if self.signature.is_none() {
            self.signature = existing.signature;
        }
    }
}

/// The character with the ASCII code `n`.
fn char_of_ascii(n: u32) -> (r: char)
    requires
        n < 128,
    ensures
        r == n as char,
{
    let b: u8 = n as u8;
    b as char
}

} // verus!
