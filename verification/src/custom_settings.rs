//! The user's device-side settings: signatures and swipe behaviour, with the
//! defaults that apply while a setting was never chosen.

use vstd::prelude::*;
use crate::text::{chars_of, replace_chars, replaced, string_from_chars, trim_chars, trimmed};
use crate::types::NotAMagicLocalIdError;

verus! {

/// The mobile signature used while the user has not written one.
pub const PM_SIGNATURE: &'static str = "Sent from Proton Mail mobile";

/// The only id that the single row of custom settings is stored under.
pub const CUSTOM_SETTINGS_MAGIC_ID: u32 = 1;

/// The id of the (single) custom settings record.
#[derive(Clone, Copy, Debug, PartialEq, Eq, Structural)]
pub struct CustomSettingsId;

impl Default for CustomSettingsId {
    fn default() -> (r: Self)
        ensures
            r == CustomSettingsId,
    {
        CustomSettingsId
    }
}

impl CustomSettingsId {
    /// Reads the id back from its stored number: only the magic id is one.
    pub fn from_column(got: u32) -> (r: Result<Self, NotAMagicLocalIdError>)
        ensures
            got == CUSTOM_SETTINGS_MAGIC_ID ==> r == Ok::<Self, NotAMagicLocalIdError>(
                CustomSettingsId,
            ),
            got != CUSTOM_SETTINGS_MAGIC_ID ==> r == Err::<Self, NotAMagicLocalIdError>(
                NotAMagicLocalIdError { expected: CUSTOM_SETTINGS_MAGIC_ID, got },
            ),
    {
        if got == CUSTOM_SETTINGS_MAGIC_ID {
            Ok(CustomSettingsId)
        } else {
            Err(NotAMagicLocalIdError { expected: CUSTOM_SETTINGS_MAGIC_ID, got })
        }
    }

    /// The number the id is stored as.
    pub fn to_column(&self) -> (r: i64)
        ensures
            r == CUSTOM_SETTINGS_MAGIC_ID,
    {
        1
    }
}

/// The settings that an older app version hands over when the user first
/// logs in with this one.
#[derive(Clone, Debug)]
pub struct PostLoginMobileMigrationPayload {
    pub address_signature_enabled: Option<bool>,
    pub mobile_signature: Option<String>,
    pub mobile_signature_enabled: Option<bool>,
}

/// Device-side settings; a field that is `None` was never chosen and reads as
/// its default.
#[derive(Clone, Debug)]
pub struct CustomSettings {
    pub local_id: CustomSettingsId,
    pub address_signature_enabled: Option<bool>,
    pub mobile_signature: Option<String>,
    pub mobile_signature_enabled: Option<bool>,
    pub swipe_to_adjacent_conversation: Option<bool>,
}

/// What a mobile signature is stored as: trimmed, and with every line break
/// (`"\r\n"` first, then a lone `"\n"`) turned into an HTML line break.
pub open spec fn sanitized_signature(sig: Seq<char>) -> Seq<char> {
    replaced(replaced(trimmed(sig), "\r\n"@, "<br />"@), "\n"@, "<br />"@)
}

/// The value of an optional flag that defaults to `true`.
pub open spec fn enabled_by_default(v: Option<bool>) -> bool {
    match v {
        Some(b) => b,
        None => true,
    }
}

impl Default for CustomSettings {
    fn default() -> (r: Self)
        ensures
            r.address_signature_enabled.is_none(),
            r.mobile_signature.is_none(),
            r.mobile_signature_enabled.is_none(),
            r.swipe_to_adjacent_conversation.is_none(),
    {
        CustomSettings {
            local_id: CustomSettingsId,
            address_signature_enabled: None,
            mobile_signature: None,
            mobile_signature_enabled: None,
            swipe_to_adjacent_conversation: None,
        }
    }
}

impl CustomSettings {
    /// The settings a new login starts from: the defaults, overridden by what
    /// an older app version handed over, its signature sanitized.
    pub fn initial(payload: Option<PostLoginMobileMigrationPayload>) -> (r: Self)
        ensures
            r.swipe_to_adjacent_conversation.is_none(),
            match payload {
                None => r.address_signature_enabled.is_none() && r.mobile_signature.is_none()
                    && r.mobile_signature_enabled.is_none(),
                Some(p) => {
                    &&& r.address_signature_enabled == p.address_signature_enabled
                    &&& r.mobile_signature_enabled == p.mobile_signature_enabled
                    &&& r.mobile_signature.is_some() == p.mobile_signature.is_some()
                    &&& p.mobile_signature.is_some() ==> r.mobile_signature.unwrap()@
                        == sanitized_signature(p.mobile_signature.unwrap()@)
                },
            },
    {
        let mut this = Self::default();
        match payload {
            Some(p) => {
                this.address_signature_enabled = p.address_signature_enabled;
                this.mobile_signature = match &p.mobile_signature {
                    Some(sig) => Some(Self::sanitize_mobile_signature(sig.as_str())),
                    None => None,
                };
                this.mobile_signature_enabled = p.mobile_signature_enabled;
            },
            None => {},
        }
        this
    }

    pub fn address_signature_enabled(&self) -> (r: bool)
        ensures
            r == enabled_by_default(self.address_signature_enabled),
    {
        match self.address_signature_enabled {
            Some(b) => b,
            None => true,
        }
    }

    pub fn with_address_signature_enabled(self, address_signature_enabled: bool) -> (r: Self)
        ensures
            r.address_signature_enabled == Some(address_signature_enabled),
            r.mobile_signature == self.mobile_signature,
            r.mobile_signature_enabled == self.mobile_signature_enabled,
            r.swipe_to_adjacent_conversation == self.swipe_to_adjacent_conversation,
    {
        let mut this = self;
        this.address_signature_enabled = Some(address_signature_enabled);
        this
    }

    /// The user's mobile signature, or the default one while none was written.
    pub fn mobile_signature(&self) -> (r: &str)
        ensures
            r@ == match self.mobile_signature {
                Some(s) => s@,
                None => PM_SIGNATURE@,
            },
    {
        match &self.mobile_signature {
            Some(s) => s.as_str(),
            None => PM_SIGNATURE,
        }
    }

    pub fn with_mobile_signature(self, mobile_signature: &str) -> (r: Self)
        ensures
            r.mobile_signature.is_some(),
            r.mobile_signature.unwrap()@ == mobile_signature@,
            r.address_signature_enabled == self.address_signature_enabled,
            r.mobile_signature_enabled == self.mobile_signature_enabled,
            r.swipe_to_adjacent_conversation == self.swipe_to_adjacent_conversation,
    {
        let mut this = self;
        this.mobile_signature = Some(string_from_chars(&chars_of(mobile_signature)));
        this
    }

    /// Stores a new mobile signature (sanitized), or forgets it with `None`.
    pub fn set_mobile_signature(&mut self, signature: Option<String>)
        ensures
            final(self).mobile_signature.is_some() == signature.is_some(),
            signature.is_some() ==> final(self).mobile_signature.unwrap()@ == sanitized_signature(
                signature.unwrap()@,
            ),
            *final(self) == (CustomSettings {
                mobile_signature: final(self).mobile_signature,
                ..*old(self)
            }),
    {
        self.mobile_signature = match &signature {
            Some(sig) => Some(Self::sanitize_mobile_signature(sig.as_str())),
            None => None,
        };
    }

    pub fn with_mobile_signature_enabled(self, mobile_signature_enabled: bool) -> (r: Self)
        ensures
            r.mobile_signature_enabled == Some(mobile_signature_enabled),
            r.address_signature_enabled == self.address_signature_enabled,
            r.mobile_signature == self.mobile_signature,
            r.swipe_to_adjacent_conversation == self.swipe_to_adjacent_conversation,
    {
        let mut this = self;
        this.mobile_signature_enabled = Some(mobile_signature_enabled);
        this
    }

    pub fn with_swipe_to_adjacent_conversation(self, swipe_to_adjacent_conversation: bool) -> (r:
        Self)
        ensures
            r.swipe_to_adjacent_conversation == Some(swipe_to_adjacent_conversation),
            r.address_signature_enabled == self.address_signature_enabled,
            r.mobile_signature == self.mobile_signature,
            r.mobile_signature_enabled == self.mobile_signature_enabled,
    {
        let mut this = self;
        this.swipe_to_adjacent_conversation = Some(swipe_to_adjacent_conversation);
        this
    }

    pub fn mobile_signature_enabled(&self) -> (r: bool)
        ensures
            r == enabled_by_default(self.mobile_signature_enabled),
    {
        match self.mobile_signature_enabled {
            Some(b) => b,
            None => true,
        }
    }

    pub fn swipe_to_adjacent_conversation(&self) -> (r: bool)
        ensures
            r == enabled_by_default(self.swipe_to_adjacent_conversation),
    {
        match self.swipe_to_adjacent_conversation {
            Some(b) => b,
            None => true,
        }
    }

    /// From user's perspective inputting newlines is easier than writing HTML
    /// tags, so for better UX we convert plain newlines into "HTML newlines".
    pub fn sanitize_mobile_signature(sig: &str) -> (r: String)
        ensures
            r@ == sanitized_signature(sig@),
    {
        let trimmed_sig = trim_chars(&chars_of(sig));
        let br = chars_of("<br />");
        let crlf = replace_chars(&trimmed_sig, &chars_of("\r\n"), &br);
        let lf = replace_chars(&crlf, &chars_of("\n"), &br);
        string_from_chars(&lf)
    }
}

/// A sanitized signature holds no line feed: every one became an HTML line
/// break.
pub proof fn lemma_sanitized_signature_has_no_line_feed(sig: Seq<char>)
    ensures
        !sanitized_signature(sig).contains('\n'),
{
    reveal_strlit("\n");
    reveal_strlit("<br />");
    assert("\n"@ =~= seq!['\n']);
    assert(!"<br />"@.contains('\n')) by {
        assert forall|k: int| 0 <= k < "<br />"@.len() implies "<br />"@[k] != '\n' by {}
    }
    crate::text::lemma_replaced_removes_char(
        replaced(trimmed(sig), "\r\n"@, "<br />"@),
        '\n',
        "<br />"@,
    );
}

/// A result that is computed from the settings and is the settings.
#[derive(Debug)]
pub struct SyncedCustomSettings {
    settings: CustomSettings,
}

impl SyncedCustomSettings {
    pub fn new(settings: CustomSettings) -> (r: Self)
        ensures
            r.settings() == settings,
    {
        SyncedCustomSettings { settings }
    }

    pub closed spec fn settings(&self) -> CustomSettings {
        self.settings
    }

    /// The settings to store.
    pub fn into_settings(self) -> (r: CustomSettings)
        ensures
            r == self.settings(),
    {
        self.settings
    }
}

/// Whether the user can and does use a mobile signature.
#[derive(Clone, Copy, Debug, PartialEq, Eq, Structural)]
pub enum MobileSignatureStatus {
    Enabled,
    Disabled,
    NeedsPaidVersion,
}

impl MobileSignatureStatus {
    /// A mobile signature takes a paid mail plan; with one, the setting decides.
    pub fn new(has_paid_mail_plan: bool, settings: &CustomSettings) -> (r: Self)
        ensures
            r == if !has_paid_mail_plan {
                MobileSignatureStatus::NeedsPaidVersion
            } else if enabled_by_default(settings.mobile_signature_enabled) {
                MobileSignatureStatus::Enabled
            } else {
                MobileSignatureStatus::Disabled
            },
    {
        if has_paid_mail_plan {
            if settings.mobile_signature_enabled() {
                MobileSignatureStatus::Enabled
            } else {
                MobileSignatureStatus::Disabled
            }
        } else {
            MobileSignatureStatus::NeedsPaidVersion
        }
    }
}

} // verus!
