//! The user's mail settings as the server keeps them, with their defaults,
//! and the sidebar's choice of system labels that depends on them.

use vstd::prelude::*;
use crate::labels::SystemLabelId;
use crate::message_mime_type::MimeType;
use crate::types::ViewMode;

verus! {

/// Which moved messages stay visible in the drafts and sent folders.
#[derive(Clone, Copy, Debug, PartialEq, Eq, Structural)]
pub enum ShowMoved {
    DoNotKeep,
    KeepInDrafts,
    KeepInSent,
    KeepBoth,
}

/// Whether "all mail" leaves out spam and trash.
#[derive(Clone, Copy, Debug, PartialEq, Eq, Structural)]
pub enum AlmostAllMail {
    Disabled,
    Enabled,
}

/// The part of the mail settings that encryption of outgoing mail needs.
#[derive(Clone, Copy, Debug, PartialEq, Eq, Structural)]
pub struct CryptoMailSettings {
    pub pgp_scheme: u32,
    pub mime_type: MimeType,
    pub sign: bool,
}

/// Mail related user settings; a single record of them is stored.
#[derive(Clone, Debug)]
pub struct MailSettings {
    pub almost_all_mail: AlmostAllMail,
    pub attach_public_key: bool,
    pub auto_delete_spam_and_trash_days: Option<u32>,
    pub auto_save_contacts: bool,
    pub block_sender_confirmation: Option<bool>,
    pub composer_mode: u32,
    pub confirm_link: bool,
    pub delay_send_seconds: u32,
    pub display_name: String,
    pub draft_mime_type: MimeType,
    pub enable_folder_color: bool,
    pub font_face: Option<String>,
    pub hide_remote_images: bool,
    pub hide_embedded_images: bool,
    pub hide_sender_images: bool,
    pub image_proxy: u32,
    pub inherit_parent_folder_color: bool,
    pub message_buttons: u32,
    pub next_message_on_move: Option<u32>,
    pub num_message_per_page: u32,
    pub pgp_scheme: u32,
    pub pm_signature: u32,
    pub pm_signature_referral_link: bool,
    pub prompt_pin: bool,
    pub receive_mime_type: MimeType,
    pub right_to_left: u32,
    pub shortcuts: bool,
    pub show_images: u32,
    pub show_mime_type: MimeType,
    pub show_moved: ShowMoved,
    pub sign: bool,
    pub signature: String,
    pub spam_action: Option<u32>,
    pub sticky_labels: bool,
    pub submission_access: bool,
    pub swipe_left: u32,
    pub swipe_right: u32,
    pub theme: String,
    pub view_layout: u32,
    pub view_mode: ViewMode,
    /// The internal row ID of the record in the database.
    pub row_id: Option<u64>,
}

impl Default for MailSettings {
    fn default() -> (r: Self)
        ensures
            r.auto_save_contacts,
            r.confirm_link,
            r.delay_send_seconds == 10,
            r.inherit_parent_folder_color,
            r.pm_signature_referral_link,
            r.shortcuts,
            !r.sign,
            r.show_moved == ShowMoved::DoNotKeep,
            r.almost_all_mail == AlmostAllMail::Disabled,
            r.view_mode == ViewMode::Conversations,
            r.row_id.is_none(),
    {
        MailSettings {
            almost_all_mail: AlmostAllMail::Disabled,
            attach_public_key: false,
            auto_delete_spam_and_trash_days: None,
            auto_save_contacts: true,
            block_sender_confirmation: None,
            composer_mode: 0,
            confirm_link: true,
            delay_send_seconds: 10,
            display_name: String::new(),
            draft_mime_type: MimeType::TextHtml,
            enable_folder_color: false,
            font_face: None,
            hide_remote_images: false,
            hide_embedded_images: false,
            hide_sender_images: false,
            image_proxy: 0,
            inherit_parent_folder_color: true,
            message_buttons: 0,
            next_message_on_move: None,
            num_message_per_page: 0,
            pgp_scheme: 0,
            pm_signature: 0,
            pm_signature_referral_link: true,
            prompt_pin: false,
            receive_mime_type: MimeType::TextHtml,
            right_to_left: 0,
            shortcuts: true,
            show_images: 0,
            show_mime_type: MimeType::TextHtml,
            show_moved: ShowMoved::DoNotKeep,
            sign: false,
            signature: String::new(),
            spam_action: None,
            sticky_labels: false,
            submission_access: false,
            swipe_left: 0,
            swipe_right: 0,
            theme: String::new(),
            view_layout: 0,
            view_mode: ViewMode::Conversations,
            row_id: None,
        }
    }
}

impl MailSettings {
    /// Saving keeps a single record: a record already stored is overwritten,
    /// so its row id is taken over.
    pub fn adopt_existing_row(&mut self, existing: Option<&MailSettings>)
        ensures
            final(self).row_id == match existing {
                Some(e) => e.row_id,
                None => old(self).row_id,
            },
            *final(self) == (MailSettings { row_id: final(self).row_id, ..*old(self) }),
    {
        match existing {
            Some(e) => {
                self.row_id = e.row_id;
            },
            None => {},
        }
    }

    /// The portion of the mail settings that is relevant for email encryption.
    pub fn crypto_mail_settings(&self) -> (r: CryptoMailSettings)
        ensures
            r == (CryptoMailSettings {
                pgp_scheme: self.pgp_scheme,
                mime_type: self.draft_mime_type,
                sign: self.sign,
            }),
    {
        CryptoMailSettings {
            pgp_scheme: self.pgp_scheme,
            mime_type: self.draft_mime_type,
            sign: self.sign,
        }
    }

    /// The label that shows all mail: with "almost all mail" enabled, the
    /// one without spam and trash.
    pub fn all_mail(&self) -> (r: SystemLabelId)
        ensures
            r == if self.almost_all_mail == AlmostAllMail::Enabled {
                SystemLabelId::AlmostAllMail
            } else {
                SystemLabelId::AllMail
            },
    {
        match self.almost_all_mail {
            AlmostAllMail::Enabled => SystemLabelId::AlmostAllMail,
            AlmostAllMail::Disabled => SystemLabelId::AllMail,
        }
    }
}

/// Mail settings fetched from the server, ready to be stored.
#[derive(Debug)]
pub struct SyncedMailSettings {
    settings: MailSettings,
}

impl SyncedMailSettings {
    pub fn new(settings: MailSettings) -> (r: Self)
        ensures
            r.settings() == settings,
    {
        SyncedMailSettings { settings }
    }

    pub closed spec fn settings(&self) -> MailSettings {
        self.settings
    }

    /// The settings to store.
    pub fn into_settings(self) -> (r: MailSettings)
        ensures
            r == self.settings(),
    {
        self.settings
    }
}

} // verus!
