//! Verified core of the mail client: the data models, counters, decision
//! rules and small parsers that the synchronisation and storage layers build on.

mod text;
mod clock;
pub mod errors;

pub mod types;
pub mod labels;
pub mod message;
pub mod counters;
pub mod search_results;
pub mod custom_settings;
pub mod message_body;
pub mod message_mime_type;
pub mod records;
pub mod rollback;
pub mod prefetch;
pub mod incoming_default;
pub mod default_location;
pub mod mail_settings;
pub mod sidebar;
pub mod conversation;
pub mod draft_errors;
pub mod draft;
pub mod attachment_cache;
pub mod mail_scroller;
pub mod attachment;
pub mod actions;
pub mod read_state;
