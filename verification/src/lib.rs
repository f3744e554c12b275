//! Modal-dialog overlay management for an immediate-mode GUI host.
//!
//! The crate models the dialog queue engine: a FIFO queue of pending dialog
//! entries, a single fade slot for a just-closed entry, typed replies
//! carried in a tagged container, and localized standard dialogs.  The host
//! drives the engine once per redraw frame through [`Dialogs::show`]; the
//! engine never blocks, and "waiting for a reply" is a frame that returns
//! no payload.

mod dialog_details;
mod dialogs;
mod standard_dialog;

pub use dialog_details::Dialog;
pub use dialog_details::DialogDetails;
pub use dialog_details::MaskColor;
pub use dialog_details::ReplyMap;
pub use dialog_details::apply_reply_map;
pub use dialog_details::default_mask;
pub use dialog_details::reply_accepted;
pub use dialog_details::reply_rejected;
pub use dialog_details::spec_apply;
pub use dialogs::DialogContext;
pub use dialogs::DialogResponse;
pub use dialogs::Dialogs;
pub use dialogs::ReplyValue;
pub use dialogs::OPACITY_FULL;
pub use dialogs::id_matches;
pub use dialogs::lemma_disabled_animation_snaps;
pub use dialogs::lemma_fading_excludes_live;
pub use dialogs::lemma_submission_order;
pub use dialogs::queue_has_id;
pub use dialogs::replied_outcome;
pub use dialogs::reply_eq;
pub use dialogs::response_eq;
pub use dialogs::same_meta;
pub use dialogs::still_open_outcome;
pub use standard_dialog::DialogIcon;
pub use standard_dialog::StandardButton;
pub use standard_dialog::StandardDialog;
pub use standard_dialog::StandardDialogDetails;
pub use standard_dialog::StandardOutcome;
pub use standard_dialog::StandardReply;
pub use standard_dialog::StandardSurface;
pub use standard_dialog::acknowledge_buttons;
pub use standard_dialog::confirm_buttons;
pub use standard_dialog::fallback_of;
pub use standard_dialog::find_translation;
pub use standard_dialog::is_standard_text;
pub use standard_dialog::last_clicked_before;
pub use standard_dialog::lemma_close_uses_last_button;
pub use standard_dialog::lemma_localized_fallback;
pub use standard_dialog::lemma_localized_first_match;
pub use standard_dialog::localize_in;
pub use standard_dialog::localized;
pub use standard_dialog::localized_from;
pub use standard_dialog::spec_respond;
pub use standard_dialog::standard_entry;
pub use standard_dialog::translation_of;
