//! Request core of the Tex file browser: identity resolution, sandboxed
//! authorization, visibility gating, content dispatch and page assembly.
//!
//! Every function here is pure: the account store, the file store, the MIME
//! database and the component renderer are driven by the caller, which hands
//! their answers in as plain values.

mod escape;
mod file;
mod fs;
mod strings;
mod topbar;

pub use escape::{
    encode_safe, escape_char, escape_safe, lemma_escape_has_no_markup, lemma_escape_round_trip,
    unescape,
};
pub use strings::{decimal, signed_decimal, str_eq};
pub use file::{
    audio, caption, html, html_friendly_mime, size, text, video, ImgProp, HTML_CSS, MD_CSS,
    OGG_AUDIO, OPUS_OGG, PLAIN_CSS, RUST_CSS, TEX_CSS,
};
pub use topbar::{
    chrome, requester, resolve_identity, topbar_props, AccountInfo, Identity, NavView,
    TopbarLoggedinProps, TOPBAR_LOGGEDOUT,
};
pub use fs::{
    access_url, classify_target, display_css, error_reply, file_action, file_reply, file_stage,
    is_owner, lemma_listing_nonce, lemma_owner_request, lemma_pdf_streamed,
    lemma_private_as_missing, lemma_stale_token, listing_reply, listing_security, needs_fetch,
    pick_mime, session_reply, sub_path_contained, target_account, visibility_gate, FileAction,
    FileDisplay, FsError, ListingSecurity, MimeType, Reply, TargetKind, Visibility, FILE_CSP,
};
pub use file::{lemma_caption_mime, lemma_text_display_decodes};
