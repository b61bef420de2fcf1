//! Data model: messages, contacts, resolved author records, and the export
//! result handed back to the caller.

use vstd::prelude::*;

verus! {

/// A chat message, already materialized from the external message store.
///
/// The timestamp is carried along but not yet used by the formatting logic,
/// which still emits fixed placeholder time strings.
pub struct Message {
    /// Author identifier of the sender.
    pub from_id: u32,
    /// Attachment filename, if the message carries one.
    pub filename: Option<String>,
    /// Text body, if any.
    pub text: Option<String>,
    /// Whether the message was transmitted encrypted.
    pub show_padlock: bool,
    /// Unix timestamp of the message (unused by the renderer so far).
    pub timestamp: i64,
}

/// A contact record, as the external contact store hands it out.
pub struct Contact {
    /// Name to display for this contact.
    pub display_name: String,
    /// Filesystem path of the contact's profile image, if one is set.
    pub profile_image_path: Option<String>,
}

/// A resolved display record for one author: what the renderer needs to
/// draw the avatar block and the author line of a message.
pub struct ContactInfo {
    /// Display name.
    pub name: String,
    /// Single-character initial shown in the avatar placeholder
    /// (a fixed placeholder for now).
    pub initial: String,
    /// CSS color of the author (a fixed placeholder for now).
    pub color: String,
    /// Avatar image filename relative to the `blobs/` directory, if any.
    pub profile_img: Option<String>,
}

/// The finished export: the HTML document and the ordered list of blob
/// filenames it references. The caller is responsible for packaging the
/// named files under a `blobs/` directory alongside the HTML.
pub struct ExportChatResult {
    /// The complete HTML list of message fragments.
    pub html: String,
    /// Referenced blob filenames, in discovery order, not deduplicated.
    pub referenced_blobs: Vec<String>,
}

/// The mathematical shadow of a `ContactInfo`: the same fields as sequences
/// of characters, so that contracts can speak of author records without
/// constructing executable strings.
pub struct AuthorView {
    pub name: Seq<char>,
    pub initial: Seq<char>,
    pub color: Seq<char>,
    pub profile_img: Option<Seq<char>>,
}

impl View for ContactInfo {
    type V = AuthorView;

    open spec fn view(&self) -> AuthorView {
        AuthorView {
            name: self.name@,
            initial: self.initial@,
            color: self.color@,
            profile_img: match self.profile_img {
                Some(f) => Some(f@),
                None => None,
            },
        }
    }
}

/// The fallback record used whenever an author identifier cannot be
/// resolved to a real contact.
pub open spec fn sentinel_view() -> AuthorView {
    AuthorView {
        name: "Err: Contact not found"@,
        initial: "#"@,
        color: "grey"@,
        profile_img: None,
    }
}

} // verus!
