//! The message renderer: one HTML list item per message, and the error
//! list item substituted for a message whose load failed.
//!
//! Rendering is a pure function of the author mapping and the message.
//! The two time strings are still fixed placeholders; real derivation from
//! the message timestamp is future work.

use vstd::prelude::*;
use vstd::string::StringExecFns;
use crate::author_map::AuthorMap;
use crate::author_map::spec_get;
use crate::types::AuthorView;
use crate::types::ContactInfo;
use crate::types::Message;
use crate::types::sentinel_view;

verus! {

/// The CSS direction class of a message: sent by the viewing user or
/// received from someone else.
pub open spec fn direction_class(from_id: u32, self_id: u32) -> Seq<char> {
    if from_id == self_id {
        "outgoing"@
    } else {
        "incoming"@
    }
}

/// The avatar block of an author: an image reference when an avatar blob
/// is known, else a colored placeholder holding the author's initial.
pub open spec fn avatar_html(a: AuthorView) -> Seq<char> {
    match a.profile_img {
        Some(img) => "<div class=\"author-avatar\"><img alt=\""@ + a.name + "\" src=\""@
            + "blobs/"@ + img + "\"/></div>"@,
        None => "<div class=\"author-avatar default\" alt=\""@ + a.name
            + "\"><div class=\"label\" style=\"background-color: "@ + a.color + "\">"@
            + a.initial + "</div></div>"@,
    }
}

/// The encryption marker, present exactly when the message was encrypted.
pub open spec fn padlock_html(show: bool) -> Seq<char> {
    if show {
        "<div aria-label=\"Encryption padlock\" class=\"padlock-icon\"></div>"@
    } else {
        Seq::empty()
    }
}

/// The text body of a message: its text, or nothing.
pub open spec fn text_view(t: Option<String>) -> Seq<char> {
    match t {
        Some(s) => s@,
        None => Seq::empty(),
    }
}

/// The list item rendered for one successfully loaded message, given the
/// resolved record of its author.
pub open spec fn message_html(a: AuthorView, m: Message, self_id: u32) -> Seq<char> {
    "<li class=\"message "@ + direction_class(m.from_id, self_id) + "\">"@
        + avatar_html(a)
        + "<div class=\"msg-container\"><span class=\"author\" style=\"color: "@ + a.color
        + ";\">"@ + a.name
        + "</span><div class=\"msg-body\"><div dir=\"auto\" class=\"text\">"@ + text_view(m.text)
        + "</div><div class=\"metadata\">"@ + padlock_html(m.show_padlock)
        + "<span class=\"date date--"@ + direction_class(m.from_id, self_id)
        + "\" title=\"Tue, Feb 25, 2020 3:49 PM\">Tue 3:49 PM</span><span class=\"spacer\"></span></div></div>"@
        + "</li>"@
}

/// The list item substituted for a message whose load failed, embedding
/// the failure's description.
pub open spec fn error_html(desc: Seq<char>) -> Seq<char> {
    "<li class=\"message "@
        + "error\"><div class=\"msg-container\"><div class=\"msg-body\"><div dir=\"auto\" class=\"text\">"@
        + desc + "</div></div></div>"@ + "</li>"@
}

/// The record a message renders with: the entry under its author
/// identifier, or the entry under the reserved key 0 when the identifier
/// is unmapped (the sentinel itself if even key 0 is absent).
pub open spec fn resolved_author(s: Seq<(u32, AuthorView)>, id: u32) -> AuthorView {
    match spec_get(s, id) {
        Some(a) => a,
        None => match spec_get(s, 0) {
            Some(a) => a,
            None => sentinel_view(),
        },
    }
}

/// Renders one successfully loaded message as an HTML list item, looking
/// its author up in the mapping and falling back to the record under
/// key 0 for an unmapped author identifier.
pub fn message_to_html(author_cache: &AuthorMap, message: &Message, self_id: u32) -> (r: String)
    requires
        spec_get(author_cache@, 0) is Some,
    ensures
        r@ == message_html(resolved_author(author_cache@, message.from_id), *message, self_id),
{
    let author: &ContactInfo = match author_cache.get(message.from_id) {
        Some(c) => c,
        None => author_cache.get(0).unwrap(),
    };
    let ghost a = resolved_author(author_cache@, message.from_id);
    proof {
        assert(author@ == a);
    }
    let mut r = String::new();
    r.append("<li class=\"message ");
    if message.from_id == self_id {
        r.append("outgoing");
    } else {
        r.append("incoming");
    }
    r.append("\">");
    let ghost before_avatar = r@;
    match &author.profile_img {
        Some(img) => {
            r.append("<div class=\"author-avatar\"><img alt=\"");
            r.append(author.name.as_str());
            r.append("\" src=\"");
            r.append("blobs/");
            r.append(img.as_str());
            r.append("\"/></div>");
        }
        None => {
            r.append("<div class=\"author-avatar default\" alt=\"");
            r.append(author.name.as_str());
            r.append("\"><div class=\"label\" style=\"background-color: ");
            r.append(author.color.as_str());
            r.append("\">");
            r.append(author.initial.as_str());
            r.append("</div></div>");
        }
    }
    proof {
        assert(r@ =~= before_avatar + avatar_html(a));
    }
    r.append("<div class=\"msg-container\"><span class=\"author\" style=\"color: ");
    r.append(author.color.as_str());
    r.append(";\">");
    r.append(author.name.as_str());
    r.append("</span><div class=\"msg-body\"><div dir=\"auto\" class=\"text\">");
    let ghost before_text = r@;
    match &message.text {
        Some(t) => r.append(t.as_str()),
        None => {}
    }
    proof {
        assert(r@ =~= before_text + text_view(message.text));
    }
    r.append("</div><div class=\"metadata\">");
    let ghost before_padlock = r@;
    if message.show_padlock {
        r.append("<div aria-label=\"Encryption padlock\" class=\"padlock-icon\"></div>");
    }
    proof {
        assert(r@ =~= before_padlock + padlock_html(message.show_padlock));
    }
    r.append("<span class=\"date date--");
    if message.from_id == self_id {
        r.append("outgoing");
    } else {
        r.append("incoming");
    }
    r.append("\" title=\"Tue, Feb 25, 2020 3:49 PM\">Tue 3:49 PM</span><span class=\"spacer\"></span></div></div>");
    r.append("</li>");
    proof {
        assert(r@ =~= message_html(a, *message, self_id));
    }
    r
}

/// Renders the error list item for a message whose load failed.
pub fn error_to_html(description: &str) -> (r: String)
    ensures
        r@ == error_html(description@),
{
    let mut r = String::new();
    r.append("<li class=\"message ");
    r.append("error\"><div class=\"msg-container\"><div class=\"msg-body\"><div dir=\"auto\" class=\"text\">");
    r.append(description);
    r.append("</div></div></div>");
    r.append("</li>");
    proof {
        assert(r@ =~= error_html(description@));
    }
    r
}

} // verus!
