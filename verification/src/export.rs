//! The export orchestrator: one pass over the message load results,
//! producing the finished HTML document and the referenced blob list.
//!
//! Fetching the message identifier list, loading each message and looking
//! contacts up are the caller's business (they go through external
//! stores); the caller hands the ordered load results and the ordered
//! contact lookup results in as plain values.

use vstd::prelude::*;
use vstd::string::StringExecFns;
use crate::author_map::spec_get;
use crate::authors::attachment_blobs;
use crate::authors::avatar_blobs;
use crate::authors::resolve_authors;
use crate::authors::resolved_entries;
use crate::authors::views_of;
use crate::render::error_to_html;
use crate::render::error_html;
use crate::render::message_html;
use crate::render::message_to_html;
use crate::render::resolved_author;
use crate::types::AuthorView;
use crate::types::Contact;
use crate::types::ExportChatResult;
use crate::types::Message;

verus! {

/// The list item rendered for one load result: the message's fragment on
/// success, the error fragment on failure.
pub open spec fn fragment_of(
    l: Result<Message, String>,
    entries: Seq<(u32, AuthorView)>,
    self_id: u32,
) -> Seq<char> {
    match l {
        Ok(m) => message_html(resolved_author(entries, m.from_id), m, self_id),
        Err(e) => error_html(e@),
    }
}

/// The concatenated fragments of all load results, in order.
pub open spec fn body_of(
    loads: Seq<Result<Message, String>>,
    entries: Seq<(u32, AuthorView)>,
    self_id: u32,
) -> Seq<char>
    decreases loads.len(),
{
    if loads.len() == 0 {
        Seq::empty()
    } else {
        body_of(loads.drop_last(), entries, self_id) + fragment_of(loads.last(), entries, self_id)
    }
}

/// The whole document: the fragments of all load results, rendered
/// against the author mapping resolved from the lookup results, wrapped
/// in a single list container.
pub open spec fn export_html(
    loads: Seq<Result<Message, String>>,
    lookups: Seq<(u32, Option<Contact>)>,
    self_id: u32,
) -> Seq<char> {
    "<ul>"@ + body_of(loads, resolved_entries(lookups), self_id) + "</ul>"@
}

/// Exports one chat: renders every message load result (a fragment per
/// result, success or failure, in order) and collects the referenced blob
/// filenames, attachments first, avatars after.
///
/// `loads` are the per-message load results in the chat's message order;
/// `lookups` are the contact lookup results for the identifiers that
/// `author_ids` returned for these loads, in that order; `self_id` is the
/// reserved identifier of the viewing user.
pub fn export_chat(
    loads: &Vec<Result<Message, String>>,
    lookups: &Vec<(u32, Option<Contact>)>,
    self_id: u32,
) -> (r: ExportChatResult)
    ensures
        r.html@ == export_html(loads@, lookups@, self_id),
        views_of(r.referenced_blobs@) == attachment_blobs(loads@) + avatar_blobs(lookups@),
{
    let mut blobs: Vec<String> = Vec::new();
    proof {
        assert(loads@.subrange(0, 0).len() == 0);
        assert(views_of(blobs@) =~= attachment_blobs(loads@.subrange(0, 0)));
    }
    let mut idx: usize = 0;
    while idx < loads.len()
        invariant
            idx <= loads@.len(),
            views_of(blobs@) == attachment_blobs(loads@.subrange(0, idx as int)),
        decreases loads@.len() - idx,
    {
        proof {
            assert(loads@.subrange(0, idx + 1).drop_last() =~= loads@.subrange(0, idx as int));
            assert(loads@.subrange(0, idx + 1).last() == loads@[idx as int]);
        }
        match &loads[idx] {
            Ok(m) => match &m.filename {
                Some(f) => {
                    blobs.push(f.clone());
                }
                None => {}
            },
            Err(_) => {}
        }
        proof {
            assert(views_of(blobs@) =~= attachment_blobs(loads@.subrange(0, idx + 1)));
        }
        idx = idx + 1;
    }
    proof {
        assert(loads@.subrange(0, loads@.len() as int) =~= loads@);
    }
    let (map, mut avatars) = resolve_authors(lookups);
    blobs.append(&mut avatars);
    proof {
        assert(views_of(blobs@) =~= attachment_blobs(loads@) + avatar_blobs(lookups@));
    }

    let ghost entries = resolved_entries(lookups@);
    let mut html = "<ul>".to_owned();
    let mut i: usize = 0;
    while i < loads.len()
        invariant
            i <= loads@.len(),
            map@ == entries,
            entries == resolved_entries(lookups@),
            spec_get(map@, 0) is Some,
            html@ == "<ul>"@ + body_of(loads@.subrange(0, i as int), entries, self_id),
        decreases loads@.len() - i,
    {
        proof {
            assert(loads@.subrange(0, i + 1).drop_last() =~= loads@.subrange(0, i as int));
            assert(loads@.subrange(0, i + 1).last() == loads@[i as int]);
        }
        match &loads[i] {
            Ok(m) => {
                let frag = message_to_html(&map, m, self_id);
                html.append(frag.as_str());
            }
            Err(e) => {
                let frag = error_to_html(e.as_str());
                html.append(frag.as_str());
            }
        }
        proof {
            assert(html@ =~= "<ul>"@ + body_of(loads@.subrange(0, i + 1), entries, self_id));
        }
        i = i + 1;
    }
    html.append("</ul>");
    proof {
        assert(loads@.subrange(0, loads@.len() as int) =~= loads@);
        assert(html@ =~= export_html(loads@, lookups@, self_id));
    }
    ExportChatResult { html, referenced_blobs: blobs }
}

} // verus!

