//! The laws of the export: properties of the rendered document, stated
//! and proved over the same spec functions that the executable functions'
//! contracts use.

use vstd::prelude::*;
use crate::author_map::spec_get;
use crate::authors::attachment_blobs;
use crate::authors::avatar_blobs;
use crate::authors::resolved_entries;
use crate::authors::views_of;
use crate::export::body_of;
use crate::export::export_html;
use crate::export::fragment_of;
use crate::paths::file_name_of;
use crate::render::avatar_html;
use crate::render::direction_class;
use crate::render::error_html;
use crate::render::message_html;
use crate::render::padlock_html;
use crate::render::resolved_author;
use crate::render::text_view;
use crate::text::contains_seq;
use crate::text::ends_with;
use crate::text::lemma_contains_extend_left;
use crate::text::lemma_contains_extend_right;
use crate::text::lemma_contains_middle;
use crate::text::lemma_contains_tail;
use crate::text::lemma_ends_with_concat;
use crate::text::lemma_starts_with_concat;
use crate::text::lemma_starts_with_extend;
use crate::text::starts_with;
use crate::types::AuthorView;
use crate::types::Contact;
use crate::types::ExportChatResult;
use crate::types::Message;
use crate::types::sentinel_view;

verus! {

/// Whether a load result is a successfully loaded message sent by `id`.
pub open spec fn authored_by(l: Result<Message, String>, id: u32) -> bool {
    match l {
        Ok(m) => m.from_id == id,
        Err(_) => false,
    }
}

/// The avatar blob filename a lookup result contributes, if any: the file
/// name of the found contact's profile image path.
pub open spec fn avatar_of_lookup(l: (u32, Option<Contact>)) -> Option<Seq<char>> {
    match l.1 {
        Some(c) => match c.profile_image_path {
            Some(p) => Some(file_name_of(p@)),
            None => None,
        },
        None => None,
    }
}

/// The relative path under which the document references a blob.
pub open spec fn blob_ref(name: Seq<char>) -> Seq<char> {
    "blobs/"@ + name
}

/// Structure of a rendered message item: it is a single list item carrying
/// the message direction class, it shows the author's name inside the
/// author span with the author's color, and when the author record has an
/// avatar it references that avatar as a blob path.
pub proof fn lemma_message_html_parts(a: AuthorView, m: Message, self_id: u32)
    ensures
        starts_with(
            message_html(a, m, self_id),
            "<li class=\"message "@ + direction_class(m.from_id, self_id) + "\">"@,
        ),
        starts_with(message_html(a, m, self_id), "<li class=\"message "@),
        ends_with(message_html(a, m, self_id), "</li>"@),
        contains_seq(message_html(a, m, self_id), a.name),
        contains_seq(
            message_html(a, m, self_id),
            "<div class=\"msg-container\"><span class=\"author\" style=\"color: "@ + a.color
                + ";\">"@ + a.name
                + "</span><div class=\"msg-body\"><div dir=\"auto\" class=\"text\">"@,
        ),
        a.profile_img matches Some(img) ==> contains_seq(message_html(a, m, self_id), blob_ref(img)),
{
    let f = message_html(a, m, self_id);
    let c1: Seq<char> = "<li class=\"message "@;
    let d = direction_class(m.from_id, self_id);
    let c2: Seq<char> = "\">"@;
    let av = avatar_html(a);
    let c3: Seq<char> = "<div class=\"msg-container\"><span class=\"author\" style=\"color: "@;
    let c4: Seq<char> = ";\">"@;
    let c5: Seq<char> = "</span><div class=\"msg-body\"><div dir=\"auto\" class=\"text\">"@;
    let tx = text_view(m.text);
    let c6: Seq<char> = "</div><div class=\"metadata\">"@;
    let pd = padlock_html(m.show_padlock);
    let c7: Seq<char> = "<span class=\"date date--"@;
    let c8: Seq<char> =
        "\" title=\"Tue, Feb 25, 2020 3:49 PM\">Tue 3:49 PM</span><span class=\"spacer\"></span></div></div>"@;
    let c9: Seq<char> = "</li>"@;

    let s2 = c1 + d + c2;
    let s3 = s2 + av;
    let s4 = s3 + c3;
    let s5 = s4 + a.color;
    let s6 = s5 + c4;
    let s7 = s6 + a.name;
    let s8 = s7 + c5;
    let s9 = s8 + tx;
    let s10 = s9 + c6;
    let s11 = s10 + pd;
    let s12 = s11 + c7;
    let s13 = s12 + d;
    let s14 = s13 + c8;
    assert(f == s14 + c9);

    // the item begins with its direction-classed opening tag
    lemma_starts_with_concat(c1, d);
    lemma_starts_with_extend(c1 + d, c2, c1);
    lemma_starts_with_concat(s2, av);
    lemma_starts_with_extend(s3, c3, s2);
    lemma_starts_with_extend(s4, a.color, s2);
    lemma_starts_with_extend(s5, c4, s2);
    lemma_starts_with_extend(s6, a.name, s2);
    lemma_starts_with_extend(s7, c5, s2);
    lemma_starts_with_extend(s8, tx, s2);
    lemma_starts_with_extend(s9, c6, s2);
    lemma_starts_with_extend(s10, pd, s2);
    lemma_starts_with_extend(s11, c7, s2);
    lemma_starts_with_extend(s12, d, s2);
    lemma_starts_with_extend(s13, c8, s2);
    lemma_starts_with_extend(s14, c9, s2);
    lemma_starts_with_extend(s2, av, c1);
    lemma_starts_with_extend(s3, c3, c1);
    lemma_starts_with_extend(s4, a.color, c1);
    lemma_starts_with_extend(s5, c4, c1);
    lemma_starts_with_extend(s6, a.name, c1);
    lemma_starts_with_extend(s7, c5, c1);
    lemma_starts_with_extend(s8, tx, c1);
    lemma_starts_with_extend(s9, c6, c1);
    lemma_starts_with_extend(s10, pd, c1);
    lemma_starts_with_extend(s11, c7, c1);
    lemma_starts_with_extend(s12, d, c1);
    lemma_starts_with_extend(s13, c8, c1);
    lemma_starts_with_extend(s14, c9, c1);

    // and ends with its closing tag
    lemma_ends_with_concat(s14, c9);

    // the author span occurs as one piece
    let span = c3 + a.color + c4 + a.name + c5;
    assert(s8 =~= s3 + span);
    lemma_contains_tail(s3, span);
    lemma_contains_extend_right(s8, tx, span);
    lemma_contains_extend_right(s9, c6, span);
    lemma_contains_extend_right(s10, pd, span);
    lemma_contains_extend_right(s11, c7, span);
    lemma_contains_extend_right(s12, d, span);
    lemma_contains_extend_right(s13, c8, span);
    lemma_contains_extend_right(s14, c9, span);

    // the author's name occurs
    lemma_contains_tail(s6, a.name);
    lemma_contains_extend_right(s7, c5, a.name);
    lemma_contains_extend_right(s8, tx, a.name);
    lemma_contains_extend_right(s9, c6, a.name);
    lemma_contains_extend_right(s10, pd, a.name);
    lemma_contains_extend_right(s11, c7, a.name);
    lemma_contains_extend_right(s12, d, a.name);
    lemma_contains_extend_right(s13, c8, a.name);
    lemma_contains_extend_right(s14, c9, a.name);

    // the avatar blob reference occurs when the record has one
    match a.profile_img {
        Some(img) => {
            let xb = blob_ref(img);
            let avpre = "<div class=\"author-avatar\"><img alt=\""@ + a.name + "\" src=\""@;
            let avpost: Seq<char> = "\"/></div>"@;
            assert(av =~= avpre + xb + avpost);
            lemma_contains_middle(avpre, xb, avpost);
            lemma_contains_extend_left(s2, av, xb);
            lemma_contains_extend_right(s3, c3, xb);
            lemma_contains_extend_right(s4, a.color, xb);
            lemma_contains_extend_right(s5, c4, xb);
            lemma_contains_extend_right(s6, a.name, xb);
            lemma_contains_extend_right(s7, c5, xb);
            lemma_contains_extend_right(s8, tx, xb);
            lemma_contains_extend_right(s9, c6, xb);
            lemma_contains_extend_right(s10, pd, xb);
            lemma_contains_extend_right(s11, c7, xb);
            lemma_contains_extend_right(s12, d, xb);
            lemma_contains_extend_right(s13, c8, xb);
            lemma_contains_extend_right(s14, c9, xb);
        }
        None => {}
    }
}

/// Structure of a rendered error item: a single list item carrying the
/// error class and embedding the failure's description.
pub proof fn lemma_error_html_parts(desc: Seq<char>)
    ensures
        starts_with(error_html(desc), "<li class=\"message "@ + "error\">"@),
        starts_with(error_html(desc), "<li class=\"message "@),
        ends_with(error_html(desc), "</li>"@),
        contains_seq(error_html(desc), desc),
{
    let c1: Seq<char> = "<li class=\"message "@;
    let c2: Seq<char> =
        "error\"><div class=\"msg-container\"><div class=\"msg-body\"><div dir=\"auto\" class=\"text\">"@;
    let c3: Seq<char> = "</div></div></div>"@;
    let c9: Seq<char> = "</li>"@;
    let s1 = c1 + c2;
    let s2 = s1 + desc;
    let s3 = s2 + c3;
    assert(error_html(desc) == s3 + c9);

    lemma_starts_with_concat(c1, c2);
    lemma_starts_with_extend(s1, desc, c1);
    lemma_starts_with_extend(s2, c3, c1);
    lemma_starts_with_extend(s3, c9, c1);

    let short: Seq<char> = "error\">"@;
    proof_error_prefix(c1, c2, short);
    lemma_starts_with_extend(s1, desc, c1 + short);
    lemma_starts_with_extend(s2, c3, c1 + short);
    lemma_starts_with_extend(s3, c9, c1 + short);

    lemma_ends_with_concat(s3, c9);

    lemma_contains_tail(s1, desc);
    lemma_contains_extend_right(s2, c3, desc);
    lemma_contains_extend_right(s3, c9, desc);
}

/// The long opening chunk of the error item begins with the error class.
proof fn proof_error_prefix(c1: Seq<char>, c2: Seq<char>, short: Seq<char>)
    requires
        c1 == "<li class=\"message "@,
        c2 == "error\"><div class=\"msg-container\"><div class=\"msg-body\"><div dir=\"auto\" class=\"text\">"@,
        short == "error\">"@,
    ensures
        starts_with(c1 + c2, c1 + short),
{
    reveal_strlit("<li class=\"message ");
    reveal_strlit(
        "error\"><div class=\"msg-container\"><div class=\"msg-body\"><div dir=\"auto\" class=\"text\">",
    );
    reveal_strlit("error\">");
    assert((c1 + c2).subrange(0, (c1 + short).len() as int) =~= c1 + short);
}

/// An occurrence inside one fragment is an occurrence inside the body.
pub proof fn lemma_contains_in_body(
    loads: Seq<Result<Message, String>>,
    entries: Seq<(u32, AuthorView)>,
    self_id: u32,
    k: int,
    x: Seq<char>,
)
    requires
        0 <= k < loads.len(),
        contains_seq(fragment_of(loads[k], entries, self_id), x),
    ensures
        contains_seq(body_of(loads, entries, self_id), x),
    decreases loads.len(),
{
    if k == loads.len() - 1 {
        assert(loads.last() == loads[k]);
        lemma_contains_extend_left(
            body_of(loads.drop_last(), entries, self_id),
            fragment_of(loads.last(), entries, self_id),
            x,
        );
    } else {
        assert(loads.drop_last()[k] == loads[k]);
        lemma_contains_in_body(loads.drop_last(), entries, self_id, k, x);
        lemma_contains_extend_right(
            body_of(loads.drop_last(), entries, self_id),
            fragment_of(loads.last(), entries, self_id),
            x,
        );
    }
}

/// An occurrence inside the body is an occurrence inside the document.
pub proof fn lemma_contains_in_export(
    loads: Seq<Result<Message, String>>,
    lookups: Seq<(u32, Option<Contact>)>,
    self_id: u32,
    x: Seq<char>,
)
    requires
        contains_seq(body_of(loads, resolved_entries(lookups), self_id), x),
    ensures
        contains_seq(export_html(loads, lookups, self_id), x),
{
    let body = body_of(loads, resolved_entries(lookups), self_id);
    lemma_contains_extend_left("<ul>"@, body, x);
    lemma_contains_extend_right("<ul>"@ + body, "</ul>"@, x);
}

/// The fragments of the load results, one per result, in order.
pub open spec fn fragments_of(
    loads: Seq<Result<Message, String>>,
    entries: Seq<(u32, AuthorView)>,
    self_id: u32,
) -> Seq<Seq<char>> {
    Seq::new(loads.len(), |i: int| fragment_of(loads[i], entries, self_id))
}

/// All of a sequence of pieces, concatenated in order.
pub open spec fn concat_all(ss: Seq<Seq<char>>) -> Seq<char>
    decreases ss.len(),
{
    if ss.len() == 0 {
        Seq::empty()
    } else {
        concat_all(ss.drop_last()) + ss.last()
    }
}

/// The body of the document is exactly the fragments concatenated.
pub proof fn lemma_body_is_concat_of_fragments(
    loads: Seq<Result<Message, String>>,
    entries: Seq<(u32, AuthorView)>,
    self_id: u32,
)
    ensures
        body_of(loads, entries, self_id) == concat_all(fragments_of(loads, entries, self_id)),
    decreases loads.len(),
{
    let frags = fragments_of(loads, entries, self_id);
    if loads.len() == 0 {
        assert(frags.len() == 0);
    } else {
        lemma_body_is_concat_of_fragments(loads.drop_last(), entries, self_id);
        assert(frags.drop_last() =~= fragments_of(loads.drop_last(), entries, self_id));
        assert(frags.last() == fragment_of(loads.last(), entries, self_id));
    }
}

/// One list item per message identifier: the document is a list container
/// around exactly one fragment per load result, in order, and every
/// fragment is a single list item of the message class.
pub proof fn lemma_one_item_per_load(
    loads: Seq<Result<Message, String>>,
    lookups: Seq<(u32, Option<Contact>)>,
    self_id: u32,
)
    ensures
        fragments_of(loads, resolved_entries(lookups), self_id).len() == loads.len(),
        export_html(loads, lookups, self_id) == "<ul>"@ + concat_all(
            fragments_of(loads, resolved_entries(lookups), self_id),
        ) + "</ul>"@,
        forall|i: int|
            0 <= i < loads.len() ==> starts_with(
                #[trigger] fragments_of(loads, resolved_entries(lookups), self_id)[i],
                "<li class=\"message "@,
            ),
        forall|i: int|
            0 <= i < loads.len() ==> ends_with(
                #[trigger] fragments_of(loads, resolved_entries(lookups), self_id)[i],
                "</li>"@,
            ),
{
    let entries = resolved_entries(lookups);
    lemma_body_is_concat_of_fragments(loads, entries, self_id);
    assert forall|i: int| 0 <= i < loads.len() implies starts_with(
        #[trigger] fragments_of(loads, entries, self_id)[i],
        "<li class=\"message "@,
    ) && ends_with(fragments_of(loads, entries, self_id)[i], "</li>"@) by {
        match loads[i] {
            Ok(m) => {
                lemma_message_html_parts(resolved_author(entries, m.from_id), m, self_id);
            }
            Err(e) => {
                lemma_error_html_parts(e@);
            }
        }
    }
}

/// Every avatar blob filename that resolution appended is referenced as a
/// `blobs/<name>` path in the document, provided the record that is
/// effective for its author identifier is the one that contributed it and
/// some successfully loaded message was sent by that identifier.
pub proof fn lemma_avatar_blob_referenced(
    loads: Seq<Result<Message, String>>,
    lookups: Seq<(u32, Option<Contact>)>,
    self_id: u32,
    j: int,
)
    requires
        0 <= j < lookups.len(),
        avatar_of_lookup(lookups[j]) is Some,
        resolved_author(resolved_entries(lookups), lookups[j].0).profile_img == avatar_of_lookup(
            lookups[j],
        ),
        exists|k: int| 0 <= k < loads.len() && authored_by(#[trigger] loads[k], lookups[j].0),
    ensures
        contains_seq(
            export_html(loads, lookups, self_id),
            blob_ref(avatar_of_lookup(lookups[j]).unwrap()),
        ),
{
    let entries = resolved_entries(lookups);
    let id = lookups[j].0;
    let name = avatar_of_lookup(lookups[j]).unwrap();
    let k = choose|k: int| 0 <= k < loads.len() && authored_by(#[trigger] loads[k], id);
    match loads[k] {
        Ok(m) => {
            let a = resolved_author(entries, m.from_id);
            lemma_message_html_parts(a, m, self_id);
            assert(contains_seq(fragment_of(loads[k], entries, self_id), blob_ref(name)));
            lemma_contains_in_body(loads, entries, self_id, k, blob_ref(name));
            lemma_contains_in_export(loads, lookups, self_id, blob_ref(name));
        }
        Err(_) => {
            assert(false);
        }
    }
}

/// The same, under the hypotheses a real contact store meets: every
/// lookup made under the author's identifier found the same contact, that
/// contact's profile image path has a nonempty file name, and some
/// successfully loaded message was sent by that identifier.
pub proof fn lemma_avatar_blob_referenced_consistent(
    loads: Seq<Result<Message, String>>,
    lookups: Seq<(u32, Option<Contact>)>,
    self_id: u32,
    id: u32,
    c: Contact,
)
    requires
        exists|i: int| 0 <= i < lookups.len() && #[trigger] lookups[i] == (id, Some(c)),
        forall|i: int| 0 <= i < lookups.len() && (#[trigger] lookups[i]).0 == id ==> lookups[i].1
            == Some(c),
        c.profile_image_path is Some,
        file_name_of(c.profile_image_path.unwrap()@).len() > 0,
        exists|k: int| 0 <= k < loads.len() && authored_by(#[trigger] loads[k], id),
    ensures
        contains_seq(
            export_html(loads, lookups, self_id),
            blob_ref(file_name_of(c.profile_image_path.unwrap()@)),
        ),
{
    let entries = resolved_entries(lookups);
    let name = file_name_of(c.profile_image_path.unwrap()@);
    crate::authors::lemma_consistent_lookup_resolves(lookups, id, c);
    let k = choose|k: int| 0 <= k < loads.len() && authored_by(#[trigger] loads[k], id);
    match loads[k] {
        Ok(m) => {
            let a = resolved_author(entries, m.from_id);
            assert(a.profile_img == Some(name));
            lemma_message_html_parts(a, m, self_id);
            lemma_contains_in_body(loads, entries, self_id, k, blob_ref(name));
            lemma_contains_in_export(loads, lookups, self_id, blob_ref(name));
        }
        Err(_) => {
            assert(false);
        }
    }
}

/// A message whose author identifier has no record in the mapping renders
/// with the sentinel record: its item shows the sentinel name inside an
/// author span styled with the sentinel color.
pub proof fn lemma_unresolved_author_renders_sentinel(
    lookups: Seq<(u32, Option<Contact>)>,
    m: Message,
    self_id: u32,
)
    requires
        spec_get(resolved_entries(lookups), m.from_id) is None,
        forall|i: int| 0 <= i < lookups.len() ==> (#[trigger] lookups[i]).0 != 0,
    ensures
        resolved_author(resolved_entries(lookups), m.from_id) == sentinel_view(),
        contains_seq(message_html(sentinel_view(), m, self_id), "Err: Contact not found"@),
        contains_seq(
            message_html(sentinel_view(), m, self_id),
            "<div class=\"msg-container\"><span class=\"author\" style=\"color: "@ + "grey"@
                + ";\">"@ + "Err: Contact not found"@
                + "</span><div class=\"msg-body\"><div dir=\"auto\" class=\"text\">"@,
        ),
{
    crate::authors::lemma_sentinel_record_intact(lookups);
    lemma_message_html_parts(sentinel_view(), m, self_id);
}

/// A message sent by the viewing user opens with the outgoing direction
/// class; any other message opens with the incoming one.
pub proof fn lemma_direction_class(a: AuthorView, m: Message, self_id: u32)
    ensures
        m.from_id == self_id ==> starts_with(
            message_html(a, m, self_id),
            "<li class=\"message outgoing\">"@,
        ),
        m.from_id != self_id ==> starts_with(
            message_html(a, m, self_id),
            "<li class=\"message incoming\">"@,
        ),
{
    lemma_message_html_parts(a, m, self_id);
    reveal_strlit("<li class=\"message ");
    reveal_strlit("\">");
    reveal_strlit("outgoing");
    reveal_strlit("incoming");
    reveal_strlit("<li class=\"message outgoing\">");
    reveal_strlit("<li class=\"message incoming\">");
    if m.from_id == self_id {
        assert("<li class=\"message "@ + "outgoing"@ + "\">"@ =~= "<li class=\"message outgoing\">"@);
    } else {
        assert("<li class=\"message "@ + "incoming"@ + "\">"@ =~= "<li class=\"message incoming\">"@);
    }
}

/// Exporting the same chat data twice yields byte-identical HTML and an
/// identical, order-preserving blob list: the export contract determines
/// both entirely from its inputs.
pub proof fn lemma_export_deterministic(
    loads: Seq<Result<Message, String>>,
    lookups: Seq<(u32, Option<Contact>)>,
    self_id: u32,
    r1: ExportChatResult,
    r2: ExportChatResult,
)
    requires
        r1.html@ == export_html(loads, lookups, self_id),
        views_of(r1.referenced_blobs@) == attachment_blobs(loads) + avatar_blobs(lookups),
        r2.html@ == export_html(loads, lookups, self_id),
        views_of(r2.referenced_blobs@) == attachment_blobs(loads) + avatar_blobs(lookups),
    ensures
        r1.html@ == r2.html@,
        views_of(r1.referenced_blobs@) == views_of(r2.referenced_blobs@),
{
}

} // verus!
