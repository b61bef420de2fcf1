//! Author resolution: collecting author identifiers from the loaded
//! messages and turning contact lookup results into the author mapping
//! and the list of avatar blob filenames.
//!
//! The contact store itself is an external collaborator. The caller runs
//! `author_ids` over the load results, performs one lookup per returned
//! identifier, and hands the ordered lookup results to `resolve_authors`.

use vstd::prelude::*;
use vstd::string::StrSliceExecFns;
use vstd::string::StringExecFnsIsAscii;
use crate::author_map::AuthorMap;
use crate::author_map::spec_get;
use crate::paths::file_name;
use crate::paths::file_name_of;
use crate::types::AuthorView;
use crate::types::Contact;
use crate::types::ContactInfo;
use crate::types::Message;
use crate::types::sentinel_view;

verus! {

/// The views of a list of strings.
pub open spec fn views_of(v: Seq<String>) -> Seq<Seq<char>> {
    v.map_values(|s: String| s@)
}

/// The author identifiers of the successfully loaded messages, in order.
pub open spec fn ok_author_ids(loads: Seq<Result<Message, String>>) -> Seq<u32>
    decreases loads.len(),
{
    if loads.len() == 0 {
        Seq::empty()
    } else {
        let rest = ok_author_ids(loads.drop_last());
        match loads.last() {
            Ok(m) => rest.push(m.from_id),
            Err(_) => rest,
        }
    }
}

/// `s` with immediately-adjacent duplicates removed (and only those:
/// the same identifier may still occur twice when separated).
pub open spec fn adjacent_dedup(s: Seq<u32>) -> Seq<u32>
    decreases s.len(),
{
    if s.len() <= 1 {
        s
    } else {
        let rest = adjacent_dedup(s.drop_last());
        if s.last() == s[s.len() - 2] {
            rest
        } else {
            rest.push(s.last())
        }
    }
}

/// The identifiers to look up in the contact store: one per successfully
/// loaded message, with adjacent duplicates dropped.
pub open spec fn author_ids_of(loads: Seq<Result<Message, String>>) -> Seq<u32> {
    adjacent_dedup(ok_author_ids(loads))
}

/// The attachment filenames of the successfully loaded messages, in order.
pub open spec fn attachment_blobs(loads: Seq<Result<Message, String>>) -> Seq<Seq<char>>
    decreases loads.len(),
{
    if loads.len() == 0 {
        Seq::empty()
    } else {
        let rest = attachment_blobs(loads.drop_last());
        match loads.last() {
            Ok(m) => match m.filename {
                Some(f) => rest.push(f@),
                None => rest,
            },
            Err(_) => rest,
        }
    }
}

/// The display record derived from a found contact: the display name is
/// taken over, initial and color are still fixed placeholders, and the
/// avatar is the file name of the profile image path when that name is
/// not empty.
pub open spec fn info_view_of_contact(c: Contact) -> AuthorView {
    AuthorView {
        name: c.display_name@,
        initial: "#"@,
        color: "rgb(18, 126, 208)"@,
        profile_img: match c.profile_image_path {
            Some(p) => if file_name_of(p@).len() > 0 {
                Some(file_name_of(p@))
            } else {
                None
            },
            None => None,
        },
    }
}

/// The mapping entries contributed by one lookup result: one record when
/// the contact was found, none when the lookup failed.
pub open spec fn lookup_entry(l: (u32, Option<Contact>)) -> Seq<(u32, AuthorView)> {
    match l.1 {
        Some(c) => seq![(l.0, info_view_of_contact(c))],
        None => Seq::empty(),
    }
}

/// The mapping entries contributed by all lookup results, in order.
pub open spec fn lookup_entries(ls: Seq<(u32, Option<Contact>)>) -> Seq<(u32, AuthorView)>
    decreases ls.len(),
{
    if ls.len() == 0 {
        Seq::empty()
    } else {
        lookup_entries(ls.drop_last()) + lookup_entry(ls.last())
    }
}

/// The full author mapping: the sentinel record under key 0 first, then
/// one record per found contact.
pub open spec fn resolved_entries(ls: Seq<(u32, Option<Contact>)>) -> Seq<(u32, AuthorView)> {
    seq![(0u32, sentinel_view())] + lookup_entries(ls)
}

/// The avatar blob filenames appended during resolution: the file name of
/// each found contact's profile image path, in lookup order, even when
/// that file name is empty.
pub open spec fn avatar_blobs(ls: Seq<(u32, Option<Contact>)>) -> Seq<Seq<char>>
    decreases ls.len(),
{
    if ls.len() == 0 {
        Seq::empty()
    } else {
        let rest = avatar_blobs(ls.drop_last());
        match ls.last().1 {
            Some(c) => match c.profile_image_path {
                Some(p) => rest.push(file_name_of(p@)),
                None => rest,
            },
            None => rest,
        }
    }
}

/// Looking a record up in a concatenation of entries: the right-hand
/// entries win, and the left-hand entries answer only when the right has
/// no record for the key.
pub proof fn lemma_spec_get_concat(s: Seq<(u32, AuthorView)>, t: Seq<(u32, AuthorView)>, id: u32)
    ensures
        spec_get(s + t, id) == (match spec_get(t, id) {
            Some(a) => Some(a),
            None => spec_get(s, id),
        }),
    decreases t.len(),
{
    if t.len() == 0 {
        assert(s + t =~= s);
    } else {
        assert((s + t).last() == t.last());
        if t.last().0 == id {
        } else {
            assert((s + t).drop_last() =~= s + t.drop_last());
            lemma_spec_get_concat(s, t.drop_last(), id);
        }
    }
}

/// The resolved mapping always has a record under key 0, whatever the
/// lookup results were.
pub proof fn lemma_sentinel_key_present(ls: Seq<(u32, Option<Contact>)>)
    ensures
        spec_get(resolved_entries(ls), 0) is Some,
{
    let sent = seq![(0u32, sentinel_view())];
    assert(spec_get(sent, 0) == Some(sentinel_view()));
    lemma_spec_get_concat(sent, lookup_entries(ls), 0);
}

/// As long as no lookup was made under the reserved key 0, the record
/// under key 0 is exactly the sentinel record.
pub proof fn lemma_sentinel_record_intact(ls: Seq<(u32, Option<Contact>)>)
    requires
        forall|i: int| 0 <= i < ls.len() ==> (#[trigger] ls[i]).0 != 0,
    ensures
        spec_get(resolved_entries(ls), 0) == Some(sentinel_view()),
    decreases ls.len(),
{
    let sent = seq![(0u32, sentinel_view())];
    assert(spec_get(sent, 0) == Some(sentinel_view()));
    lemma_spec_get_concat(sent, lookup_entries(ls), 0);
    lemma_lookup_entries_skip_key(ls, 0);
}

/// Lookup results never contribute a record under a key that none of
/// them carries.
pub proof fn lemma_lookup_entries_skip_key(ls: Seq<(u32, Option<Contact>)>, id: u32)
    requires
        forall|i: int| 0 <= i < ls.len() ==> (#[trigger] ls[i]).0 != id,
    ensures
        spec_get(lookup_entries(ls), id) is None,
    decreases ls.len(),
{
    if ls.len() > 0 {
        lemma_lookup_entries_skip_key(ls.drop_last(), id);
        lemma_spec_get_concat(lookup_entries(ls.drop_last()), lookup_entry(ls.last()), id);
        assert(ls[ls.len() - 1].0 != id);
        let e = lookup_entry(ls.last());
        match ls.last().1 {
            Some(_) => {
                assert(e.len() == 1);
                assert(e.last().0 != id);
                assert(e.drop_last().len() == 0);
                assert(spec_get(e.drop_last(), id) is None);
                assert(spec_get(e, id) is None);
            }
            None => {
                assert(spec_get(e, id) is None);
            }
        }
    }
}

/// When every lookup made under one identifier found the same contact,
/// the record effective for that identifier is that contact's, however
/// often the identifier was looked up.
pub proof fn lemma_consistent_lookup_resolves(ls: Seq<(u32, Option<Contact>)>, id: u32, c: Contact)
    requires
        exists|i: int| 0 <= i < ls.len() && #[trigger] ls[i] == (id, Some(c)),
        forall|i: int| 0 <= i < ls.len() && (#[trigger] ls[i]).0 == id ==> ls[i].1 == Some(c),
    ensures
        spec_get(resolved_entries(ls), id) == Some(info_view_of_contact(c)),
{
    lemma_consistent_lookup_entries(ls, id, c);
    lemma_spec_get_concat(seq![(0u32, sentinel_view())], lookup_entries(ls), id);
}

proof fn lemma_consistent_lookup_entries(ls: Seq<(u32, Option<Contact>)>, id: u32, c: Contact)
    requires
        exists|i: int| 0 <= i < ls.len() && #[trigger] ls[i] == (id, Some(c)),
        forall|i: int| 0 <= i < ls.len() && (#[trigger] ls[i]).0 == id ==> ls[i].1 == Some(c),
    ensures
        spec_get(lookup_entries(ls), id) == Some(info_view_of_contact(c)),
    decreases ls.len(),
{
    let last = ls.last();
    let e = lookup_entry(last);
    lemma_spec_get_concat(lookup_entries(ls.drop_last()), e, id);
    if last.0 == id {
        assert(ls[ls.len() - 1].0 == id);
        assert(last.1 == Some(c));
        assert(e.len() == 1);
        assert(spec_get(e, id) == Some(info_view_of_contact(c)));
    } else {
        let i = choose|i: int| 0 <= i < ls.len() && #[trigger] ls[i] == (id, Some(c));
        assert(i < ls.len() - 1);
        assert(ls.drop_last()[i] == ls[i]);
        lemma_consistent_lookup_entries(ls.drop_last(), id, c);
        match last.1 {
            Some(_) => {
                assert(e.len() == 1);
                assert(e.last().0 != id);
                assert(e.drop_last().len() == 0);
                assert(spec_get(e.drop_last(), id) is None);
                assert(spec_get(e, id) is None);
            }
            None => {
                assert(spec_get(e, id) is None);
            }
        }
    }
}

/// The identifiers to look up in the contact store: the author identifier
/// of each successfully loaded message, in order, with immediately-adjacent
/// duplicates removed.
pub fn author_ids(loads: &Vec<Result<Message, String>>) -> (r: Vec<u32>)
    ensures
        r@ == author_ids_of(loads@),
{
    let mut ids: Vec<u32> = Vec::new();
    proof {
        assert(loads@.subrange(0, 0).len() == 0);
    }
    let mut idx: usize = 0;
    while idx < loads.len()
        invariant
            idx <= loads@.len(),
            ids@ == author_ids_of(loads@.subrange(0, idx as int)),
        decreases loads@.len() - idx,
    {
        let ghost prefix = loads@.subrange(0, idx as int);
        let ghost raw = ok_author_ids(prefix);
        proof {
            assert(loads@.subrange(0, idx + 1).drop_last() =~= prefix);
            assert(loads@.subrange(0, idx + 1).last() == loads@[idx as int]);
            lemma_dedup_tracks_last(raw);
        }
        match &loads[idx] {
            Ok(m) => {
                let push_needed: bool = if ids.len() == 0 {
                    true
                } else {
                    *ids.last().unwrap() != m.from_id
                };
                proof {
                    lemma_dedup_push(raw, m.from_id);
                }
                if push_needed {
                    ids.push(m.from_id);
                }
            }
            Err(_) => {}
        }
        idx = idx + 1;
    }
    proof {
        assert(loads@.subrange(0, loads@.len() as int) =~= loads@);
    }
    ids
}

/// Removing adjacent duplicates keeps emptiness and the last element.
proof fn lemma_dedup_tracks_last(s: Seq<u32>)
    ensures
        adjacent_dedup(s).len() == 0 <==> s.len() == 0,
        s.len() > 0 ==> adjacent_dedup(s).last() == s.last(),
    decreases s.len(),
{
    if s.len() > 1 {
        lemma_dedup_tracks_last(s.drop_last());
    }
}

/// How adjacent deduplication grows when one identifier is appended.
proof fn lemma_dedup_push(s: Seq<u32>, x: u32)
    ensures
        adjacent_dedup(s.push(x)) == (if s.len() > 0 && s.last() == x {
            adjacent_dedup(s)
        } else {
            adjacent_dedup(s).push(x)
        }),
{
    let grown = s.push(x);
    assert(grown.drop_last() =~= s);
    if s.len() == 0 {
        assert(adjacent_dedup(grown) =~= adjacent_dedup(s).push(x));
    } else {
        assert(grown[grown.len() - 2] == s.last());
    }
}

/// Builds the author mapping and the avatar blob list from the ordered
/// contact lookup results.
///
/// The mapping starts with the sentinel record under key 0; each found
/// contact adds a record under its identifier (a later record for the same
/// identifier shadows an earlier one); each failed lookup is skipped. For
/// every found contact with a profile image path, the file name of that
/// path is appended to the blob list.
pub fn resolve_authors(lookups: &Vec<(u32, Option<Contact>)>) -> (r: (AuthorMap, Vec<String>))
    ensures
        r.0@ == resolved_entries(lookups@),
        views_of(r.1@) == avatar_blobs(lookups@),
        spec_get(r.0@, 0) is Some,
{
    let mut map = AuthorMap::new();
    let sentinel = ContactInfo {
        name: "Err: Contact not found".to_owned(),
        initial: "#".to_owned(),
        color: "grey".to_owned(),
        profile_img: None,
    };
    proof {
        assert(sentinel@ == sentinel_view());
    }
    map.insert(0, sentinel);
    let mut blobs: Vec<String> = Vec::new();
    proof {
        assert(lookups@.subrange(0, 0).len() == 0);
        assert(map@ =~= resolved_entries(lookups@.subrange(0, 0)));
        assert(views_of(blobs@) =~= avatar_blobs(lookups@.subrange(0, 0)));
    }
    let mut idx: usize = 0;
    while idx < lookups.len()
        invariant
            idx <= lookups@.len(),
            map@ == resolved_entries(lookups@.subrange(0, idx as int)),
            views_of(blobs@) == avatar_blobs(lookups@.subrange(0, idx as int)),
        decreases lookups@.len() - idx,
    {
        let ghost prefix = lookups@.subrange(0, idx as int);
        proof {
            assert(lookups@.subrange(0, idx + 1).drop_last() =~= prefix);
            assert(lookups@.subrange(0, idx + 1).last() == lookups@[idx as int]);
        }
        let pair = &lookups[idx];
        match &pair.1 {
            Some(c) => {
                let img: Option<String> = match &c.profile_image_path {
                    Some(p) => {
                        let fname = file_name(p.as_str());
                        blobs.push(fname.clone());
                        if fname.as_str().is_empty() {
                            None
                        } else {
                            Some(fname)
                        }
                    }
                    None => None,
                };
                let info = ContactInfo {
                    name: c.display_name.clone(),
                    initial: "#".to_owned(),
                    color: "rgb(18, 126, 208)".to_owned(),
                    profile_img: img,
                };
                proof {
                    assert(info@ == info_view_of_contact(*c));
                }
                map.insert(pair.0, info);
            }
            None => {}
        }
        proof {
            assert(map@ =~= resolved_entries(lookups@.subrange(0, idx + 1)));
            assert(views_of(blobs@) =~= avatar_blobs(lookups@.subrange(0, idx + 1)));
        }
        idx = idx + 1;
    }
    proof {
        assert(lookups@.subrange(0, lookups@.len() as int) =~= lookups@);
        lemma_sentinel_key_present(lookups@);
    }
    (map, blobs)
}

} // verus!
