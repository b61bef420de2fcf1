//! The author mapping: author identifier to resolved display record.
//!
//! A plain vector of entries stands in for a hash map; lookups let the
//! latest entry for a key win, so inserting again under the same key
//! shadows the earlier record, exactly as a map overwrite would.

use vstd::prelude::*;
use crate::types::AuthorView;
use crate::types::ContactInfo;

verus! {

/// Resolved author records keyed by author identifier.
pub struct AuthorMap {
    entries: Vec<(u32, ContactInfo)>,
}

/// The record for `id` among the entries `s`, letting the latest entry win.
pub open spec fn spec_get(s: Seq<(u32, AuthorView)>, id: u32) -> Option<AuthorView>
    decreases s.len(),
{
    if s.len() == 0 {
        None
    } else if s.last().0 == id {
        Some(s.last().1)
    } else {
        spec_get(s.drop_last(), id)
    }
}

impl View for AuthorMap {
    type V = Seq<(u32, AuthorView)>;

    closed spec fn view(&self) -> Seq<(u32, AuthorView)> {
        self.entries@.map_values(|e: (u32, ContactInfo)| (e.0, e.1@))
    }
}

impl AuthorMap {
    /// An empty mapping.
    pub fn new() -> (m: AuthorMap)
        ensures
            m@ == Seq::<(u32, AuthorView)>::empty(),
    {
        let m = AuthorMap { entries: Vec::new() };
        proof {
            assert(m@ =~= Seq::<(u32, AuthorView)>::empty());
        }
        m
    }

    /// Adds a record under `id`, shadowing any earlier record for `id`.
    pub fn insert(&mut self, id: u32, info: ContactInfo)
        ensures
            final(self)@ == old(self)@.push((id, info@)),
    {
        let ghost before = self@;
        let ghost entry_view = (id, info@);
        self.entries.push((id, info));
        proof {
            assert(self@ =~= before.push(entry_view));
        }
    }

    /// Looks up the record for `id`, if one was inserted.
    pub fn get(&self, id: u32) -> (r: Option<&ContactInfo>)
        ensures
            match r {
                Some(c) => spec_get(self@, id) == Some(c@),
                None => spec_get(self@, id) is None,
            },
    {
        let n = self.entries.len();
        proof {
            assert(self@.subrange(0, n as int) =~= self@);
        }
        let mut i: usize = n;
        while i > 0
            invariant
                i <= n,
                n == self.entries.len(),
                self@.len() == n,
                spec_get(self@, id) == spec_get(self@.subrange(0, i as int), id),
            decreases i,
        {
            let entry = &self.entries[i - 1];
            proof {
                assert(self@.subrange(0, i as int).last() == self@[i - 1]);
                assert(self@[i - 1] == (entry.0, entry.1@));
            }
            if entry.0 == id {
                return Some(&entry.1);
            }
            proof {
                assert(self@.subrange(0, i as int).drop_last() =~= self@.subrange(0, i - 1));
            }
            i = i - 1;
        }
        proof {
            assert(self@.subrange(0, 0).len() == 0);
        }
        None
    }
}

} // verus!
