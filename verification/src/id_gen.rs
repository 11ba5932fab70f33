//! Issues unique, monotonically increasing identifiers per entity category.

use vstd::prelude::*;

verus! {

/// Categories of entities that receive identifiers.
#[derive(Clone, Copy, PartialEq, Eq, Structural, Debug)]
pub enum IDKind {
    Enemy,
    Sound,
}

/// Per-category counter of the last identifier handed out.
///
/// An identifier is never reused within one run: every call for a category
/// returns a value strictly greater than every value returned before it.
pub struct IDGenerator {
    pub last_enemy: Option<u32>,
    pub last_sound: Option<u32>,
}

impl IDGenerator {
    /// The last identifier issued for `kind`, or `None` before the first call.
    pub open spec fn last_of(self, kind: IDKind) -> Option<u32> {
        match kind {
            IDKind::Enemy => self.last_enemy,
            IDKind::Sound => self.last_sound,
        }
    }

    /// The identifier the next call for `kind` will return.
    pub open spec fn next_of(self, kind: IDKind) -> u32 {
        match self.last_of(kind) {
            Some(last) => (last + 1) as u32,
            None => 0,
        }
    }

    /// True while the counter for `kind` has room for another identifier.
    pub open spec fn can_issue(self, kind: IDKind) -> bool {
        match self.last_of(kind) {
            Some(last) => last < u32::MAX,
            None => true,
        }
    }

    pub fn get_new_id_of(&mut self, kind: IDKind) -> (id: u32)
        requires
            old(self).can_issue(kind),
        ensures
            id == old(self).next_of(kind),
            final(self).last_of(kind) == Some(id),
            forall|k: IDKind| k != kind ==> final(self).last_of(k) == old(self).last_of(k),
    {
        let counter = match kind {
            IDKind::Enemy => &mut self.last_enemy,
            IDKind::Sound => &mut self.last_sound,
        };
        match *counter {
            Some(last) => {
                *counter = Some(last + 1);
                last + 1
            }
            None => {
                *counter = Some(0);
                0
            }
        }
    }
}

impl Default for IDGenerator {
    fn default() -> (r: Self)
        ensures
            r.last_of(IDKind::Enemy) is None,
            r.last_of(IDKind::Sound) is None,
    {
        IDGenerator { last_enemy: None, last_sound: None }
    }
}

/// Identifiers strictly increase: whatever identifier a call returns, the
/// identifier of the following call for the same category is greater.
pub proof fn lemma_ids_strictly_increase(g: IDGenerator, kind: IDKind)
    requires
        g.last_of(kind) is Some,
        g.can_issue(kind),
    ensures
        g.next_of(kind) > g.last_of(kind)->Some_0,
{
}

} // verus!
