//! The nursery accumulating generated registration entries.
//!
//! Entries are appended in emission order and that order is preserved into
//! the assembled block; a binding name already present is a fatal
//! collision. Every module being processed owns its own nursery.

use vstd::prelude::*;
use crate::ast::{EntryV, RegistrationEntry, copy_entry, entries_view};
use crate::errors::{ErrorKind, ModuleError};

verus! {

/// Whether some entry of the block already carries the given binding name.
pub open spec fn has_name(s: Seq<EntryV>, n: Seq<char>) -> bool {
    exists|k: int| 0 <= k < s.len() && (#[trigger] s[k]).name == n
}

/// The ordered accumulator of registration entries of one module.
pub struct ItemNursery {
    entries: Vec<RegistrationEntry>,
}

impl View for ItemNursery {
    type V = Seq<EntryV>;

    closed spec fn view(&self) -> Seq<EntryV> {
        entries_view(self.entries@)
    }
}

impl ItemNursery {
    /// An empty nursery.
    pub fn new() -> (r: Self)
        ensures
            r@ == Seq::<EntryV>::empty(),
    {
        let r = ItemNursery { entries: Vec::new() };
        assert(r@ =~= Seq::<EntryV>::empty());
        r
    }

    /// Appends a copy of the entry, preserving insertion order — unless its
    /// binding name is already present: a collision is fatal and leaves the
    /// nursery unchanged.
    pub fn add_item(&mut self, entry: &RegistrationEntry) -> (r: Result<(), ModuleError>)
        ensures
            has_name(old(self)@, entry@.name) ==> r == Err::<(), ModuleError>(
                ModuleError { kind: ErrorKind::NameCollision, loc: entry.loc },
            ) && final(self)@ == old(self)@,
            !has_name(old(self)@, entry@.name) ==> r == Ok::<(), ModuleError>(()) && final(self)@
                == old(self)@.push(entry@),
    {
        let n = self.entries.len();
        let mut k: usize = 0;
        while k < n
            invariant
                k <= n,
                n == self.entries.len(),
                self@ == old(self)@,
                forall|t: int| 0 <= t < k ==> (#[trigger] self@[t]).name != entry@.name,
            decreases n - k,
        {
            assert(self@[k as int] == self.entries@[k as int]@);
            if self.entries[k].name == entry.name {
                return Err(ModuleError { kind: ErrorKind::NameCollision, loc: entry.loc });
            }
            k = k + 1;
        }
        assert(!has_name(self@, entry@.name));
        let ghost e0 = self.entries@;
        self.entries.push(copy_entry(entry));
        assert(entries_view(self.entries@) =~= entries_view(e0).push(entry@));
        Ok(())
    }

    /// Assembles the final ordered block: the entries exactly as inserted,
    /// each still carrying its own guard set for conditional wrapping.
    pub fn assemble(self) -> (r: Vec<RegistrationEntry>)
        ensures
            entries_view(r@) == self@,
    {
        self.entries
    }
}

impl Default for ItemNursery {
    /// An empty nursery.
    fn default() -> (r: Self)
        ensures
            r@ == Seq::<EntryV>::empty(),
    {
        ItemNursery::new()
    }
}

} // verus!
