use vstd::prelude::*;

verus! {

/// Identity of a component type inside the host world.
#[derive(Clone, Copy, Debug, PartialEq, Eq, Structural)]
pub struct ComponentId {
    pub id: u64,
}

/// One declared use of a component: read-only, or read and write.
#[derive(Clone, Copy, Debug, PartialEq, Eq, Structural)]
pub struct AccessEntry {
    pub component: ComponentId,
    pub write: bool,
}

/// The set of component accesses a query descriptor declares before it runs.
/// The scheduler reads it to decide which queries may run side by side.
pub struct FilteredAccess {
    entries: Vec<AccessEntry>,
}

/// Two entries conflict when they name the same component and one of them writes.
pub open spec fn entries_conflict(a: AccessEntry, b: AccessEntry) -> bool {
    a.component == b.component && (a.write || b.write)
}

/// Two declarations conflict when some pair of their entries does.
pub open spec fn conflicts(a: Seq<AccessEntry>, b: Seq<AccessEntry>) -> bool {
    exists|i: int, j: int|
        0 <= i < a.len() && 0 <= j < b.len() && #[trigger] entries_conflict(a[i], b[j])
}

/// A declaration that holds no write.
pub open spec fn reads_only(a: Seq<AccessEntry>) -> bool {
    forall|i: int| 0 <= i < a.len() ==> !(#[trigger] a[i]).write
}

/// The entry that reads `id`.
pub open spec fn read_of(id: ComponentId) -> AccessEntry {
    AccessEntry { component: id, write: false }
}

/// The entry that writes `id`.
pub open spec fn write_of(id: ComponentId) -> AccessEntry {
    AccessEntry { component: id, write: true }
}

impl View for FilteredAccess {
    type V = Seq<AccessEntry>;

    closed spec fn view(&self) -> Seq<AccessEntry> {
        self.entries@
    }
}

impl FilteredAccess {
    /// An empty declaration.
    pub fn new() -> (r: FilteredAccess)
        ensures
            r@ == Seq::<AccessEntry>::empty(),
    {
        FilteredAccess { entries: Vec::new() }
    }

    /// Declares a read of `id`.
    pub fn add_read(&mut self, id: ComponentId)
        ensures
            final(self)@ == old(self)@.push(read_of(id)),
    {
        self.entries.push(AccessEntry { component: id, write: false });
    }

    /// Declares a write of `id`.
    pub fn add_write(&mut self, id: ComponentId)
        ensures
            final(self)@ == old(self)@.push(write_of(id)),
    {
        self.entries.push(AccessEntry { component: id, write: true });
    }

    /// The declared entries, in the order they were added.
    pub fn entries(&self) -> (r: &Vec<AccessEntry>)
        ensures
            r@ == self@,
    {
        &self.entries
    }

    /// Whether this declaration writes nothing.
    pub fn is_read_only(&self) -> (r: bool)
        ensures
            r == reads_only(self@),
    {
        let mut i: usize = 0;
        while i < self.entries.len()
            invariant
                i <= self@.len(),
                forall|k: int| 0 <= k < i ==> !(#[trigger] self@[k]).write,
            decreases self@.len() - i,
        {
            if self.entries[i].write {
                return false;
            }
            i = i + 1;
        }
        true
    }

    /// Whether the scheduler may run a query with this declaration beside one
    /// with `other`: no component is written by one and touched by the other.
    pub fn is_compatible(&self, other: &FilteredAccess) -> (r: bool)
        ensures
            r == !conflicts(self@, other@),
    {
        let mut i: usize = 0;
        while i < self.entries.len()
            invariant
                i <= self@.len(),
                forall|a: int, b: int|
                    0 <= a < i && 0 <= b < other@.len() ==> !#[trigger] entries_conflict(
                        self@[a],
                        other@[b],
                    ),
            decreases self@.len() - i,
        {
            let e = self.entries[i];
            let mut j: usize = 0;
            while j < other.entries.len()
                invariant
                    i < self@.len(),
                    j <= other@.len(),
                    e == self@[i as int],
                    forall|a: int, b: int|
                        0 <= a < i && 0 <= b < other@.len() ==> !#[trigger] entries_conflict(
                            self@[a],
                            other@[b],
                        ),
                    forall|b: int| 0 <= b < j ==> !#[trigger] entries_conflict(e, other@[b]),
                decreases other@.len() - j,
            {
                let f = other.entries[j];
                if e.component == f.component && (e.write || f.write) {
                    assert(entries_conflict(self@[i as int], other@[j as int]));
                    return false;
                }
                j = j + 1;
            }
            i = i + 1;
        }
        true
    }
}

/// Two declarations that write nothing never conflict.
pub proof fn lemma_reads_never_conflict(a: Seq<AccessEntry>, b: Seq<AccessEntry>)
    requires
        reads_only(a),
        reads_only(b),
    ensures
        !conflicts(a, b),
{
    assert forall|i: int, j: int| 0 <= i < a.len() && 0 <= j < b.len() implies !#[trigger] entries_conflict(
        a[i],
        b[j],
    ) by {
        assert(!a[i].write);
        assert(!b[j].write);
    }
}

} // verus!
