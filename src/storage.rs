use vstd::prelude::*;

use crate::access::ComponentId;

verus! {

/// The column of one component type across the rows of a storage partition.
/// Row `r` holds `Some(c)` when the entity stored there has the component,
/// `None` when it lacks it.
pub struct Column<C> {
    pub id: ComponentId,
    pub cells: Vec<Option<C>>,
}

impl<C> Column<C> {
    /// An empty column for component `id`.
    pub fn new(id: ComponentId) -> (r: Column<C>)
        ensures
            r.id == id,
            r.cells@ == Seq::<Option<C>>::empty(),
    {
        Column { id, cells: Vec::new() }
    }

    /// Appends a row.
    pub fn push(&mut self, cell: Option<C>)
        ensures
            final(self).id == old(self).id,
            final(self).cells@ == old(self).cells@.push(cell),
    {
        self.cells.push(cell);
    }

    /// Borrows exclusively the component in row `row`. The borrow gives the
    /// stored value, and what is written through it is what the row holds
    /// once the borrow ends; no other row changes.
    pub fn cell_mut(&mut self, row: usize) -> (r: &mut C)
        requires
            row < old(self).cells@.len(),
            old(self).cells@[row as int] is Some,
        ensures
            *r == old(self).cells@[row as int]->0,
            final(self).id == old(self).id,
            final(self).cells@ == old(self).cells@.update(row as int, Some(*final(r))),
    {
        self.cells[row].as_mut().unwrap()
    }

    /// Number of rows.
    pub fn len(&self) -> (r: usize)
        ensures
            r == self.cells@.len(),
    {
        self.cells.len()
    }
}

} // verus!
