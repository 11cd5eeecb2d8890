use vstd::prelude::*;

use crate::access::{conflicts, read_of, reads_only, write_of, AccessEntry, ComponentId, FilteredAccess};
use crate::storage::Column;

verus! {

/// The read-only fetch protocol of a query descriptor over a column of `C`.
///
/// A descriptor declares the accesses it makes, says which rows it matches,
/// and fetches one item per matched row. Its declaration never holds a write.
pub trait QueryData<'w, C: 'w> {
    type Item;

    /// The accesses declared for a column of component `id`.
    spec fn declared(id: ComponentId) -> Seq<AccessEntry>;

    /// Whether a row with this cell is matched.
    spec fn fetchable(cell: Option<C>) -> bool;

    /// Whether `item` is what a fetch of a row with this cell produces.
    spec fn yields(cell: Option<C>, item: Self::Item) -> bool;

    proof fn lemma_declares_reads_only(id: ComponentId)
        ensures
            reads_only(Self::declared(id)),
    ;

    /// Adds the declared accesses; a declaration that already conflicts with
    /// them is refused by the host, so it is not admitted here.
    fn update_component_access(id: ComponentId, access: &mut FilteredAccess)
        requires
            !conflicts(old(access)@, Self::declared(id)),
        ensures
            final(access)@ == old(access)@ + Self::declared(id),
    ;

    fn matches_component_set(cell: &Option<C>) -> (r: bool)
        ensures
            r == Self::fetchable(*cell),
    ;

    fn fetch(column: &'w Column<C>, row: usize) -> (r: Self::Item)
        requires
            row < column.cells@.len(),
            Self::fetchable(column.cells@[row as int]),
        ensures
            Self::yields(column.cells@[row as int], r),
    ;
}

/// The fetch protocol of a descriptor whose item borrows a value of its row
/// exclusively.
///
/// A fetch changes no row but the one it was asked for; what is written
/// through the item decides what that row holds once the item is given up;
/// and the item cannot outlive the exclusive borrow of the column.
pub trait QueryDataMut<'w, C: 'w> {
    /// The value the item borrows.
    type Target: 'w;

    /// The read-only form of this descriptor, over the same state.
    type ReadOnly: QueryData<'w, C>;

    spec fn declared(id: ComponentId) -> Seq<AccessEntry>;

    spec fn fetchable(cell: Option<C>) -> bool;

    /// Whether `item` is the value a fetch of a row holding `before` borrows.
    spec fn yields_mut(before: Option<C>, item: Self::Target) -> bool;

    /// Whether a row that held `before` holds `after` once the value
    /// `written` is left in the fetched borrow.
    spec fn writes_back(before: Option<C>, after: Option<C>, written: Self::Target) -> bool;

    /// The read-only form matches the same rows and touches the same
    /// components, entry by entry, without writing.
    proof fn lemma_read_only_sibling(id: ComponentId, cell: Option<C>)
        ensures
            <Self::ReadOnly as QueryData<'w, C>>::fetchable(cell) == Self::fetchable(cell),
            <Self::ReadOnly as QueryData<'w, C>>::declared(id).len() == Self::declared(id).len(),
            forall|i: int|
                0 <= i < Self::declared(id).len() ==> (#[trigger] <Self::ReadOnly as QueryData<
                    'w,
                    C,
                >>::declared(id)[i]).component == Self::declared(id)[i].component,
    ;

    /// Adds the declared accesses; a declaration that already conflicts with
    /// them is refused by the host, so it is not admitted here.
    fn update_component_access(id: ComponentId, access: &mut FilteredAccess)
        requires
            !conflicts(old(access)@, Self::declared(id)),
        ensures
            final(access)@ == old(access)@ + Self::declared(id),
    ;

    fn matches_component_set(cell: &Option<C>) -> (r: bool)
        ensures
            r == Self::fetchable(*cell),
    ;

    fn fetch_mut(column: &'w mut Column<C>, row: usize) -> (r: &'w mut Self::Target)
        requires
            row < old(column).cells@.len(),
            Self::fetchable(old(column).cells@[row as int]),
        ensures
            final(column).id == old(column).id,
            final(column).cells@.len() == old(column).cells@.len(),
            forall|i: int|
                0 <= i < old(column).cells@.len() && i != row ==> final(column).cells@[i]
                    == old(column).cells@[i],
            Self::fetchable(final(column).cells@[row as int]),
            Self::yields_mut(old(column).cells@[row as int], *r),
            Self::writes_back(
                old(column).cells@[row as int],
                final(column).cells@[row as int],
                *final(r),
            ),
    ;
}

/// Shared borrow of the component: matches rows that have it.
pub struct Ref;

/// Exclusive borrow of the component: matches rows that have it.
pub struct RefMut;

/// The item of `Q` where `Q` matches the row, and `None` elsewhere. Matches every row.
pub struct Opt<Q> {
    pub inner: std::marker::PhantomData<Q>,
}

impl<'w, C: 'w> QueryData<'w, C> for Ref {
    type Item = &'w C;

    open spec fn declared(id: ComponentId) -> Seq<AccessEntry> {
        seq![read_of(id)]
    }

    open spec fn fetchable(cell: Option<C>) -> bool {
        cell is Some
    }

    open spec fn yields(cell: Option<C>, item: &'w C) -> bool {
        cell == Some(*item)
    }

    proof fn lemma_declares_reads_only(id: ComponentId) {
    }

    fn update_component_access(id: ComponentId, access: &mut FilteredAccess) {
        access.add_read(id);
        assert(final(access)@ =~= old(access)@ + seq![read_of(id)]);
    }

    fn matches_component_set(cell: &Option<C>) -> (r: bool) {
        cell.is_some()
    }

    fn fetch(column: &'w Column<C>, row: usize) -> (r: &'w C) {
        column.cells[row].as_ref().unwrap()
    }
}

impl<'w, C: 'w> QueryDataMut<'w, C> for RefMut {
    type Target = C;

    type ReadOnly = Ref;

    open spec fn declared(id: ComponentId) -> Seq<AccessEntry> {
        seq![write_of(id)]
    }

    open spec fn fetchable(cell: Option<C>) -> bool {
        cell is Some
    }

    /// The item borrows the row's component.
    open spec fn yields_mut(before: Option<C>, item: C) -> bool {
        before == Some(item)
    }

    /// What is written through the item is the row's component afterwards.
    open spec fn writes_back(before: Option<C>, after: Option<C>, written: C) -> bool {
        after == Some(written)
    }

    proof fn lemma_read_only_sibling(id: ComponentId, cell: Option<C>) {
    }

    fn update_component_access(id: ComponentId, access: &mut FilteredAccess) {
        access.add_write(id);
        assert(final(access)@ =~= old(access)@ + seq![write_of(id)]);
    }

    fn matches_component_set(cell: &Option<C>) -> (r: bool) {
        cell.is_some()
    }

    fn fetch_mut(column: &'w mut Column<C>, row: usize) -> (r: &'w mut C) {
        column.cell_mut(row)
    }
}

impl<'w, C: 'w, Q: QueryData<'w, C>> QueryData<'w, C> for Opt<Q> {
    type Item = Option<Q::Item>;

    open spec fn declared(id: ComponentId) -> Seq<AccessEntry> {
        Q::declared(id)
    }

    open spec fn fetchable(cell: Option<C>) -> bool {
        true
    }

    open spec fn yields(cell: Option<C>, item: Option<Q::Item>) -> bool {
        if Q::fetchable(cell) {
            item is Some && Q::yields(cell, item->0)
        } else {
            item is None
        }
    }

    proof fn lemma_declares_reads_only(id: ComponentId) {
        Q::lemma_declares_reads_only(id);
    }

    fn update_component_access(id: ComponentId, access: &mut FilteredAccess) {
        Q::update_component_access(id, access);
    }

    fn matches_component_set(cell: &Option<C>) -> (r: bool) {
        true
    }

    fn fetch(column: &'w Column<C>, row: usize) -> (r: Option<Q::Item>) {
        if Q::matches_component_set(&column.cells[row]) {
            Some(Q::fetch(column, row))
        } else {
            None
        }
    }
}

} // verus!
