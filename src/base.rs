use vstd::prelude::*;

use crate::access::{AccessEntry, ComponentId, FilteredAccess};
use crate::query::{QueryData, QueryDataMut};
use crate::storage::Column;

verus! {

/// A read-only descriptor built from another one: it keeps the wrapped
/// descriptor's access declaration, matching and fetch state, and changes
/// only the item, through `T::modify_reference`.
#[derive(Debug)]
pub struct ModQ<T>(pub std::marker::PhantomData<T>);

/// The form of [`ModQ`] whose wrapped descriptor may borrow rows exclusively.
#[derive(Debug)]
pub struct ModQMut<T>(pub std::marker::PhantomData<T>);

/// A transformation of the item of a read-only descriptor.
pub trait ModQuery<'w, C: 'w> {
    type FromQuery: QueryData<'w, C>;

    type ModItem;

    /// Whether `to` is what the transformation produces from `from`.
    spec fn modifies(from: <Self::FromQuery as QueryData<'w, C>>::Item, to: Self::ModItem) -> bool;

    fn modify_reference(from: <Self::FromQuery as QueryData<'w, C>>::Item) -> (r: Self::ModItem)
        ensures
            Self::modifies(from, r),
    ;
}

/// A transformation of the item of a descriptor that may borrow rows
/// exclusively. Its read-only form works over the same state: it matches the
/// same rows and touches the same components, reading only.
pub trait ModQueryMut<'w, C: 'w> {
    type FromQuery: QueryDataMut<'w, C>;

    /// The value the transformed borrow points at.
    type Target: 'w;

    type ReadOnly: QueryData<'w, C>;

    proof fn lemma_read_only_sibling(id: ComponentId, cell: Option<C>)
        ensures
            <Self::ReadOnly as QueryData<'w, C>>::fetchable(cell) == <Self::FromQuery as QueryDataMut<
                'w,
                C,
            >>::fetchable(cell),
            <Self::ReadOnly as QueryData<'w, C>>::declared(id).len() == <Self::FromQuery as QueryDataMut<
                'w,
                C,
            >>::declared(id).len(),
            forall|i: int|
                0 <= i < <Self::FromQuery as QueryDataMut<'w, C>>::declared(id).len() ==> (
                #[trigger] <Self::ReadOnly as QueryData<'w, C>>::declared(id)[i]).component == <Self::FromQuery as QueryDataMut<
                    'w,
                    C,
                >>::declared(id)[i].component,
    ;

    /// Whether `to` is the value the transformed borrow points at, where the
    /// wrapped borrow points at `from`.
    spec fn reads_through(from: <Self::FromQuery as QueryDataMut<'w, C>>::Target, to: Self::Target) -> bool;

    /// Whether the wrapped value goes from `before` to `after` when `written`
    /// is left in the transformed borrow.
    spec fn writes_through(
        before: <Self::FromQuery as QueryDataMut<'w, C>>::Target,
        written: Self::Target,
        after: <Self::FromQuery as QueryDataMut<'w, C>>::Target,
    ) -> bool;

    /// Narrows the wrapped borrow to the transformed one, which re-borrows
    /// the same value.
    fn modify_reference(from: &'w mut <Self::FromQuery as QueryDataMut<'w, C>>::Target) -> (r:
        &'w mut Self::Target)
        ensures
            Self::reads_through(*old(from), *r),
            Self::writes_through(*old(from), *final(r), *final(from)),
    ;
}

impl<'w, C: 'w, T: ModQuery<'w, C>> QueryData<'w, C> for ModQ<T> {
    type Item = T::ModItem;

    open spec fn declared(id: ComponentId) -> Seq<AccessEntry> {
        <T::FromQuery as QueryData<'w, C>>::declared(id)
    }

    open spec fn fetchable(cell: Option<C>) -> bool {
        <T::FromQuery as QueryData<'w, C>>::fetchable(cell)
    }

    open spec fn yields(cell: Option<C>, item: T::ModItem) -> bool {
        exists|from: <T::FromQuery as QueryData<'w, C>>::Item|
            #[trigger] <T::FromQuery as QueryData<'w, C>>::yields(cell, from) && T::modifies(
                from,
                item,
            )
    }

    proof fn lemma_declares_reads_only(id: ComponentId) {
        <T::FromQuery as QueryData<'w, C>>::lemma_declares_reads_only(id);
    }

    fn update_component_access(id: ComponentId, access: &mut FilteredAccess) {
        <T::FromQuery as QueryData<'w, C>>::update_component_access(id, access);
    }

    fn matches_component_set(cell: &Option<C>) -> (r: bool) {
        <T::FromQuery as QueryData<'w, C>>::matches_component_set(cell)
    }

    fn fetch(column: &'w Column<C>, row: usize) -> (r: T::ModItem) {
        let from = <T::FromQuery as QueryData<'w, C>>::fetch(column, row);
        let r = T::modify_reference(from);
        assert(<T::FromQuery as QueryData<'w, C>>::yields(column.cells@[row as int], from));
        r
    }
}

impl<'w, C: 'w, T: ModQueryMut<'w, C>> QueryDataMut<'w, C> for ModQMut<T> {
    type Target = T::Target;

    type ReadOnly = T::ReadOnly;

    open spec fn declared(id: ComponentId) -> Seq<AccessEntry> {
        <T::FromQuery as QueryDataMut<'w, C>>::declared(id)
    }

    open spec fn fetchable(cell: Option<C>) -> bool {
        <T::FromQuery as QueryDataMut<'w, C>>::fetchable(cell)
    }

    open spec fn yields_mut(before: Option<C>, item: T::Target) -> bool {
        exists|from: <T::FromQuery as QueryDataMut<'w, C>>::Target|
            #[trigger] <T::FromQuery as QueryDataMut<'w, C>>::yields_mut(before, from)
                && T::reads_through(from, item)
    }

    open spec fn writes_back(before: Option<C>, after: Option<C>, written: T::Target) -> bool {
        exists|from: <T::FromQuery as QueryDataMut<'w, C>>::Target, left: <T::FromQuery as QueryDataMut<
            'w,
            C,
        >>::Target|
            #[trigger] <T::FromQuery as QueryDataMut<'w, C>>::yields_mut(before, from)
                && #[trigger] <T::FromQuery as QueryDataMut<'w, C>>::writes_back(before, after, left)
                && T::writes_through(from, written, left)
    }

    proof fn lemma_read_only_sibling(id: ComponentId, cell: Option<C>) {
        T::lemma_read_only_sibling(id, cell);
    }

    fn update_component_access(id: ComponentId, access: &mut FilteredAccess) {
        <T::FromQuery as QueryDataMut<'w, C>>::update_component_access(id, access);
    }

    fn matches_component_set(cell: &Option<C>) -> (r: bool) {
        <T::FromQuery as QueryDataMut<'w, C>>::matches_component_set(cell)
    }

    fn fetch_mut(column: &'w mut Column<C>, row: usize) -> (r: &'w mut T::Target) {
        let from = <T::FromQuery as QueryDataMut<'w, C>>::fetch_mut(column, row);
        T::modify_reference(from)
    }
}

} // verus!
