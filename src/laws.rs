use vstd::prelude::*;

use std::ops::Deref;

use crate::access::{conflicts, lemma_reads_never_conflict, reads_only, AccessEntry, ComponentId};
use crate::base::{ModQ, ModQMut, ModQuery, ModQueryMut};
use crate::extensions::{
    clones_to, defaults_to, derefs_to, AsDeref, AsDerefCloned, AsDerefClonedOfClonedOrDefault,
    AsDerefMut, OrDefault, ProjectMut,
};
use crate::query::{QueryData, QueryDataMut};

verus! {

/// A read-only view declares exactly the accesses of the descriptor it
/// wraps, and matches exactly the rows that descriptor matches.
pub proof fn lemma_access_transparent<'w, C: 'w, T: ModQuery<'w, C>>(id: ComponentId, cell: Option<C>)
    ensures
        <ModQ<T> as QueryData<'w, C>>::declared(id) == <T::FromQuery as QueryData<'w, C>>::declared(id),
        <ModQ<T> as QueryData<'w, C>>::fetchable(cell) == <T::FromQuery as QueryData<'w, C>>::fetchable(cell),
{
}

/// A view over an exclusively borrowing descriptor declares exactly the
/// accesses of that descriptor, and matches exactly the rows it matches.
pub proof fn lemma_access_transparent_mut<'w, C: 'w, T: ModQueryMut<'w, C>>(
    id: ComponentId,
    cell: Option<C>,
)
    ensures
        <ModQMut<T> as QueryDataMut<'w, C>>::declared(id) == <T::FromQuery as QueryDataMut<
            'w,
            C,
        >>::declared(id),
        <ModQMut<T> as QueryDataMut<'w, C>>::fetchable(cell) == <T::FromQuery as QueryDataMut<
            'w,
            C,
        >>::fetchable(cell),
{
}

/// What a view fetches from a row is the transformation of what the wrapped
/// descriptor fetches from that row, and nothing else.
pub proof fn lemma_fetch_is_modified<'w, C: 'w, T: ModQuery<'w, C>>(
    cell: Option<C>,
    from: <T::FromQuery as QueryData<'w, C>>::Item,
    item: T::ModItem,
)
    ensures
        <T::FromQuery as QueryData<'w, C>>::yields(cell, from) && T::modifies(from, item)
            ==> <ModQ<T> as QueryData<'w, C>>::yields(cell, item),
        <ModQ<T> as QueryData<'w, C>>::yields(cell, item) ==> exists|x: <T::FromQuery as QueryData<
            'w,
            C,
        >>::Item| #[trigger] <T::FromQuery as QueryData<'w, C>>::yields(cell, x) && T::modifies(x, item),
{
}

/// A read-only view never conflicts with any other read-only access, so the
/// scheduler may run it beside any reader.
pub proof fn lemma_read_only_view_shares<'w, C: 'w, T: ModQuery<'w, C>>(
    id: ComponentId,
    other: Seq<AccessEntry>,
)
    requires
        reads_only(other),
    ensures
        reads_only(<ModQ<T> as QueryData<'w, C>>::declared(id)),
        !conflicts(<ModQ<T> as QueryData<'w, C>>::declared(id), other),
{
    <ModQ<T> as QueryData<'w, C>>::lemma_declares_reads_only(id);
    lemma_reads_never_conflict(<ModQ<T> as QueryData<'w, C>>::declared(id), other);
}

/// Over a row that the wrapped descriptor matches, default substitution hands
/// back that descriptor's own item unchanged.
pub proof fn lemma_or_default_present<'w, C: 'w, T: QueryData<'w, C>>(cell: Option<C>, item: T::Item)
    where
        T::Item: Default,
    requires
        T::fetchable(cell),
        <OrDefault<T> as QueryData<'w, C>>::yields(cell, item),
    ensures
        T::yields(cell, item),
{
}

/// Over a row that the wrapped descriptor does not match, default
/// substitution hands back the item type's default, and two fetches agree
/// whenever that default is a single value.
pub proof fn lemma_or_default_absent<'w, C: 'w, T: QueryData<'w, C>>(
    cell: Option<C>,
    a: T::Item,
    b: T::Item,
)
    where
        T::Item: Default,
    requires
        !T::fetchable(cell),
        <OrDefault<T> as QueryData<'w, C>>::yields(cell, a),
        <OrDefault<T> as QueryData<'w, C>>::yields(cell, b),
    ensures
        defaults_to(a),
        defaults_to(b),
        (forall|x: T::Item, y: T::Item| defaults_to(x) && defaults_to(y) ==> x == y) ==> a == b,
{
}

/// Where the component is absent, substituting the default of the cloned
/// target gives the same value as dereferencing and cloning the component's
/// own default, whenever those two defaults agree.
pub proof fn lemma_default_then_deref_agree<'w, T: Clone + Deref + Default + 'w>(
    a: T::Target,
    b: T::Target,
)
    where
        T::Target: Clone + Default,
    requires
        <OrDefault<AsDerefCloned<T>> as QueryData<'w, T>>::yields(None, a),
        <AsDerefClonedOfClonedOrDefault<T> as QueryData<'w, T>>::yields(None, b),
        forall|v: T, d: &T::Target, r: T::Target, t: T::Target|
            defaults_to(v) && derefs_to(&v, d) && clones_to(d, r) && defaults_to(t) ==> r == t,
    ensures
        a == b,
{
}

/// Where the component is present, cloning its dereferenced target gives the
/// same value as dereferencing a clone of it and cloning that target, for any
/// component whose clone keeps the target: nesting order does not change the
/// result.
pub proof fn lemma_present_nesting_agrees<'w, T: Clone + Deref + Default + 'w>(
    c: T,
    a: T::Target,
    b: T::Target,
)
    where
        T::Target: Clone + Default,
    requires
        <OrDefault<AsDerefCloned<T>> as QueryData<'w, T>>::yields(Some(c), a),
        <AsDerefClonedOfClonedOrDefault<T> as QueryData<'w, T>>::yields(Some(c), b),
        forall|v: T, d: &T::Target, e: &T::Target, x: T::Target, y: T::Target|
            #![trigger clones_to(&c, v), derefs_to(&c, d), derefs_to(&v, e), clones_to(d, x), clones_to(e, y)]
            clones_to(&c, v) && derefs_to(&c, d) && derefs_to(&v, e) && clones_to(d, x) && clones_to(e, y)
                ==> x == y,
    ensures
        a == b,
{
}

/// Through the exclusive-dereference view, the fetched borrow points at the
/// row's inner value, and what is left in it becomes the row's component.
pub proof fn lemma_deref_mut_write_reaches_row<'w, T: ProjectMut + Deref + 'w>(
    before: Option<T>,
    after: Option<T>,
    current: T::Inner,
    written: T::Inner,
)
    requires
        <AsDerefMut<T> as QueryDataMut<'w, T>>::yields_mut(before, current),
        <AsDerefMut<T> as QueryDataMut<'w, T>>::writes_back(before, after, written),
    ensures
        before is Some,
        current == before->0.inner_of(),
        after == Some(before->0.with_inner(written)),
{
}

/// A value written through the exclusive-dereference view is what a later
/// fetch of the same row sees: through the view again, and through the
/// shared dereference view for a component whose `deref` reads the value that
/// `project_mut` borrows.
pub proof fn lemma_deref_mut_write_read_back<'w, T: ProjectMut + Deref<Target = <T as ProjectMut>::Inner> + 'w>(
    before: Option<T>,
    after: Option<T>,
    current: T::Inner,
    written: T::Inner,
    again: T::Inner,
    shared: &'w T::Inner,
)
    requires
        <AsDerefMut<T> as QueryDataMut<'w, T>>::yields_mut(before, current),
        <AsDerefMut<T> as QueryDataMut<'w, T>>::writes_back(before, after, written),
        forall|c: T, v: T::Inner| #[trigger] c.with_inner(v).inner_of() == v,
        forall|c: T, d: &T::Inner| #[trigger] derefs_to(&c, d) ==> *d == c.inner_of(),
        <AsDerefMut<T> as QueryDataMut<'w, T>>::yields_mut(after, again),
        <AsDeref<T> as QueryData<'w, T>>::yields(after, shared),
    ensures
        again == written,
        *shared == written,
{
    let c = before->0;
    assert(c.with_inner(written).inner_of() == written);
}

} // verus!
