use vstd::prelude::*;

use std::marker::PhantomData;
use std::ops::Deref;

use crate::base::{ModQ, ModQMut, ModQuery, ModQueryMut};
use crate::query::{Opt, QueryData, Ref, RefMut};

verus! {

/// Marker selecting the copy transformation.
#[derive(Debug)]
pub struct CopiedQ<T>(pub PhantomData<T>);

/// Marker selecting the clone transformation.
#[derive(Debug)]
pub struct ClonedQ<T>(pub PhantomData<T>);

/// Marker selecting the shared dereference transformation.
#[derive(Debug)]
pub struct AsDerefQ<T>(pub PhantomData<T>);

/// Marker selecting the exclusive dereference transformation.
#[derive(Debug)]
pub struct AsDerefMutQ<T>(pub PhantomData<T>);

/// Marker selecting the default-substitution transformation.
#[derive(Debug)]
pub struct OrDefaultQ<T>(pub PhantomData<T>);

/// Whether `to` is what `T::deref` produces from `from`.
pub open spec fn derefs_to<T: Deref>(from: &T, to: &T::Target) -> bool {
    call_ensures(T::deref, (from,), to)
}

/// Whether `to` is what `T::clone` produces from `from`.
pub open spec fn clones_to<T: Clone>(from: &T, to: T) -> bool {
    call_ensures(T::clone, (from,), to)
}

/// Whether `to` is a value that `T::default` produces.
pub open spec fn defaults_to<T: Default>(to: T) -> bool {
    call_ensures(T::default, (), to)
}

/// Whether `v` is the clone of the present component, or the component's
/// default where it is absent.
pub open spec fn cloned_or_default<T: Clone + Default>(from: Option<&T>, v: T) -> bool {
    match from {
        Some(c) => clones_to(c, v),
        None => defaults_to(v),
    }
}

/// Whether `v` is the present component, or its default where it is absent.
pub open spec fn copied_or_default<T: Copy + Default>(from: Option<&T>, v: T) -> bool {
    match from {
        Some(c) => v == *c,
        None => defaults_to(v),
    }
}

/// The present item, or the default of its type where there is none.
pub fn or_default<I: Default>(from: Option<I>) -> (r: I)
    ensures
        match from {
            Some(x) => r == x,
            None => defaults_to(r),
        },
{
    from.unwrap_or_default()
}

/// Copies the component out of its row.
pub type Copied<T> = ModQ<CopiedQ<T>>;

impl<'w, T: Copy + 'w> ModQuery<'w, T> for CopiedQ<T> {
    type FromQuery = Ref;

    type ModItem = T;

    open spec fn modifies(from: &'w T, to: T) -> bool {
        to == *from
    }

    fn modify_reference(from: &'w T) -> (r: T) {
        *from
    }
}

/// Clones the component out of its row.
pub type Cloned<T> = ModQ<ClonedQ<T>>;

impl<'w, T: Clone + 'w> ModQuery<'w, T> for ClonedQ<T> {
    type FromQuery = Ref;

    type ModItem = T;

    open spec fn modifies(from: &'w T, to: T) -> bool {
        clones_to(from, to)
    }

    fn modify_reference(from: &'w T) -> (r: T) {
        from.clone()
    }
}

/// Borrows the target the component dereferences to.
pub type AsDeref<T> = ModQ<AsDerefQ<T>>;

impl<'w, T: Deref + 'w> ModQuery<'w, T> for AsDerefQ<T> {
    type FromQuery = Ref;

    type ModItem = &'w T::Target;

    open spec fn modifies(from: &'w T, to: &'w T::Target) -> bool {
        derefs_to(from, to)
    }

    fn modify_reference(from: &'w T) -> (r: &'w T::Target) {
        from.deref()
    }
}

/// Borrows exclusively the target the component dereferences to; its
/// read-only form is [`AsDeref`].
pub type AsDerefMut<T> = ModQMut<AsDerefMutQ<T>>;

/// The exclusive-dereference capability: `project_mut` borrows a value held
/// inside the component, so that what is written through the borrow is what
/// the component holds afterwards. `DerefMut` alone does not say where its
/// borrow points, so the exclusive view asks for this instead.
pub trait ProjectMut: Sized {
    /// The value the borrow points at.
    type Inner;

    /// The component's current inner value.
    spec fn inner_of(&self) -> Self::Inner;

    /// The component with its inner value replaced by `v`.
    spec fn with_inner(&self, v: Self::Inner) -> Self;

    fn project_mut(&mut self) -> (r: &mut Self::Inner)
        ensures
            *r == old(self).inner_of(),
            *final(self) == old(self).with_inner(*final(r)),
    ;
}

impl<T> ProjectMut for Box<T> {
    type Inner = T;

    open spec fn inner_of(&self) -> T {
        **self
    }

    open spec fn with_inner(&self, v: T) -> Box<T> {
        Box::new(v)
    }

    fn project_mut(&mut self) -> (r: &mut T) {
        &mut **self
    }
}

impl<'w, T: ProjectMut + Deref + 'w> ModQueryMut<'w, T> for AsDerefMutQ<T> {
    type FromQuery = RefMut;

    type Target = T::Inner;

    type ReadOnly = AsDeref<T>;

    /// The borrow points at the component's inner value.
    open spec fn reads_through(from: T, to: T::Inner) -> bool {
        to == from.inner_of()
    }

    /// What is left in the borrow becomes the component's inner value.
    open spec fn writes_through(before: T, written: T::Inner, after: T) -> bool {
        after == before.with_inner(written)
    }

    proof fn lemma_read_only_sibling(id: crate::access::ComponentId, cell: Option<T>) {
    }

    fn modify_reference(from: &'w mut T) -> (r: &'w mut T::Inner) {
        from.project_mut()
    }
}

/// Copies the target the component dereferences to.
pub type AsDerefCopied<T> = Copied<AsDeref<T>>;

impl<'w, T: Deref + 'w> ModQuery<'w, T> for CopiedQ<AsDeref<T>> where T::Target: Copy {
    type FromQuery = Ref;

    type ModItem = T::Target;

    open spec fn modifies(from: &'w T, to: T::Target) -> bool {
        exists|d: &T::Target| #[trigger] derefs_to(from, d) && to == *d
    }

    fn modify_reference(from: &'w T) -> (r: T::Target) {
        let d = from.deref();
        assert(derefs_to(from, d));
        *d
    }
}

/// Clones the target the component dereferences to.
pub type AsDerefCloned<T> = Cloned<AsDeref<T>>;

impl<'w, T: Deref + 'w> ModQuery<'w, T> for ClonedQ<AsDeref<T>> where T::Target: Clone {
    type FromQuery = Ref;

    type ModItem = T::Target;

    open spec fn modifies(from: &'w T, to: T::Target) -> bool {
        exists|d: &T::Target| #[trigger] derefs_to(from, d) && clones_to(d, to)
    }

    fn modify_reference(from: &'w T) -> (r: T::Target) {
        let d = from.deref();
        let r = d.clone();
        assert(derefs_to(from, d));
        r
    }
}

/// The item of `T` where `T` matches the row, else the default of that item.
pub type OrDefault<T> = ModQ<OrDefaultQ<T>>;

impl<'w, C: 'w, T: QueryData<'w, C>> ModQuery<'w, C> for OrDefaultQ<T> where T::Item: Default {
    type FromQuery = Opt<T>;

    type ModItem = T::Item;

    open spec fn modifies(from: Option<T::Item>, to: T::Item) -> bool {
        match from {
            Some(x) => to == x,
            None => defaults_to(to),
        }
    }

    fn modify_reference(from: Option<T::Item>) -> (r: T::Item) {
        or_default(from)
    }
}

/// The clone of the component or the component's default, dereferenced and
/// copied. Where the component is absent this gives the target of the
/// component's default, not the default of the target.
pub type AsDerefCopiedOfClonedOrDefault<T> = Copied<AsDeref<OrDefault<Cloned<T>>>>;

impl<'w, T: Clone + Deref + Default + 'w> ModQuery<'w, T> for CopiedQ<
    AsDeref<OrDefault<Cloned<T>>>,
> where T::Target: Copy {
    type FromQuery = Opt<Ref>;

    type ModItem = T::Target;

    open spec fn modifies(from: Option<&'w T>, to: T::Target) -> bool {
        exists|v: T, d: &T::Target|
            #[trigger] cloned_or_default(from, v) && #[trigger] derefs_to(&v, d) && to == *d
    }

    fn modify_reference(from: Option<&'w T>) -> (r: T::Target) {
        let v = match from {
            Some(c) => c.clone(),
            None => T::default(),
        };
        let d = v.deref();
        assert(cloned_or_default(from, v) && derefs_to(&v, d));
        *d
    }
}

/// The present component or its default, dereferenced and copied.
pub type AsDerefCopiedOfCopiedOrDefault<T> = Copied<AsDeref<OrDefault<Copied<T>>>>;

impl<'w, T: Copy + Deref + Default + 'w> ModQuery<'w, T> for CopiedQ<
    AsDeref<OrDefault<Copied<T>>>,
> where T::Target: Copy {
    type FromQuery = Opt<Ref>;

    type ModItem = T::Target;

    open spec fn modifies(from: Option<&'w T>, to: T::Target) -> bool {
        exists|v: T, d: &T::Target|
            #[trigger] copied_or_default(from, v) && #[trigger] derefs_to(&v, d) && to == *d
    }

    fn modify_reference(from: Option<&'w T>) -> (r: T::Target) {
        let v = match from {
            Some(c) => *c,
            None => T::default(),
        };
        let d = v.deref();
        assert(copied_or_default(from, v) && derefs_to(&v, d));
        *d
    }
}

/// The clone of the component or the component's default, dereferenced and
/// cloned.
pub type AsDerefClonedOfClonedOrDefault<T> = Cloned<AsDeref<OrDefault<Cloned<T>>>>;

impl<'w, T: Clone + Deref + Default + 'w> ModQuery<'w, T> for ClonedQ<
    AsDeref<OrDefault<Cloned<T>>>,
> where T::Target: Clone {
    type FromQuery = Opt<Ref>;

    type ModItem = T::Target;

    open spec fn modifies(from: Option<&'w T>, to: T::Target) -> bool {
        exists|v: T, d: &T::Target|
            #[trigger] cloned_or_default(from, v) && #[trigger] derefs_to(&v, d) && clones_to(d, to)
    }

    fn modify_reference(from: Option<&'w T>) -> (r: T::Target) {
        let v = match from {
            Some(c) => c.clone(),
            None => T::default(),
        };
        let d = v.deref();
        let r = d.clone();
        assert(cloned_or_default(from, v) && derefs_to(&v, d));
        r
    }
}

/// The copy of the component, or its default where it is absent.
pub type CopiedOrDefault<T> = OrDefault<Copied<T>>;

/// The clone of the component, or its default where it is absent.
pub type ClonedOrDefault<T> = OrDefault<Cloned<T>>;

/// The copied target of the component; where the component is absent, the
/// copied target of the component's default. The present component is read
/// in place, never copied or cloned.
pub type AsDerefCopiedOrDefault<T> = Copied<AsDeref<OrDefault<T>>>;

impl<'w, T: Deref + Default + 'w> ModQuery<'w, T> for CopiedQ<AsDeref<OrDefault<T>>> where
    T::Target: Copy,
 {
    type FromQuery = Opt<Ref>;

    type ModItem = T::Target;

    open spec fn modifies(from: Option<&'w T>, to: T::Target) -> bool {
        match from {
            Some(c) => exists|d: &T::Target| #[trigger] derefs_to(c, d) && to == *d,
            None => exists|v: T, d: &T::Target|
                #[trigger] defaults_to(v) && #[trigger] derefs_to(&v, d) && to == *d,
        }
    }

    fn modify_reference(from: Option<&'w T>) -> (r: T::Target) {
        match from {
            Some(c) => {
                let d = c.deref();
                assert(derefs_to(c, d));
                *d
            },
            None => {
                let v = T::default();
                let d = v.deref();
                assert(defaults_to(v) && derefs_to(&v, d));
                *d
            },
        }
    }
}

/// The cloned target of the component; where the component is absent, the
/// cloned target of the component's default. The present component itself is
/// never cloned.
pub type AsDerefClonedOrDefault<T> = Cloned<AsDeref<OrDefault<T>>>;

impl<'w, T: Deref + Default + 'w> ModQuery<'w, T> for ClonedQ<AsDeref<OrDefault<T>>> where
    T::Target: Clone,
 {
    type FromQuery = Opt<Ref>;

    type ModItem = T::Target;

    open spec fn modifies(from: Option<&'w T>, to: T::Target) -> bool {
        match from {
            Some(c) => exists|d: &T::Target| #[trigger] derefs_to(c, d) && clones_to(d, to),
            None => exists|v: T, d: &T::Target|
                #[trigger] defaults_to(v) && #[trigger] derefs_to(&v, d) && clones_to(d, to),
        }
    }

    fn modify_reference(from: Option<&'w T>) -> (r: T::Target) {
        match from {
            Some(c) => {
                let d = c.deref();
                let r = d.clone();
                assert(derefs_to(c, d));
                r
            },
            None => {
                let v = T::default();
                let d = v.deref();
                let r = d.clone();
                assert(defaults_to(v) && derefs_to(&v, d));
                r
            },
        }
    }
}

} // verus!
