//! Views that substitute a constant for an absent component.
//!
//! One view per scalar type: `bool` and the unsigned integers. A constant
//! parameter of a signed integer or `char` type cannot be declared here, so
//! those views are not provided. The wrapped item must dereference to the
//! scalar, as the item of [`AsDeref`] does; a `Borrow` bound would also admit
//! the scalar itself, but `Borrow::borrow` has no specification to reason with.
use vstd::prelude::*;

use std::marker::PhantomData;
use std::ops::Deref;

use crate::base::{ModQ, ModQuery};
use crate::extensions::{derefs_to, AsDeref};
use crate::query::{Opt, QueryData};

verus! {

/// Marker selecting the substitution of the constant `V` for an absent `bool`.
#[derive(Debug)]
pub struct OrBoolQ<T, const V: bool>(pub PhantomData<T>);

/// The `bool` that the item of `T` dereferences to, or `V` where `T` does not
/// match the row.
pub type OrBool<T, const V: bool> = ModQ<OrBoolQ<T, V>>;

/// The `bool` the component dereferences to, or `V` where it is absent.
pub type AsDerefOrBool<T, const V: bool> = OrBool<AsDeref<T>, V>;

impl<'w, C: 'w, T: QueryData<'w, C>, const V: bool> ModQuery<'w, C> for OrBoolQ<T, V> where
    T::Item: Deref<Target = bool>,
 {
    type FromQuery = Opt<T>;

    type ModItem = bool;

    open spec fn modifies(from: Option<T::Item>, to: bool) -> bool {
        match from {
            Some(b) => exists|d: &bool| #[trigger] derefs_to(&b, d) && to == *d,
            None => to == V,
        }
    }

    fn modify_reference(from: Option<T::Item>) -> (r: bool) {
        match from {
            Some(b) => {
                let d = b.deref();
                assert(derefs_to(&b, d));
                *d
            },
            None => V,
        }
    }
}

/// Marker selecting the substitution of the constant `V` for an absent `u8`.
#[derive(Debug)]
pub struct OrU8Q<T, const V: u8>(pub PhantomData<T>);

/// The `u8` that the item of `T` dereferences to, or `V` where `T` does not
/// match the row.
pub type OrU8<T, const V: u8> = ModQ<OrU8Q<T, V>>;

/// The `u8` the component dereferences to, or `V` where it is absent.
pub type AsDerefOrU8<T, const V: u8> = OrU8<AsDeref<T>, V>;

impl<'w, C: 'w, T: QueryData<'w, C>, const V: u8> ModQuery<'w, C> for OrU8Q<T, V> where
    T::Item: Deref<Target = u8>,
 {
    type FromQuery = Opt<T>;

    type ModItem = u8;

    open spec fn modifies(from: Option<T::Item>, to: u8) -> bool {
        match from {
            Some(b) => exists|d: &u8| #[trigger] derefs_to(&b, d) && to == *d,
            None => to == V,
        }
    }

    fn modify_reference(from: Option<T::Item>) -> (r: u8) {
        match from {
            Some(b) => {
                let d = b.deref();
                assert(derefs_to(&b, d));
                *d
            },
            None => V,
        }
    }
}

/// Marker selecting the substitution of the constant `V` for an absent `u16`.
#[derive(Debug)]
pub struct OrU16Q<T, const V: u16>(pub PhantomData<T>);

/// The `u16` that the item of `T` dereferences to, or `V` where `T` does not
/// match the row.
pub type OrU16<T, const V: u16> = ModQ<OrU16Q<T, V>>;

/// The `u16` the component dereferences to, or `V` where it is absent.
pub type AsDerefOrU16<T, const V: u16> = OrU16<AsDeref<T>, V>;

impl<'w, C: 'w, T: QueryData<'w, C>, const V: u16> ModQuery<'w, C> for OrU16Q<T, V> where
    T::Item: Deref<Target = u16>,
 {
    type FromQuery = Opt<T>;

    type ModItem = u16;

    open spec fn modifies(from: Option<T::Item>, to: u16) -> bool {
        match from {
            Some(b) => exists|d: &u16| #[trigger] derefs_to(&b, d) && to == *d,
            None => to == V,
        }
    }

    fn modify_reference(from: Option<T::Item>) -> (r: u16) {
        match from {
            Some(b) => {
                let d = b.deref();
                assert(derefs_to(&b, d));
                *d
            },
            None => V,
        }
    }
}

/// Marker selecting the substitution of the constant `V` for an absent `u32`.
#[derive(Debug)]
pub struct OrU32Q<T, const V: u32>(pub PhantomData<T>);

/// The `u32` that the item of `T` dereferences to, or `V` where `T` does not
/// match the row.
pub type OrU32<T, const V: u32> = ModQ<OrU32Q<T, V>>;

/// The `u32` the component dereferences to, or `V` where it is absent.
pub type AsDerefOrU32<T, const V: u32> = OrU32<AsDeref<T>, V>;

impl<'w, C: 'w, T: QueryData<'w, C>, const V: u32> ModQuery<'w, C> for OrU32Q<T, V> where
    T::Item: Deref<Target = u32>,
 {
    type FromQuery = Opt<T>;

    type ModItem = u32;

    open spec fn modifies(from: Option<T::Item>, to: u32) -> bool {
        match from {
            Some(b) => exists|d: &u32| #[trigger] derefs_to(&b, d) && to == *d,
            None => to == V,
        }
    }

    fn modify_reference(from: Option<T::Item>) -> (r: u32) {
        match from {
            Some(b) => {
                let d = b.deref();
                assert(derefs_to(&b, d));
                *d
            },
            None => V,
        }
    }
}

/// Marker selecting the substitution of the constant `V` for an absent `u64`.
#[derive(Debug)]
pub struct OrU64Q<T, const V: u64>(pub PhantomData<T>);

/// The `u64` that the item of `T` dereferences to, or `V` where `T` does not
/// match the row.
pub type OrU64<T, const V: u64> = ModQ<OrU64Q<T, V>>;

/// The `u64` the component dereferences to, or `V` where it is absent.
pub type AsDerefOrU64<T, const V: u64> = OrU64<AsDeref<T>, V>;

impl<'w, C: 'w, T: QueryData<'w, C>, const V: u64> ModQuery<'w, C> for OrU64Q<T, V> where
    T::Item: Deref<Target = u64>,
 {
    type FromQuery = Opt<T>;

    type ModItem = u64;

    open spec fn modifies(from: Option<T::Item>, to: u64) -> bool {
        match from {
            Some(b) => exists|d: &u64| #[trigger] derefs_to(&b, d) && to == *d,
            None => to == V,
        }
    }

    fn modify_reference(from: Option<T::Item>) -> (r: u64) {
        match from {
            Some(b) => {
                let d = b.deref();
                assert(derefs_to(&b, d));
                *d
            },
            None => V,
        }
    }
}

/// Marker selecting the substitution of the constant `V` for an absent `u128`.
#[derive(Debug)]
pub struct OrU128Q<T, const V: u128>(pub PhantomData<T>);

/// The `u128` that the item of `T` dereferences to, or `V` where `T` does not
/// match the row.
pub type OrU128<T, const V: u128> = ModQ<OrU128Q<T, V>>;

/// The `u128` the component dereferences to, or `V` where it is absent.
pub type AsDerefOrU128<T, const V: u128> = OrU128<AsDeref<T>, V>;

impl<'w, C: 'w, T: QueryData<'w, C>, const V: u128> ModQuery<'w, C> for OrU128Q<T, V> where
    T::Item: Deref<Target = u128>,
 {
    type FromQuery = Opt<T>;

    type ModItem = u128;

    open spec fn modifies(from: Option<T::Item>, to: u128) -> bool {
        match from {
            Some(b) => exists|d: &u128| #[trigger] derefs_to(&b, d) && to == *d,
            None => to == V,
        }
    }

    fn modify_reference(from: Option<T::Item>) -> (r: u128) {
        match from {
            Some(b) => {
                let d = b.deref();
                assert(derefs_to(&b, d));
                *d
            },
            None => V,
        }
    }
}

/// Marker selecting the substitution of the constant `V` for an absent `usize`.
#[derive(Debug)]
pub struct OrUsizeQ<T, const V: usize>(pub PhantomData<T>);

/// The `usize` that the item of `T` dereferences to, or `V` where `T` does not
/// match the row.
pub type OrUsize<T, const V: usize> = ModQ<OrUsizeQ<T, V>>;

/// The `usize` the component dereferences to, or `V` where it is absent.
pub type AsDerefOrUsize<T, const V: usize> = OrUsize<AsDeref<T>, V>;

impl<'w, C: 'w, T: QueryData<'w, C>, const V: usize> ModQuery<'w, C> for OrUsizeQ<T, V> where
    T::Item: Deref<Target = usize>,
 {
    type FromQuery = Opt<T>;

    type ModItem = usize;

    open spec fn modifies(from: Option<T::Item>, to: usize) -> bool {
        match from {
            Some(b) => exists|d: &usize| #[trigger] derefs_to(&b, d) && to == *d,
            None => to == V,
        }
    }

    fn modify_reference(from: Option<T::Item>) -> (r: usize) {
        match from {
            Some(b) => {
                let d = b.deref();
                assert(derefs_to(&b, d));
                *d
            },
            None => V,
        }
    }
}

} // verus!
