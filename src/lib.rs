//! Query adapters for columnar component storage: views that copy, clone,
//! dereference or default the item of a wrapped query descriptor while keeping
//! its access declaration and fetch state unchanged.
pub mod access;
pub mod base;
pub mod extensions;
pub mod laws;
pub mod or_const;
pub mod query;
pub mod storage;

pub use access::{AccessEntry, ComponentId, FilteredAccess};
pub use base::{ModQ, ModQMut, ModQuery, ModQueryMut};
pub use extensions::{
    AsDeref, AsDerefCloned, AsDerefClonedOfClonedOrDefault, AsDerefClonedOrDefault, AsDerefCopied,
    AsDerefCopiedOfClonedOrDefault, AsDerefCopiedOfCopiedOrDefault, AsDerefCopiedOrDefault,
    AsDerefMut, AsDerefMutQ, AsDerefQ, Cloned, ClonedOrDefault, ClonedQ, Copied, CopiedOrDefault,
    CopiedQ, OrDefault, OrDefaultQ, ProjectMut,
};
pub use or_const::{
    AsDerefOrBool, AsDerefOrU128, AsDerefOrU16, AsDerefOrU32, AsDerefOrU64, AsDerefOrU8,
    AsDerefOrUsize, OrBool, OrU128, OrU16, OrU32, OrU64, OrU8, OrUsize,
};
pub use query::{Opt, QueryData, QueryDataMut, Ref, RefMut};
pub use storage::Column;
