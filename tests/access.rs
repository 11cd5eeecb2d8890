use std::ops::{Deref, DerefMut};

use bevy_query_ext::{
    AccessEntry, AsDeref, AsDerefMut, ComponentId, FilteredAccess, ProjectMut, QueryData,
    QueryDataMut,
};

struct Flag(bool);

impl Deref for Flag {
    type Target = bool;

    fn deref(&self) -> &bool {
        &self.0
    }
}

impl DerefMut for Flag {
    fn deref_mut(&mut self) -> &mut bool {
        &mut self.0
    }
}

impl ProjectMut for Flag {
    type Inner = bool;

    fn inner_of(&self) -> bool {
        self.0
    }

    fn with_inner(&self, v: bool) -> Flag {
        Flag(v)
    }

    fn project_mut(&mut self) -> &mut bool {
        &mut self.0
    }
}

#[test]
fn empty_access_is_read_only_and_compatible() {
    let a = FilteredAccess::new();
    let b = FilteredAccess::new();
    assert!(a.is_read_only());
    assert!(a.is_compatible(&b));
    assert!(a.entries().is_empty());
}

#[test]
fn readers_of_one_component_are_compatible() {
    let id = ComponentId { id: 1 };
    let mut a = FilteredAccess::new();
    <AsDeref<Flag> as QueryData<'_, Flag>>::update_component_access(id, &mut a);
    let mut b = FilteredAccess::new();
    b.add_read(id);
    assert!(a.is_read_only());
    assert!(a.is_compatible(&b));
    assert!(b.is_compatible(&a));
}

#[test]
fn mutable_view_writes_and_conflicts_with_a_reader() {
    let id = ComponentId { id: 1 };
    let mut w = FilteredAccess::new();
    <AsDerefMut<Flag> as QueryDataMut<'_, Flag>>::update_component_access(id, &mut w);
    assert_eq!(w.entries(), &vec![AccessEntry { component: id, write: true }]);
    assert!(!w.is_read_only());
    let mut r = FilteredAccess::new();
    <AsDeref<Flag> as QueryData<'_, Flag>>::update_component_access(id, &mut r);
    assert_eq!(r.entries(), &vec![AccessEntry { component: id, write: false }]);
    assert!(!w.is_compatible(&r));
    assert!(!r.is_compatible(&w));
}

#[test]
fn writers_of_different_components_are_compatible() {
    let mut a = FilteredAccess::new();
    a.add_write(ComponentId { id: 1 });
    a.add_read(ComponentId { id: 3 });
    let mut b = FilteredAccess::new();
    b.add_write(ComponentId { id: 2 });
    b.add_read(ComponentId { id: 3 });
    assert!(a.is_compatible(&b));
    b.add_read(ComponentId { id: 1 });
    assert!(!a.is_compatible(&b));
}
