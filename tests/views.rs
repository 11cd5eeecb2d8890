use std::ops::{Deref, DerefMut};

use bevy_query_ext::{
    AsDeref, AsDerefCloned, AsDerefClonedOfClonedOrDefault, AsDerefClonedOrDefault, AsDerefCopied,
    AsDerefCopiedOfClonedOrDefault, AsDerefCopiedOfCopiedOrDefault, AsDerefCopiedOrDefault,
    AsDerefMut, AsDerefOrBool, AsDerefOrU32, AsDerefOrU8, Cloned, ClonedOrDefault, Column,
    ComponentId, Copied, CopiedOrDefault, FilteredAccess, OrDefault, ProjectMut, QueryData, QueryDataMut, Ref,
};

#[derive(Clone, Copy, Debug, PartialEq)]
struct Wrapped(i32);

impl Default for Wrapped {
    fn default() -> Self {
        Wrapped(20)
    }
}

impl Deref for Wrapped {
    type Target = i32;

    fn deref(&self) -> &i32 {
        &self.0
    }
}

#[derive(Debug, PartialEq)]
struct Flag(bool);

impl Deref for Flag {
    type Target = bool;

    fn deref(&self) -> &bool {
        &self.0
    }
}

impl DerefMut for Flag {
    fn deref_mut(&mut self) -> &mut bool {
        &mut self.0
    }
}

impl ProjectMut for Flag {
    type Inner = bool;

    fn inner_of(&self) -> bool {
        self.0
    }

    fn with_inner(&self, v: bool) -> Flag {
        Flag(v)
    }

    fn project_mut(&mut self) -> &mut bool {
        &mut self.0
    }
}

#[derive(Clone, Debug, PartialEq, Default)]
struct Names(Vec<String>);

impl Deref for Names {
    type Target = Vec<String>;

    fn deref(&self) -> &Vec<String> {
        &self.0
    }
}

#[derive(Debug)]
struct Level(u32);

impl Deref for Level {
    type Target = u32;

    fn deref(&self) -> &u32 {
        &self.0
    }
}

struct Byte(u8);

impl Deref for Byte {
    type Target = u8;

    fn deref(&self) -> &u8 {
        &self.0
    }
}

fn wrapped_column() -> Column<Wrapped> {
    let mut c = Column::new(ComponentId { id: 1 });
    c.push(None);
    c.push(Some(Wrapped(7)));
    c
}

#[test]
fn default_of_component_then_deref_absent_and_present() {
    let c = wrapped_column();
    assert_eq!(<AsDerefCopiedOfClonedOrDefault<Wrapped> as QueryData<'_, Wrapped>>::fetch(&c, 0), 20);
    assert_eq!(<AsDerefCopiedOfClonedOrDefault<Wrapped> as QueryData<'_, Wrapped>>::fetch(&c, 1), 7);
    assert_eq!(<AsDerefCopiedOfCopiedOrDefault<Wrapped> as QueryData<'_, Wrapped>>::fetch(&c, 0), 20);
    assert_eq!(<AsDerefCopiedOfCopiedOrDefault<Wrapped> as QueryData<'_, Wrapped>>::fetch(&c, 1), 7);
    assert_eq!(<AsDerefClonedOfClonedOrDefault<Wrapped> as QueryData<'_, Wrapped>>::fetch(&c, 0), 20);
    assert_eq!(<AsDerefClonedOfClonedOrDefault<Wrapped> as QueryData<'_, Wrapped>>::fetch(&c, 1), 7);
}

#[test]
fn default_substitution_of_deref_uses_component_default() {
    let c = wrapped_column();
    assert_eq!(<AsDerefCopiedOrDefault<Wrapped> as QueryData<'_, Wrapped>>::fetch(&c, 0), 20);
    assert_eq!(<AsDerefCopiedOrDefault<Wrapped> as QueryData<'_, Wrapped>>::fetch(&c, 1), 7);
}

#[test]
fn default_substitution_over_deref_copied_uses_target_default() {
    let c = wrapped_column();
    assert_eq!(<OrDefault<AsDerefCopied<Wrapped>> as QueryData<'_, Wrapped>>::fetch(&c, 0), 0);
    assert_eq!(<OrDefault<AsDerefCopied<Wrapped>> as QueryData<'_, Wrapped>>::fetch(&c, 1), 7);
}

#[test]
fn cloned_deref_or_default_uses_component_default() {
    let mut c: Column<Names> = Column::new(ComponentId { id: 3 });
    c.push(None);
    c.push(Some(Names(vec!["x".to_string()])));
    assert_eq!(<AsDerefClonedOrDefault<Names> as QueryData<'_, Names>>::fetch(&c, 0), Vec::<String>::new());
    assert_eq!(
        <AsDerefClonedOrDefault<Names> as QueryData<'_, Names>>::fetch(&c, 1),
        vec!["x".to_string()]
    );
}

#[test]
fn exclusive_row_borrow_writes_back() {
    let mut c = wrapped_column();
    {
        let r = c.cell_mut(1);
        assert_eq!(*r, Wrapped(7));
        *r = Wrapped(11);
    }
    assert_eq!(c.cells[1], Some(Wrapped(11)));
    assert_eq!(c.cells[0], None);
}

#[test]
fn deref_mut_write_is_seen_by_later_deref() {
    let mut c: Column<Flag> = Column::new(ComponentId { id: 2 });
    c.push(Some(Flag(false)));
    c.push(Some(Flag(false)));
    {
        let r = <AsDerefMut<Flag> as QueryDataMut<'_, Flag>>::fetch_mut(&mut c, 1);
        assert!(!*r);
        *r = true;
    }
    assert!(*<AsDeref<Flag> as QueryData<'_, Flag>>::fetch(&c, 1));
    assert!(!*<AsDeref<Flag> as QueryData<'_, Flag>>::fetch(&c, 0));
}

#[test]
fn deref_mut_sequential_fetches_of_one_row() {
    let mut c: Column<Flag> = Column::new(ComponentId { id: 2 });
    c.push(Some(Flag(false)));
    {
        let first = <AsDerefMut<Flag> as QueryDataMut<'_, Flag>>::fetch_mut(&mut c, 0);
        *first = true;
    }
    {
        let second = <AsDerefMut<Flag> as QueryDataMut<'_, Flag>>::fetch_mut(&mut c, 0);
        assert!(*second);
        *second = false;
    }
    assert_eq!(c.cells[0], Some(Flag(false)));
}

#[test]
fn copied_and_cloned_give_the_component() {
    let c = wrapped_column();
    assert_eq!(<Copied<Wrapped> as QueryData<'_, Wrapped>>::fetch(&c, 1), Wrapped(7));
    assert_eq!(<Cloned<Wrapped> as QueryData<'_, Wrapped>>::fetch(&c, 1), Wrapped(7));
    assert_eq!(<AsDerefCopied<Wrapped> as QueryData<'_, Wrapped>>::fetch(&c, 1), 7);
    assert_eq!(*<AsDeref<Wrapped> as QueryData<'_, Wrapped>>::fetch(&c, 1), 7);
}

#[test]
fn cloned_views_over_a_vector_target() {
    let mut c: Column<Names> = Column::new(ComponentId { id: 3 });
    c.push(Some(Names(vec!["a".to_string(), "b".to_string()])));
    c.push(None);
    assert_eq!(
        <AsDerefCloned<Names> as QueryData<'_, Names>>::fetch(&c, 0),
        vec!["a".to_string(), "b".to_string()]
    );
    assert_eq!(
        <OrDefault<AsDerefCloned<Names>> as QueryData<'_, Names>>::fetch(&c, 1),
        Vec::<String>::new()
    );
    assert_eq!(<ClonedOrDefault<Names> as QueryData<'_, Names>>::fetch(&c, 1), Names(vec![]));
}

#[test]
fn or_default_present_is_unchanged_and_absent_is_stable() {
    let c = wrapped_column();
    assert_eq!(<CopiedOrDefault<Wrapped> as QueryData<'_, Wrapped>>::fetch(&c, 1), Wrapped(7));
    let a = <CopiedOrDefault<Wrapped> as QueryData<'_, Wrapped>>::fetch(&c, 0);
    let b = <CopiedOrDefault<Wrapped> as QueryData<'_, Wrapped>>::fetch(&c, 0);
    assert_eq!(a, Wrapped(20));
    assert_eq!(a, b);
    assert_eq!(<OrDefault<Copied<Wrapped>> as QueryData<'_, Wrapped>>::fetch(&c, 0), Wrapped(20));
}

#[test]
fn composition_orders_agree_on_absence_when_defaults_agree() {
    // Names' default dereferences to an empty vector, the default of the target.
    let mut c: Column<Names> = Column::new(ComponentId { id: 3 });
    c.push(None);
    let a = <OrDefault<AsDerefCloned<Names>> as QueryData<'_, Names>>::fetch(&c, 0);
    let b = <AsDerefClonedOfClonedOrDefault<Names> as QueryData<'_, Names>>::fetch(&c, 0);
    assert_eq!(a, b);
}

#[test]
fn or_constant_substitutes_for_absence() {
    let mut c: Column<Level> = Column::new(ComponentId { id: 4 });
    c.push(Some(Level(3)));
    c.push(None);
    assert_eq!(<AsDerefOrU32<Level, 9> as QueryData<'_, Level>>::fetch(&c, 0), 3);
    assert_eq!(<AsDerefOrU32<Level, 9> as QueryData<'_, Level>>::fetch(&c, 1), 9);
    let mut f: Column<Flag> = Column::new(ComponentId { id: 2 });
    f.push(None);
    f.push(Some(Flag(false)));
    assert!(<AsDerefOrBool<Flag, true> as QueryData<'_, Flag>>::fetch(&f, 0));
    assert!(!<AsDerefOrBool<Flag, true> as QueryData<'_, Flag>>::fetch(&f, 1));
}

#[test]
fn or_constant_u8_edge_values() {
    let mut c: Column<Byte> = Column::new(ComponentId { id: 5 });
    c.push(Some(Byte(0)));
    c.push(None);
    assert_eq!(<AsDerefOrU8<Byte, 255> as QueryData<'_, Byte>>::fetch(&c, 0), 0);
    assert_eq!(<AsDerefOrU8<Byte, 255> as QueryData<'_, Byte>>::fetch(&c, 1), 255);
}

#[test]
fn matching_follows_presence() {
    let c = wrapped_column();
    assert!(!<Copied<Wrapped> as QueryData<'_, Wrapped>>::matches_component_set(&c.cells[0]));
    assert!(<Copied<Wrapped> as QueryData<'_, Wrapped>>::matches_component_set(&c.cells[1]));
    assert!(<CopiedOrDefault<Wrapped> as QueryData<'_, Wrapped>>::matches_component_set(&c.cells[0]));
    assert!(<Ref as QueryData<'_, Wrapped>>::matches_component_set(&c.cells[1]));
}

#[test]
fn views_declare_the_wrapped_access() {
    let id = ComponentId { id: 6 };
    let mut base = FilteredAccess::new();
    <Ref as QueryData<'_, Wrapped>>::update_component_access(id, &mut base);
    for_each_view_access(id, base.entries().clone());
}

fn for_each_view_access(id: ComponentId, expected: Vec<bevy_query_ext::AccessEntry>) {
    let mut a = FilteredAccess::new();
    <Copied<Wrapped> as QueryData<'_, Wrapped>>::update_component_access(id, &mut a);
    assert_eq!(a.entries(), &expected);
    let mut b = FilteredAccess::new();
    <OrDefault<AsDerefCopied<Wrapped>> as QueryData<'_, Wrapped>>::update_component_access(id, &mut b);
    assert_eq!(b.entries(), &expected);
    let mut c = FilteredAccess::new();
    <AsDerefCopiedOfClonedOrDefault<Wrapped> as QueryData<'_, Wrapped>>::update_component_access(id, &mut c);
    assert_eq!(c.entries(), &expected);
}

#[test]
fn optional_descriptor_and_column_length() {
    let c = wrapped_column();
    assert_eq!(c.len(), 2);
    assert_eq!(<bevy_query_ext::Opt<Ref> as QueryData<'_, Wrapped>>::fetch(&c, 0), None);
    assert_eq!(<bevy_query_ext::Opt<Ref> as QueryData<'_, Wrapped>>::fetch(&c, 1), Some(&Wrapped(7)));
    assert_eq!(<bevy_query_ext::Opt<Copied<Wrapped>> as QueryData<'_, Wrapped>>::fetch(&c, 1), Some(Wrapped(7)));
}

#[test]
fn boxed_component_write_through_exclusive_view() {
    let mut c: Column<Box<bool>> = Column::new(ComponentId { id: 7 });
    c.push(Some(Box::new(false)));
    c.push(None);
    {
        let r = <AsDerefMut<Box<bool>> as QueryDataMut<'_, Box<bool>>>::fetch_mut(&mut c, 0);
        assert!(!*r);
        *r = true;
    }
    assert_eq!(c.cells[0], Some(Box::new(true)));
    assert_eq!(c.cells[1], None);
}
