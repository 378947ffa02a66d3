use core::marker::PhantomData;

use ptr_meta::impls::{CompositeRef, NoMetadata, SliceRef, StrRef, ThinRef};
use ptr_meta::vtable::{check_power_of_two, TableRegistry, VTable};
use ptr_meta::{
    from_raw_parts, from_raw_parts_mut, metadata, test_pointee, to_raw_parts, to_raw_parts_mut,
    DynMetadata,
};
use ptr_meta::impls::DynRef;

struct TestUnit;

#[allow(dead_code)]
struct TestStruct {
    a: (),
    b: i32,
    c: bool,
}

#[allow(dead_code)]
struct TestTuple((), i32, bool);

#[allow(dead_code)]
struct TestGeneric<T>(T);

/// The dispatch contract of the `trait_objects` scenario.
#[derive(Debug)]
struct TestTrait;

fn round_trip_thin<T>(addr: usize) {
    let r = ThinRef::<T> { addr, referent: PhantomData };
    let rebuilt = test_pointee(&r);
    assert!(rebuilt == r);
    let (raw, meta) = to_raw_parts(&r);
    assert_eq!(raw, addr);
    assert!(meta == NoMetadata);
    let again = from_raw_parts::<ThinRef<T>>(raw, meta);
    assert!(again == r);
}

#[test]
fn sized_types() {
    round_trip_thin::<()>(0x1000);
    round_trip_thin::<i32>(42);
    round_trip_thin::<bool>(0x1010);
    round_trip_thin::<[i32; 4]>(0x1020);
    round_trip_thin::<TestUnit>(0x1030);
    round_trip_thin::<TestStruct>(0x1040);
    round_trip_thin::<TestTuple>(0x1050);
    round_trip_thin::<TestGeneric<i32>>(0x1060);
}

#[test]
fn unsized_types() {
    let text = "hello world";
    let s = StrRef { addr: 0x2000, byte_len: text.len() };
    assert_eq!(metadata(&s), 11);
    let rebuilt = test_pointee(&s);
    assert!(rebuilt == s);

    let elements = [1, 2, 3, 4];
    let slice = SliceRef::<i32> { addr: 0x3000, len: elements.len(), elem: PhantomData };
    assert_eq!(metadata(&slice), 4);
    let rebuilt = test_pointee(&slice);
    assert!(rebuilt == slice);
    let (raw, len) = to_raw_parts(&slice);
    assert_eq!(raw, 0x3000);
    assert_eq!(len, 4);
    assert!(from_raw_parts::<SliceRef<i32>>(raw, len) == slice);
}

#[test]
fn trait_objects() {
    let mut tables: TableRegistry<TestTrait> = TableRegistry::new();

    // The concrete type A: zero-sized, one operation.
    let a_meta = tables.register(0x10, 0, 1, vec![0x20]);
    let trait_object = DynRef { addr: 0x4000, meta: a_meta };
    let rebuilt = test_pointee(&trait_object);
    assert!(rebuilt == trait_object);

    // The concrete type B: holds one 42, four bytes, one operation.
    let b_value = 42;
    let b_meta = tables.register(0x11, core::mem::size_of_val(&b_value), 4, vec![0x21]);
    let trait_object = DynRef { addr: 0x4100, meta: b_meta };
    let rebuilt = test_pointee(&trait_object);
    assert!(rebuilt == trait_object);

    assert_ne!(a_meta, b_meta);
}

#[test]
fn mutable_parts() {
    let mut slice = SliceRef::<u8> { addr: 0x5000, len: 7, elem: PhantomData };
    let (raw, len) = to_raw_parts_mut(&mut slice);
    assert_eq!(raw, 0x5000);
    assert_eq!(len, 7);
    let rebuilt = from_raw_parts_mut::<SliceRef<u8>>(raw, len);
    assert!(rebuilt == slice);
}

#[test]
fn metadata_stability() {
    // The declared count comes back exactly, for small, unit and large
    // counts, whatever the element type.
    for n in [0usize, 1, usize::MAX / 2] {
        let bytes = SliceRef::<u8> { addr: 0x6000, len: n, elem: PhantomData };
        let words = SliceRef::<u64> { addr: 0x6100, len: n, elem: PhantomData };
        assert_eq!(metadata(&bytes), n);
        assert_eq!(metadata(&words), n);
        assert_eq!(metadata(&bytes), metadata(&words));
    }
}

#[test]
fn composite_propagation() {
    // A two-member composite: a fixed-size member, then a trailing run of
    // three elements. The composite reports the tail's count as its own.
    let tail_count = 3;
    let composite = CompositeRef::<SliceRef<u8>> { addr: 0x7000, tail_meta: tail_count };
    assert_eq!(metadata(&composite), 3);

    // Nesting propagates all the way out.
    let nested = CompositeRef::<CompositeRef<SliceRef<u8>>> { addr: 0x7100, tail_meta: 3 };
    assert_eq!(metadata(&nested), 3);

    let rebuilt = test_pointee(&composite);
    assert_eq!(metadata(&rebuilt), 3);
}

#[test]
fn handle_identity() {
    let mut tables: TableRegistry<TestTrait> = TableRegistry::new();
    let first = tables.register(1, 8, 8, vec![0x30]);
    // A second concrete type whose table holds identical entries.
    let second = tables.register(1, 8, 8, vec![0x30]);

    // Two handles to the same table are equal.
    assert_eq!(first, tables.handle(0));
    assert_eq!(tables.handle(0), tables.handle(0));
    // Handles to distinct tables are unequal, contents notwithstanding.
    assert_ne!(first, second);
    assert_ne!(tables.handle(0), tables.handle(1));

    // Ordering and equality agree with table identity.
    assert!(first < second);
    assert!(first <= tables.handle(0));
}

#[test]
fn layout_consistency() {
    let mut tables: TableRegistry<TestTrait> = TableRegistry::new();

    // A zero-sized concrete type: size 0, alignment 1.
    let zero_sized = tables.register(0x40, 0, 1, Vec::new());
    let l = zero_sized.layout(&tables);
    assert_eq!(l.size, 0);
    assert_eq!(l.align, 1);
    assert_eq!(zero_sized.size_of(&tables), 0);
    assert_eq!(zero_sized.align_of(&tables), 1);

    // A sixteen-byte concrete type of alignment 8.
    let aligned = tables.register(0x41, 16, 8, vec![0x50, 0x51]);
    let l = aligned.layout(&tables);
    assert_eq!(l.size, 16);
    assert_eq!(l.align, 8);
    assert_eq!(aligned.size_of(&tables), 16);
    assert_eq!(aligned.align_of(&tables), 8);

    assert!(check_power_of_two(1));
    assert!(check_power_of_two(8));
    assert!(!check_power_of_two(0));
    assert!(!check_power_of_two(12));
}

#[test]
fn table_word_layout() {
    // Slot 0 holds the finalizer, slot 1 the size, slot 2 the alignment,
    // and the operation entries follow in order.
    let table = VTable::new(7, 24, 8, vec![100, 200]);
    assert_eq!(table.word(0), 7);
    assert_eq!(table.word(1), 24);
    assert_eq!(table.word(2), 8);
    assert_eq!(table.word(3), 100);
    assert_eq!(table.word(4), 200);
}

#[test]
fn dyn_metadata_is_copy() {
    let mut tables: TableRegistry<TestTrait> = TableRegistry::new();
    let meta = tables.register(0x60, 4, 4, Vec::new());
    let copy: DynMetadata<TestTrait> = meta;
    assert_eq!(copy, meta);
    assert_eq!(copy.clone(), meta);
}
