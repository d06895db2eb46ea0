use aya_bpf::{bpf_map_def, Array, ArrayStorage, PinningType, BPF_MAP_TYPE_ARRAY};

fn store_for<T>(array: &Array<T>) -> ArrayStorage<T> {
    ArrayStorage::create(&array.def()).expect("descriptor of an array map")
}

#[test]
fn unwritten_index_is_absent() {
    let array = Array::<u64>::with_max_entries(1, 0);
    let mut store = store_for(&array);
    assert_eq!(array.get(&mut store, 0), None);
}

#[test]
fn written_index_is_present() {
    let array = Array::<u64>::with_max_entries(1, 0);
    let mut store = store_for(&array);
    assert!(store.write(0, 42));
    assert_eq!(array.get(&mut store, 0), Some(&42));
}

#[test]
fn index_past_capacity_is_absent() {
    let array = Array::<u64>::with_max_entries(1, 0);
    let mut store = store_for(&array);
    assert!(store.write(0, 42));
    assert_eq!(array.get(&mut store, 5), None);
}

#[test]
fn sizes_follow_the_element_type() {
    for (n, f) in [(0u32, 0u32), (1, 0), (1024, 7), (u32::MAX, u32::MAX)] {
        let a = Array::<u64>::with_max_entries(n, f).def();
        assert_eq!(a.key_size, 4);
        assert_eq!(a.value_size, 8);
        let b = Array::<u8>::pinned(n, f).def();
        assert_eq!(b.key_size, 4);
        assert_eq!(b.value_size, 1);
        let c = Array::<[u32; 5]>::with_max_entries(n, f).def();
        assert_eq!(c.key_size, 4);
        assert_eq!(c.value_size, 20);
    }
}

#[test]
fn constructors_fill_every_field() {
    let a = Array::<u32>::with_max_entries(16, 3).def();
    assert_eq!(
        a,
        bpf_map_def {
            type_: BPF_MAP_TYPE_ARRAY,
            key_size: 4,
            value_size: 4,
            max_entries: 16,
            map_flags: 3,
            id: 0,
            pinning: 0,
        }
    );
    assert_eq!(BPF_MAP_TYPE_ARRAY, 2);
    let p = Array::<u32>::pinned(16, 3).def();
    assert_eq!(p.pinning, 1);
}

#[test]
fn pinned_differs_only_in_pinning() {
    let a = Array::<u64>::with_max_entries(9, 5).def();
    let b = Array::<u64>::pinned(9, 5).def();
    assert_ne!(a, b);
    assert_eq!(a.pinning, PinningType::Unpinned.code());
    assert_eq!(b.pinning, PinningType::ByName.code());
    assert_eq!(bpf_map_def { pinning: a.pinning, ..b }, a);
}

#[test]
fn construction_is_deterministic() {
    assert_eq!(
        Array::<u16>::with_max_entries(3, 1).def(),
        Array::<u16>::with_max_entries(3, 1).def()
    );
    assert_eq!(Array::<u16>::pinned(3, 1).def(), Array::<u16>::pinned(3, 1).def());
}

#[test]
fn each_get_makes_one_lookup() {
    let array = Array::<u64>::with_max_entries(4, 0);
    let mut store = store_for(&array);
    assert_eq!(store.lookups(), 0);
    assert_eq!(array.get(&mut store, 0), None);
    assert_eq!(store.lookups(), 1);
    assert!(store.write(3, 7));
    assert_eq!(store.lookups(), 1);
    assert_eq!(array.get(&mut store, 3), Some(&7));
    assert_eq!(array.get(&mut store, 9), None);
    assert_eq!(store.lookups(), 3);
}

#[test]
fn later_writes_replace_entries() {
    let array = Array::<u64>::with_max_entries(2, 0);
    let mut store = store_for(&array);
    assert!(store.write(1, 10));
    assert!(store.write(1, 11));
    assert_eq!(array.get(&mut store, 0), None);
    assert_eq!(array.get(&mut store, 1), Some(&11));
}

#[test]
fn write_past_capacity_is_refused() {
    let array = Array::<u64>::with_max_entries(2, 0);
    let mut store = store_for(&array);
    assert!(!store.write(2, 1));
    assert_eq!(array.get(&mut store, 2), None);
}

#[test]
fn zero_capacity_has_no_entries() {
    let array = Array::<u64>::with_max_entries(0, 0);
    let mut store = store_for(&array);
    assert!(!store.write(0, 1));
    assert_eq!(array.get(&mut store, 0), None);
}

#[test]
fn store_of_another_map_finds_nothing() {
    let array = Array::<u64>::with_max_entries(2, 0);
    let other = Array::<u64>::pinned(2, 0);
    let mut store = store_for(&other);
    assert!(store.write(0, 5));
    assert_eq!(array.get(&mut store, 0), None);
    assert_eq!(other.get(&mut store, 0), Some(&5));
}

#[test]
fn store_refuses_mismatched_descriptors() {
    let def = Array::<u64>::with_max_entries(2, 0).def();
    assert!(ArrayStorage::<u32>::create(&def).is_none());
    assert!(ArrayStorage::<u64>::create(&bpf_map_def { type_: 1, ..def }).is_none());
    assert!(ArrayStorage::<u64>::create(&bpf_map_def { key_size: 8, ..def }).is_none());
    assert!(ArrayStorage::<u64>::create(&def).is_some());
}

#[test]
fn raw_lookup_reads_little_endian_keys() {
    let array = Array::<u64>::with_max_entries(300, 0);
    let mut store = store_for(&array);
    assert!(store.write(258, 99));
    let def = array.def();
    assert_eq!(store.raw_lookup(&def, &[2, 1, 0, 0]), Some(&99));
    assert_eq!(store.raw_lookup(&def, &[1, 2, 0, 0]), None);
    assert_eq!(store.raw_lookup(&def, &[2, 1, 0]), None);
    assert_eq!(array.get(&mut store, 258), Some(&99));
}

#[test]
fn descriptor_bytes_follow_the_record_layout() {
    let def = Array::<u64>::pinned(0x0102_0304, 0xA0B0_C0D0).def();
    assert_eq!(
        def.to_bytes(),
        vec![
            2, 0, 0, 0, 4, 0, 0, 0, 8, 0, 0, 0, 4, 3, 2, 1, 0xD0, 0xC0, 0xB0, 0xA0, 0, 0, 0, 0,
            1, 0, 0, 0,
        ]
    );
}
