//! A typed handle over a fixed-size array map.
use crate::bindings::{bpf_map_def, PinningType, BPF_MAP_TYPE_ARRAY};
use crate::storage::{next_count, ArrayStorage};
use core::marker::PhantomData;
use vstd::bytes::{lemma_auto_spec_u32_to_from_le_bytes, u32_to_le_bytes};
use vstd::layout::size_of;
use vstd::prelude::*;

verus! {

broadcast use vstd::layout::layout_of_primitives;

/// The descriptor of an array map of `T` with the given capacity, flags and
/// pinning mode, as a constructor builds it.
pub open spec fn array_def<T>(max_entries: u32, flags: u32, pinning: PinningType) -> bpf_map_def {
    bpf_map_def {
        type_: BPF_MAP_TYPE_ARRAY,
        key_size: size_of::<u32>() as u32,
        value_size: size_of::<T>() as u32,
        max_entries,
        map_flags: flags,
        id: 0,
        pinning: pinning.spec_code(),
    }
}

/// What a lookup of `index` finds in `storage`, as the store stood before
/// it: the entry where the store backs the map `def` and the entry is
/// written, else nothing.
pub open spec fn lookup_result<T>(def: bpf_map_def, storage: ArrayStorage<T>, index: u32) -> Option<
    T,
> {
    if storage.spec_def() == def && storage@.contains_key(index) {
        Some(storage@[index])
    } else {
        None
    }
}

/// A fixed-size array map whose entries are values of `T`, indexed by `u32`.
///
/// The value is the map's descriptor only: the entries live in the host's
/// backing store, which the loader creates from the descriptor. The map is
/// sized by `max_entries`, given to `Array::with_max_entries` or
/// `Array::pinned`, and never changes size.
pub struct Array<T> {
    def: bpf_map_def,
    _t: PhantomData<T>,
}

impl<T> View for Array<T> {
    type V = bpf_map_def;

    closed spec fn view(&self) -> bpf_map_def {
        self.def
    }
}

impl<T> Array<T> {
    fn build(max_entries: u32, flags: u32, pinning: PinningType) -> (r: Array<T>)
        requires
            size_of::<T>() <= u32::MAX,
        ensures
            r@ == array_def::<T>(max_entries, flags, pinning),
    {
        Array {
            def: bpf_map_def {
                type_: BPF_MAP_TYPE_ARRAY,
                key_size: core::mem::size_of::<u32>() as u32,
                value_size: core::mem::size_of::<T>() as u32,
                max_entries,
                map_flags: flags,
                id: 0,
                pinning: pinning.code(),
            },
            _t: PhantomData,
        }
    }

    /// Defines an array of `max_entries` elements of type `T`, which the
    /// loader does not pin.
    pub fn with_max_entries(max_entries: u32, flags: u32) -> (r: Array<T>)
        requires
            size_of::<T>() <= u32::MAX,
        ensures
            r@ == array_def::<T>(max_entries, flags, PinningType::Unpinned),
            r@.key_size == size_of::<u32>(),
            r@.value_size == size_of::<T>(),
    {
        Self::build(max_entries, flags, PinningType::Unpinned)
    }

    /// Defines an array of `max_entries` elements of type `T`, which the
    /// loader pins under the map's declared name.
    pub fn pinned(max_entries: u32, flags: u32) -> (r: Array<T>)
        requires
            size_of::<T>() <= u32::MAX,
        ensures
            r@ == array_def::<T>(max_entries, flags, PinningType::ByName),
            r@.key_size == size_of::<u32>(),
            r@.value_size == size_of::<T>(),
    {
        Self::build(max_entries, flags, PinningType::ByName)
    }

    /// The descriptor that the loader reads to create the map.
    pub fn def(&self) -> (r: bpf_map_def)
        ensures
            r == self@,
    {
        self.def
    }

    /// Returns the value stored at the given index, with one lookup in the
    /// map's backing store.
    ///
    /// `None` where the slot has not been written, where the index is past
    /// the map's capacity, and where `storage` does not back this map: the
    /// three are not told apart. The reference points into the store, whose
    /// entries may change from outside between lookups; it holds the value as
    /// it stood at this lookup. Its alignment is whatever the store gives its
    /// entries: nothing here checks or adds to it.
    pub fn get<'a>(&self, storage: &'a mut ArrayStorage<T>, index: u32) -> (r: Option<&'a T>)
        requires
            old(storage).wf(),
        ensures
            r is None <==> lookup_result(self@, *old(storage), index) is None,
            r matches Some(v) ==> lookup_result(self@, *old(storage), index) == Some(*v),
            final(storage).wf(),
            final(storage)@ == old(storage)@,
            final(storage).spec_def() == old(storage).spec_def(),
            final(storage).spec_lookups() == next_count(old(storage).spec_lookups()),
    {
        let key = u32_to_le_bytes(index);
        proof {
            lemma_auto_spec_u32_to_from_le_bytes();
        }
        storage.raw_lookup(&self.def, key.as_slice())
    }
}

/// An array built by `with_max_entries` and one built by `pinned` from the
/// same capacity and flags have the same descriptor in every field but the
/// pinning mode, which differs.
pub proof fn lemma_pinning_is_the_only_difference<T>(
    unpinned: Array<T>,
    pinned: Array<T>,
    max_entries: u32,
    flags: u32,
)
    requires
        unpinned@ == array_def::<T>(max_entries, flags, PinningType::Unpinned),
        pinned@ == array_def::<T>(max_entries, flags, PinningType::ByName),
    ensures
        unpinned@.type_ == pinned@.type_,
        unpinned@.key_size == pinned@.key_size,
        unpinned@.value_size == pinned@.value_size,
        unpinned@.max_entries == pinned@.max_entries,
        unpinned@.map_flags == pinned@.map_flags,
        unpinned@.id == pinned@.id,
        unpinned@.pinning != pinned@.pinning,
        pinned@ == (bpf_map_def { pinning: pinned@.pinning, ..unpinned@ }),
{
}

/// Construction is deterministic: two arrays built by the same constructor
/// from the same capacity and flags have identical descriptors.
pub proof fn lemma_construction_is_deterministic<T>(
    first: Array<T>,
    second: Array<T>,
    max_entries: u32,
    flags: u32,
    pinning: PinningType,
)
    requires
        first@ == array_def::<T>(max_entries, flags, pinning),
        second@ == array_def::<T>(max_entries, flags, pinning),
    ensures
        first@ == second@,
{
}

} // verus!
