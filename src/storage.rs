//! The host side of an array map: the backing store that the loader creates
//! from a descriptor and that serves lookups by key bytes.
use crate::bindings::{bpf_map_def, BPF_MAP_TYPE_ARRAY};
use vstd::bytes::{spec_u32_from_le_bytes, u32_from_le_bytes};
use vstd::layout::size_of;
use vstd::prelude::*;

verus! {

/// The number of bytes in an array map's key: one `u32` index.
pub const ARRAY_KEY_SIZE: u32 = 4;

/// A served-lookup counter after one more lookup; it wraps around at the top.
pub open spec fn next_count(n: u64) -> u64 {
    if n == u64::MAX {
        0
    } else {
        (n + 1) as u64
    }
}

/// The descriptor describes an array map whose entries are values of `T`.
pub open spec fn describes_array_of<T>(def: bpf_map_def) -> bool {
    &&& def.type_ == BPF_MAP_TYPE_ARRAY
    &&& def.key_size == ARRAY_KEY_SIZE
    &&& def.value_size as nat == size_of::<T>()
}

/// The backing store of one array map: `max_entries` slots, each either
/// written or not yet written.
///
/// Every index at or past the capacity, and every slot not yet written, is
/// absent: a lookup there finds nothing.
pub struct ArrayStorage<T> {
    def: bpf_map_def,
    slots: Vec<Option<T>>,
    lookups: u64,
}

impl<T> View for ArrayStorage<T> {
    /// The written entries, by index.
    type V = Map<u32, T>;

    closed spec fn view(&self) -> Map<u32, T> {
        Map::new(
            |i: u32| (i as int) < self.slots@.len() && self.slots@[i as int] is Some,
            |i: u32| self.slots@[i as int]->Some_0,
        )
    }
}

impl<T> ArrayStorage<T> {
    /// The descriptor that this store was created from.
    pub closed spec fn spec_def(&self) -> bpf_map_def {
        self.def
    }

    /// How many lookups this store has served, modulo 2^64.
    pub closed spec fn spec_lookups(&self) -> u64 {
        self.lookups
    }

    pub closed spec fn wf(&self) -> bool {
        self.slots@.len() == self.def.max_entries
    }

    /// Creates the store for a descriptor, with every slot empty; `None` where
    /// the descriptor does not describe an array map of `T`.
    pub fn create(def: &bpf_map_def) -> (r: Option<Self>)
        ensures
            r is Some <==> describes_array_of::<T>(*def),
            r matches Some(s) ==> {
                &&& s.wf()
                &&& s.spec_def() == *def
                &&& s@ == Map::<u32, T>::empty()
                &&& s.spec_lookups() == 0
            },
    {
        if def.type_ != BPF_MAP_TYPE_ARRAY || def.key_size != ARRAY_KEY_SIZE
            || def.value_size as usize != core::mem::size_of::<T>() {
            return None;
        }
        let mut slots: Vec<Option<T>> = Vec::new();
        let mut n: u32 = 0;
        while n < def.max_entries
            invariant
                n <= def.max_entries,
                slots@.len() == n,
                forall|j: int| 0 <= j < n ==> slots@[j] is None,
            decreases def.max_entries - n,
        {
            slots.push(None);
            n = n + 1;
        }
        let s = ArrayStorage { def: *def, slots, lookups: 0 };
        assert(s@ =~= Map::<u32, T>::empty());
        Some(s)
    }

    /// The descriptor that this store was created from.
    pub fn def(&self) -> (r: bpf_map_def)
        ensures
            r == self.spec_def(),
    {
        self.def
    }

    /// How many lookups this store has served, modulo 2^64.
    pub fn lookups(&self) -> (r: u64)
        ensures
            r == self.spec_lookups(),
    {
        self.lookups
    }

    /// Writes `value` at `index`, from outside the program that reads the map;
    /// `false`, and nothing written, where `index` is past the capacity.
    pub fn write(&mut self, index: u32, value: T) -> (ok: bool)
        requires
            old(self).wf(),
        ensures
            final(self).wf(),
            ok == (index < old(self).spec_def().max_entries),
            ok ==> final(self)@ == old(self)@.insert(index, value),
            !ok ==> final(self)@ == old(self)@,
            final(self).spec_def() == old(self).spec_def(),
            final(self).spec_lookups() == old(self).spec_lookups(),
    {
        if index >= self.def.max_entries {
            return false;
        }
        self.slots[index as usize] = Some(value);
        assert(self@ =~= old(self)@.insert(index, value));
        true
    }

    /// Serves one lookup: the entry that `key`, four little-endian bytes of an
    /// index, selects in the map `map`; `None` where `map` is not the map this
    /// store backs, where the key is not four bytes long, or where the entry is
    /// absent.
    pub fn raw_lookup(&mut self, map: &bpf_map_def, key: &[u8]) -> (r: Option<&T>)
        requires
            old(self).wf(),
        ensures
            final(self).wf(),
            final(self)@ == old(self)@,
            final(self).spec_def() == old(self).spec_def(),
            final(self).spec_lookups() == next_count(old(self).spec_lookups()),
            r == (if *map == old(self).spec_def() && key@.len() == 4 && old(self)@.contains_key(
                spec_u32_from_le_bytes(key@),
            ) {
                Some(&old(self)@[spec_u32_from_le_bytes(key@)])
            } else {
                None
            }),
    {
        self.lookups = self.lookups.wrapping_add(1);
        if *map != self.def || key.len() != 4 {
            return None;
        }
        let index = u32_from_le_bytes(key);
        if index >= self.def.max_entries {
            return None;
        }
        self.slots[index as usize].as_ref()
    }
}

} // verus!
