//! The map descriptor record that the loader reads, and its binary layout.
use vstd::bytes::{lemma_auto_spec_u32_to_from_le_bytes, spec_u32_to_le_bytes, u32_to_le_bytes};
use vstd::prelude::*;

verus! {

/// The kernel's identifier of the array map kind, as numbered in its map-type
/// enumeration.
pub const BPF_MAP_TYPE_ARRAY: u32 = 2;

/// Number of bytes in the loader's descriptor record: seven 32-bit fields.
pub const BPF_MAP_DEF_SIZE: usize = 28;

/// Whether the loader persists a map under its declared name across reloads.
#[derive(Clone, Copy, Debug, PartialEq, Eq, Structural)]
pub enum PinningType {
    Unpinned,
    ByName,
}

impl PinningType {
    /// The number by which the loader knows this pinning mode.
    pub open spec fn spec_code(self) -> u32 {
        match self {
            PinningType::Unpinned => 0,
            PinningType::ByName => 1,
        }
    }

    pub fn code(self) -> (r: u32)
        ensures
            r == self.spec_code(),
    {
        match self {
            PinningType::Unpinned => 0,
            PinningType::ByName => 1,
        }
    }
}

/// The descriptor record of one map, as the loader reads it.
///
/// `id` is reserved: it is zero when the record is built and only the loader
/// ever fills it in.
#[allow(non_camel_case_types)]
#[derive(Clone, Copy, Debug, PartialEq, Eq, Structural)]
pub struct bpf_map_def {
    pub type_: u32,
    pub key_size: u32,
    pub value_size: u32,
    pub max_entries: u32,
    pub map_flags: u32,
    pub id: u32,
    pub pinning: u32,
}

impl bpf_map_def {
    /// The record's bytes: each field in turn, four little-endian bytes each,
    /// with no padding.
    pub open spec fn spec_bytes(self) -> Seq<u8> {
        spec_u32_to_le_bytes(self.type_) + spec_u32_to_le_bytes(self.key_size)
            + spec_u32_to_le_bytes(self.value_size) + spec_u32_to_le_bytes(self.max_entries)
            + spec_u32_to_le_bytes(self.map_flags) + spec_u32_to_le_bytes(self.id)
            + spec_u32_to_le_bytes(self.pinning)
    }

    /// Lays the record out in the byte form that the loader parses.
    pub fn to_bytes(&self) -> (r: Vec<u8>)
        ensures
            r@ == self.spec_bytes(),
            r@.len() == BPF_MAP_DEF_SIZE,
    {
        proof {
            lemma_auto_spec_u32_to_from_le_bytes();
        }
        let mut out = u32_to_le_bytes(self.type_);
        out.append(&mut u32_to_le_bytes(self.key_size));
        out.append(&mut u32_to_le_bytes(self.value_size));
        out.append(&mut u32_to_le_bytes(self.max_entries));
        out.append(&mut u32_to_le_bytes(self.map_flags));
        out.append(&mut u32_to_le_bytes(self.id));
        out.append(&mut u32_to_le_bytes(self.pinning));
        out
    }
}

} // verus!
