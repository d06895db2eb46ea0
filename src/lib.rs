//! Typed handles over fixed-capacity array maps of the kernel's eBPF subsystem.
//!
//! A handle is a descriptor that the loader reads to create the map, and
//! through which a program looks entries up while it runs. The host's backing
//! store, which serves those lookups, is modelled by `ArrayStorage`.
use vstd::prelude::*;

pub mod array;
pub mod bindings;
pub mod storage;

pub use array::Array;
pub use bindings::{bpf_map_def, PinningType, BPF_MAP_TYPE_ARRAY};
pub use storage::ArrayStorage;

verus! {

} // verus!
