//! Decoder and validator for the IGVM parameter area that a loader places in
//! guest memory before a confidential guest starts.
//!
//! The area is a header (the parameter block), a secondary header (the
//! parameter page) and a one-page table of memory-map entries. Everything is
//! decoded from a borrowed byte image; the queries of [`IgvmParams`] are pure
//! functions of the decoded values.

pub mod defs;
pub mod error;
pub mod layout;
pub mod le;
pub mod memory_map;
pub mod params;
pub mod region;

pub use error::SvsmError;
pub use layout::{IgvmMemoryMapEntry, IgvmParamBlock, IgvmParamPage};
pub use params::{IgvmMemoryMap, IgvmParams, IGVM_MEMORY_ENTRIES_PER_PAGE};
pub use region::{MemoryRegion, PAGE_SIZE};
