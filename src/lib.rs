//! Persistence of optional layer-2 extensions attached to a wallet.
//!
//! An extension keeps three parts, each under a location of its own: a
//! descriptor (its identity), data (its authoritative state) and a cache
//! (state that can be rebuilt). Loading and storing a part is a pure step
//! from bytes to a value and back; reading and writing the locations is left
//! to the caller.

mod storage;
mod layer2;
mod extension;
mod blob;

pub use storage::{
    bytes_view, lemma_locations_distinct, location, overwrite, part_name, spec_location, Part,
    Snapshot, SnapshotView,
};
pub use layer2::{
    lemma_null_loads_anything, lemma_null_store_untouched, Layer2, Layer2Cache, Layer2Data,
    Layer2Descriptor, NullExtension, Persistable,
};
pub use extension::Extension;
pub use blob::BlobError;
