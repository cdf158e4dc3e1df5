use vstd::prelude::*;
use crate::layer2::{Layer2Cache, Layer2Data, Layer2Descriptor, Persistable};

verus! {

/// Why a byte blob could not be loaded.
#[derive(Clone, Copy, Debug, PartialEq, Eq, Structural)]
pub enum BlobError {
    /// Its location holds nothing.
    Missing,
}

/// Copies a byte sequence.
fn copy_bytes(b: &Vec<u8>) -> (r: Vec<u8>)
    ensures
        r@ == b@,
{
    let mut r: Vec<u8> = Vec::with_capacity(b.len());
    let mut i: usize = 0;
    while i < b.len()
        invariant
            i <= b@.len(),
            r@ == b@.subrange(0, i as int),
        decreases b@.len() - i,
    {
        r.push(b[i]);
        i = i + 1;
    }
    assert(r@ =~= b@);
    r
}

/// A byte blob is stored as it is: its location holds exactly its bytes.
impl Persistable for Vec<u8> {
    type LoadError = BlobError;
    type StoreError = std::convert::Infallible;

    open spec fn storable(v: Seq<u8>) -> bool {
        true
    }

    open spec fn encode(v: Seq<u8>) -> Option<Seq<u8>> {
        Some(v)
    }

    open spec fn decode(stored: Option<Seq<u8>>) -> Option<Seq<u8>> {
        stored
    }

    proof fn lemma_round_trip(v: Seq<u8>, before: Option<Seq<u8>>) {
    }

    fn load(stored: &Option<Vec<u8>>) -> (r: Result<Vec<u8>, BlobError>) {
        match stored {
            Some(b) => Ok(copy_bytes(b)),
            None => Err(BlobError::Missing),
        }
    }

    fn store(&self) -> (r: Result<Option<Vec<u8>>, std::convert::Infallible>) {
        Ok(Some(copy_bytes(self)))
    }
}

impl Layer2Descriptor for Vec<u8> {

}

impl Layer2Data for Vec<u8> {
    open spec fn empty_view() -> Seq<u8> {
        Seq::empty()
    }

    proof fn lemma_empty_storable() {
    }

    fn empty() -> (r: Vec<u8>) {
        Vec::new()
    }
}

impl Layer2Cache for Vec<u8> {
    open spec fn empty_view() -> Seq<u8> {
        Seq::empty()
    }

    proof fn lemma_empty_storable() {
    }

    fn empty() -> (r: Vec<u8>) {
        Vec::new()
    }
}

} // verus!
