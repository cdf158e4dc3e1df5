use vstd::prelude::*;
use crate::storage::{bytes_view, overwrite, Snapshot, SnapshotView};

verus! {

/// A value that can be stored at a location and loaded back from it.
///
/// Storing turns the value into the bytes to write (or into nothing to
/// write); loading turns a location's contents back into a value. Both are
/// fixed by the three spec functions below, and `lemma_round_trip` ties them
/// together.
pub trait Persistable: Sized + View {
    /// Why a location's contents could not be loaded: missing, malformed or
    /// of another schema.
    type LoadError;

    /// Why a value could not be serialised.
    type StoreError;

    /// Whether a value can be serialised.
    spec fn storable(v: Self::V) -> bool;

    /// What storing a value writes to its location; `None` writes nothing.
    spec fn encode(v: Self::V) -> Option<Seq<u8>>;

    /// The value that a location's contents load as, if they load at all.
    spec fn decode(stored: Option<Seq<u8>>) -> Option<Self::V>;

    /// Loading what a successful store left at a location gives back the
    /// stored value, whatever the location held before.
    proof fn lemma_round_trip(v: Self::V, before: Option<Seq<u8>>)
        requires
            Self::storable(v),
        ensures
            Self::decode(overwrite(before, Self::encode(v))) == Some(v),
    ;

    /// Loads a value from the contents of its location.
    fn load(stored: &Option<Vec<u8>>) -> (r: Result<Self, Self::LoadError>)
        ensures
            match Self::decode(bytes_view(*stored)) {
                Some(v) => r is Ok && r->Ok_0@ == v,
                None => r is Err,
            },
    ;

    /// Serialises the value into what its location is to hold.
    fn store(&self) -> (r: Result<Option<Vec<u8>>, Self::StoreError>)
        ensures
            r is Ok <==> Self::storable(self@),
            r is Ok ==> bytes_view(r->Ok_0) == Self::encode(self@),
    ;
}

/// The static configuration that identifies an extension.
pub trait Layer2Descriptor: Persistable {

}

/// The authoritative, mutable state of an extension.
pub trait Layer2Data: Persistable {
    /// The state of a freshly attached extension.
    spec fn empty_view() -> Self::V;

    /// The empty value is a valid starting state: it can be stored.
    proof fn lemma_empty_storable()
        ensures
            Self::storable(Self::empty_view()),
    ;

    fn empty() -> (r: Self)
        ensures
            r@ == Self::empty_view(),
    ;
}

/// State of an extension that can be rebuilt from its data.
pub trait Layer2Cache: Persistable {
    /// The cache of a freshly attached extension, and the one a cache that
    /// does not load falls back to.
    spec fn empty_view() -> Self::V;

    /// The empty value is a valid starting state: it can be stored.
    proof fn lemma_empty_storable()
        ensures
            Self::storable(Self::empty_view()),
    ;

    fn empty() -> (r: Self)
        ensures
            r@ == Self::empty_view(),
    ;
}

/// A layer-2 extension: a descriptor, data and a cache that share one pair
/// of error kinds, each kept at its own location.
pub trait Layer2: Sized + View {
    type Descr: Layer2Descriptor<LoadError = Self::LoadError, StoreError = Self::StoreError>;
    type Data: Layer2Data<LoadError = Self::LoadError, StoreError = Self::StoreError>;
    type Cache: Layer2Cache<LoadError = Self::LoadError, StoreError = Self::StoreError>;
    type LoadError;
    type StoreError;

    /// Whether an extension can be serialised.
    spec fn storable(v: Self::V) -> bool;

    /// What storing an extension writes to its three locations.
    spec fn encode(v: Self::V) -> SnapshotView;

    /// The extension that three locations' contents load as, if any.
    spec fn decode(stored: SnapshotView) -> Option<Self::V>;

    /// Loading what a successful store left behind gives back the stored
    /// extension, whatever the locations held before.
    proof fn lemma_round_trip(v: Self::V, before: SnapshotView)
        requires
            Self::storable(v),
        ensures
            Self::decode(before.overwritten(Self::encode(v))) == Some(v),
    ;

    /// Loads an extension from the contents of its three locations.
    fn load(stored: &Snapshot) -> (r: Result<Self, Self::LoadError>)
        ensures
            match Self::decode(stored@) {
                Some(v) => r is Ok && r->Ok_0@ == v,
                None => r is Err,
            },
    ;

    /// Serialises the extension into the writes to its three locations.
    fn store(&self) -> (r: Result<Snapshot, Self::StoreError>)
        ensures
            r is Ok <==> Self::storable(self@),
            r is Ok ==> r->Ok_0@ == Self::encode(self@),
    ;
}

/// The extension of a wallet that has none.
pub type NullExtension = ();

impl Persistable for () {
    type LoadError = std::convert::Infallible;
    type StoreError = std::convert::Infallible;

    open spec fn storable(v: ()) -> bool {
        true
    }

    open spec fn encode(v: ()) -> Option<Seq<u8>> {
        None
    }

    open spec fn decode(stored: Option<Seq<u8>>) -> Option<()> {
        Some(())
    }

    proof fn lemma_round_trip(v: (), before: Option<Seq<u8>>) {
    }

    fn load(stored: &Option<Vec<u8>>) -> (r: Result<(), std::convert::Infallible>) {
        Ok(())
    }

    fn store(&self) -> (r: Result<Option<Vec<u8>>, std::convert::Infallible>) {
        Ok(None)
    }
}

impl Layer2Descriptor for () {

}

impl Layer2Data for () {
    open spec fn empty_view() -> () {
        ()
    }

    proof fn lemma_empty_storable() {
    }

    fn empty() -> (r: ()) {
        ()
    }
}

impl Layer2Cache for () {
    open spec fn empty_view() -> () {
        ()
    }

    proof fn lemma_empty_storable() {
    }

    fn empty() -> (r: ()) {
        ()
    }
}

impl Layer2 for () {
    type Descr = ();
    type Data = ();
    type Cache = ();
    type LoadError = std::convert::Infallible;
    type StoreError = std::convert::Infallible;

    open spec fn storable(v: ()) -> bool {
        true
    }

    open spec fn encode(v: ()) -> SnapshotView {
        SnapshotView::blank()
    }

    open spec fn decode(stored: SnapshotView) -> Option<()> {
        Some(())
    }

    proof fn lemma_round_trip(v: (), before: SnapshotView) {
        assert(before.overwritten(SnapshotView::blank()) == before);
    }

    fn load(stored: &Snapshot) -> (r: Result<(), std::convert::Infallible>) {
        Ok(())
    }

    fn store(&self) -> (r: Result<Snapshot, std::convert::Infallible>) {
        Ok(Snapshot::blank())
    }
}

/// The null extension loads from whatever its locations hold, present,
/// missing or malformed, and loads as the empty value.
pub proof fn lemma_null_loads_anything(stored: SnapshotView)
    ensures
        <NullExtension as Layer2>::decode(stored) == Some(()),
{
}

/// Storing the null extension always succeeds and leaves every location as it
/// was.
pub proof fn lemma_null_store_untouched(before: SnapshotView)
    ensures
        <NullExtension as Layer2>::storable(()),
        before.overwritten(<NullExtension as Layer2>::encode(())) == before,
{
}

} // verus!
