use vstd::prelude::*;
use crate::layer2::{Layer2, Layer2Cache, Layer2Data, Layer2Descriptor, Persistable};
use crate::storage::{Snapshot, SnapshotView};

verus! {

/// An extension made of one descriptor, one data and one cache, which all
/// report failures with one pair of error kinds.
///
/// Loading fails when the descriptor or the data fails to load; a cache that
/// fails to load is rebuilt from its empty value instead, since it holds
/// nothing that cannot be recomputed.
#[derive(Clone, Debug)]
pub struct Extension<D, A, C> {
    pub descriptor: D,
    pub data: A,
    pub cache: C,
}

impl<D: View, A: View, C: View> View for Extension<D, A, C> {
    type V = (D::V, A::V, C::V);

    open spec fn view(&self) -> (D::V, A::V, C::V) {
        (self.descriptor@, self.data@, self.cache@)
    }
}

impl<D, A, C> Extension<D, A, C> where
    D: Layer2Descriptor,
    A: Layer2Data<LoadError = D::LoadError, StoreError = D::StoreError>,
    C: Layer2Cache<LoadError = D::LoadError, StoreError = D::StoreError>,
 {
    /// A freshly attached extension: the given descriptor, with empty data
    /// and an empty cache.
    pub fn new(descriptor: D) -> (r: Self)
        ensures
            r@ == (descriptor@, A::empty_view(), C::empty_view()),
    {
        Extension { descriptor, data: A::empty(), cache: C::empty() }
    }

    /// The cache that the contents of the cache's location give: what they
    /// load as, or the empty cache where they do not load.
    pub open spec fn cache_or_empty(stored: Option<Seq<u8>>) -> C::V {
        match C::decode(stored) {
            Some(c) => c,
            None => C::empty_view(),
        }
    }

    /// A freshly attached extension that was stored and loaded back has its
    /// descriptor, empty data and an empty cache.
    pub proof fn lemma_fresh_round_trip(d: D::V, before: SnapshotView)
        requires
            D::storable(d),
        ensures
            Self::decode(before.overwritten(Self::encode((d, A::empty_view(), C::empty_view()))))
                == Some((d, A::empty_view(), C::empty_view())),
    {
        A::lemma_empty_storable();
        C::lemma_empty_storable();
        Self::lemma_round_trip((d, A::empty_view(), C::empty_view()), before);
    }

    /// Whatever the cache's location holds, the descriptor and data load as
    /// they would without it, and a cache that does not load falls back to
    /// the empty cache rather than failing the whole load.
    pub proof fn lemma_cache_damage_isolated(stored: SnapshotView, cache: Option<Seq<u8>>)
        ensures
            ({
                let damaged = SnapshotView { cache, ..stored };
                &&& Self::decode(damaged) is Some <==> (D::decode(stored.descriptor) is Some
                    && A::decode(stored.data) is Some)
                &&& Self::decode(damaged) is Some ==> Self::decode(damaged) == Some(
                    (
                        D::decode(stored.descriptor)->Some_0,
                        A::decode(stored.data)->Some_0,
                        Self::cache_or_empty(cache),
                    ),
                )
                &&& C::decode(cache) is None && Self::decode(damaged) is Some ==> Self::decode(
                    damaged,
                )->Some_0.2 == C::empty_view()
            }),
    {
    }
}

impl<D, A, C> Layer2 for Extension<D, A, C> where
    D: Layer2Descriptor,
    A: Layer2Data<LoadError = D::LoadError, StoreError = D::StoreError>,
    C: Layer2Cache<LoadError = D::LoadError, StoreError = D::StoreError>,
 {
    type Descr = D;
    type Data = A;
    type Cache = C;
    type LoadError = D::LoadError;
    type StoreError = D::StoreError;

    open spec fn storable(v: (D::V, A::V, C::V)) -> bool {
        D::storable(v.0) && A::storable(v.1) && C::storable(v.2)
    }

    open spec fn encode(v: (D::V, A::V, C::V)) -> SnapshotView {
        SnapshotView { descriptor: D::encode(v.0), data: A::encode(v.1), cache: C::encode(v.2) }
    }

    open spec fn decode(stored: SnapshotView) -> Option<(D::V, A::V, C::V)> {
        match (D::decode(stored.descriptor), A::decode(stored.data)) {
            (Some(d), Some(a)) => Some((d, a, Self::cache_or_empty(stored.cache))),
            _ => None,
        }
    }

    proof fn lemma_round_trip(v: (D::V, A::V, C::V), before: SnapshotView) {
        D::lemma_round_trip(v.0, before.descriptor);
        A::lemma_round_trip(v.1, before.data);
        C::lemma_round_trip(v.2, before.cache);
    }

    fn load(stored: &Snapshot) -> (r: Result<Self, D::LoadError>) {
        let descriptor = match D::load(&stored.descriptor) {
            Ok(d) => d,
            Err(e) => return Err(e),
        };
        let data = match A::load(&stored.data) {
            Ok(a) => a,
            Err(e) => return Err(e),
        };
        let cache = match C::load(&stored.cache) {
            Ok(c) => c,
            Err(_) => C::empty(),
        };
        Ok(Extension { descriptor, data, cache })
    }

    fn store(&self) -> (r: Result<Snapshot, D::StoreError>) {
        let descriptor = match self.descriptor.store() {
            Ok(b) => b,
            Err(e) => return Err(e),
        };
        let data = match self.data.store() {
            Ok(b) => b,
            Err(e) => return Err(e),
        };
        let cache = match self.cache.store() {
            Ok(b) => b,
            Err(e) => return Err(e),
        };
        Ok(Snapshot { descriptor, data, cache })
    }
}

} // verus!
