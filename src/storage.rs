use vstd::prelude::*;

verus! {

/// One of the three parts of an extension, each kept under its own location.
#[derive(Clone, Copy, Debug, PartialEq, Eq, Structural)]
pub enum Part {
    Descriptor,
    Data,
    Cache,
}

/// The name of a part's location under an extension's root location.
pub open spec fn part_name(part: Part) -> Seq<char> {
    match part {
        Part::Descriptor => "descriptor"@,
        Part::Data => "data"@,
        Part::Cache => "cache"@,
    }
}

/// The location of `part` under the root location `root`.
pub open spec fn spec_location(root: Seq<char>, part: Part) -> Seq<char> {
    root + "/"@ + part_name(part)
}

impl Part {
    pub fn name(self) -> (r: &'static str)
        ensures
            r@ == part_name(self),
    {
        match self {
            Part::Descriptor => "descriptor",
            Part::Data => "data",
            Part::Cache => "cache",
        }
    }
}

/// The location of `part` under the root location `root`.
pub fn location(root: &str, part: Part) -> (r: String)
    ensures
        r@ == spec_location(root@, part),
{
    let mut r = String::from_str(root);
    r.append("/");
    r.append(part.name());
    r
}

/// Distinct parts never share a location, so damage to one leaves the others'
/// contents alone.
pub proof fn lemma_locations_distinct(root: Seq<char>, p: Part, q: Part)
    requires
        p != q,
    ensures
        spec_location(root, p) != spec_location(root, q),
{
    reveal_strlit("descriptor");
    reveal_strlit("data");
    reveal_strlit("cache");
    assert(spec_location(root, p).len() != spec_location(root, q).len());
}

/// The bytes at one location as a sequence; `None` where it holds nothing.
pub open spec fn bytes_view(b: Option<Vec<u8>>) -> Option<Seq<u8>> {
    match b {
        Some(v) => Some(v@),
        None => None,
    }
}

/// What a location holds after a store that wrote `written` to it, where
/// `None` means that the store left the location alone.
pub open spec fn overwrite(before: Option<Seq<u8>>, written: Option<Seq<u8>>) -> Option<Seq<u8>> {
    match written {
        Some(b) => Some(b),
        None => before,
    }
}

/// The contents of an extension's three locations. As what a store hands
/// back, a `None` part is one that the store leaves untouched.
#[derive(Clone, Debug)]
pub struct Snapshot {
    pub descriptor: Option<Vec<u8>>,
    pub data: Option<Vec<u8>>,
    pub cache: Option<Vec<u8>>,
}

/// The contents of an extension's three locations, as sequences of bytes.
pub struct SnapshotView {
    pub descriptor: Option<Seq<u8>>,
    pub data: Option<Seq<u8>>,
    pub cache: Option<Seq<u8>>,
}

impl SnapshotView {
    /// Three locations that hold nothing; as writes, a store that touches none.
    pub open spec fn blank() -> SnapshotView {
        SnapshotView { descriptor: None, data: None, cache: None }
    }

    pub open spec fn get(self, part: Part) -> Option<Seq<u8>> {
        match part {
            Part::Descriptor => self.descriptor,
            Part::Data => self.data,
            Part::Cache => self.cache,
        }
    }

    /// The contents after `writes` are carried out over `self`.
    pub open spec fn overwritten(self, writes: SnapshotView) -> SnapshotView {
        SnapshotView {
            descriptor: overwrite(self.descriptor, writes.descriptor),
            data: overwrite(self.data, writes.data),
            cache: overwrite(self.cache, writes.cache),
        }
    }
}

impl View for Snapshot {
    type V = SnapshotView;

    open spec fn view(&self) -> SnapshotView {
        SnapshotView {
            descriptor: bytes_view(self.descriptor),
            data: bytes_view(self.data),
            cache: bytes_view(self.cache),
        }
    }
}

impl Snapshot {
    /// Three locations that hold nothing.
    pub fn blank() -> (r: Snapshot)
        ensures
            r@ == SnapshotView::blank(),
    {
        Snapshot { descriptor: None, data: None, cache: None }
    }

    /// What the location of `part` holds.
    pub fn get(&self, part: Part) -> (r: &Option<Vec<u8>>)
        ensures
            bytes_view(*r) == self@.get(part),
    {
        match part {
            Part::Descriptor => &self.descriptor,
            Part::Data => &self.data,
            Part::Cache => &self.cache,
        }
    }

    /// Carries out the writes of a store over these contents.
    pub fn apply(&mut self, writes: Snapshot)
        ensures
            final(self)@ == old(self)@.overwritten(writes@),
    {
        if let Some(b) = writes.descriptor {
            self.descriptor = Some(b);
        }
        if let Some(b) = writes.data {
            self.data = Some(b);
        }
        if let Some(b) = writes.cache {
            self.cache = Some(b);
        }
    }
}

} // verus!
