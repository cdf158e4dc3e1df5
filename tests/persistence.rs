use layer2::{location, BlobError, Extension, Layer2, NullExtension, Part, Persistable, Snapshot};

type Blobs = Extension<Vec<u8>, Vec<u8>, Vec<u8>>;

fn stored(ext: &Blobs) -> Snapshot {
    let mut s = Snapshot::blank();
    s.apply(ext.store().unwrap());
    s
}

#[test]
fn fresh_extension_round_trip() {
    let ext = Blobs::new(b"abc".to_vec());
    let s = stored(&ext);
    let back = Blobs::load(&s).unwrap();
    assert_eq!(back.descriptor, b"abc".to_vec());
    assert!(back.data.is_empty());
    assert!(back.cache.is_empty());
}

#[test]
fn full_extension_round_trip() {
    let ext = Extension { descriptor: vec![1u8, 2, 3], data: vec![4u8, 5], cache: vec![6u8] };
    let s = stored(&ext);
    assert_eq!(s.descriptor, Some(vec![1u8, 2, 3]));
    assert_eq!(s.data, Some(vec![4u8, 5]));
    assert_eq!(s.cache, Some(vec![6u8]));
    let back = Blobs::load(&s).unwrap();
    assert_eq!(back.descriptor, vec![1u8, 2, 3]);
    assert_eq!(back.data, vec![4u8, 5]);
    assert_eq!(back.cache, vec![6u8]);
}

#[test]
fn lost_cache_falls_back_to_empty() {
    let ext = Extension { descriptor: b"abc".to_vec(), data: vec![9u8, 9], cache: vec![7u8] };
    let mut s = stored(&ext);
    s.cache = None;
    let back = Blobs::load(&s).unwrap();
    assert_eq!(back.descriptor, b"abc".to_vec());
    assert_eq!(back.data, vec![9u8, 9]);
    assert!(back.cache.is_empty());
}

#[test]
fn lost_data_fails_the_load() {
    let ext = Blobs::new(b"abc".to_vec());
    let mut s = stored(&ext);
    s.data = None;
    assert_eq!(Blobs::load(&s).err(), Some(BlobError::Missing));
}

#[test]
fn lost_descriptor_fails_the_load() {
    let s = Snapshot { descriptor: None, data: Some(vec![]), cache: Some(vec![]) };
    assert_eq!(Blobs::load(&s).err(), Some(BlobError::Missing));
}

#[test]
fn blob_round_trip() {
    let v = vec![0u8, 255, 17];
    let written = v.store().unwrap();
    assert_eq!(written, Some(vec![0u8, 255, 17]));
    assert_eq!(<Vec<u8> as Persistable>::load(&written).unwrap(), v);
    assert_eq!(<Vec<u8> as Persistable>::load(&None).err(), Some(BlobError::Missing));
}

#[test]
fn null_extension_loads_from_anything() {
    let blank = Snapshot::blank();
    assert!(<NullExtension as Layer2>::load(&blank).is_ok());
    let junk = Snapshot { descriptor: Some(vec![1u8]), data: None, cache: Some(vec![0u8; 3]) };
    assert!(<NullExtension as Layer2>::load(&junk).is_ok());
}

#[test]
fn null_extension_writes_nothing() {
    let writes = <NullExtension as Layer2>::store(&()).unwrap();
    assert_eq!(writes.descriptor, None);
    assert_eq!(writes.data, None);
    assert_eq!(writes.cache, None);
    let mut s = Snapshot { descriptor: Some(vec![5u8]), data: None, cache: Some(vec![6u8]) };
    s.apply(writes);
    assert_eq!(s.descriptor, Some(vec![5u8]));
    assert_eq!(s.data, None);
    assert_eq!(s.cache, Some(vec![6u8]));
}

#[test]
fn apply_overwrites_only_written_parts() {
    let mut s = Snapshot { descriptor: Some(vec![1u8]), data: Some(vec![2u8]), cache: None };
    s.apply(Snapshot { descriptor: None, data: Some(vec![3u8]), cache: Some(vec![4u8]) });
    assert_eq!(s.get(Part::Descriptor), &Some(vec![1u8]));
    assert_eq!(s.get(Part::Data), &Some(vec![3u8]));
    assert_eq!(s.get(Part::Cache), &Some(vec![4u8]));
}

#[test]
fn part_locations() {
    assert_eq!(location("/tmp/ext", Part::Descriptor), "/tmp/ext/descriptor");
    assert_eq!(location("/tmp/ext", Part::Data), "/tmp/ext/data");
    assert_eq!(location("/tmp/ext", Part::Cache), "/tmp/ext/cache");
    assert_eq!(Part::Cache.name(), "cache");
}
