//! Scenario tests for the object-writer adapter against an in-memory
//! backend: round trips, chunk order, construction determinism, and the
//! behaviour of unwrap and of an empty stream.

use std::sync::Arc;

use bytes::Bytes;
use object_store::ObjectStore;
use object_store::ObjectStoreExt;
use object_store::memory::InMemory;
use object_store::path::Path;

use parquet_object_writer::ParquetObjectWriter;
use parquet_object_writer::StoreHandle;

fn read_back(store: &InMemory, path: &str) -> Vec<u8> {
    futures::executor::block_on(async {
        store
            .get(&Path::from(path))
            .await
            .expect("object should exist")
            .bytes()
            .await
            .expect("object should be readable")
            .to_vec()
    })
}

fn object_exists(store: &InMemory, path: &str) -> bool {
    futures::executor::block_on(store.get(&Path::from(path))).is_ok()
}

#[test]
fn test_write_then_complete_reads_back() {
    let store = Arc::new(InMemory::new());

    let mut writer =
        ParquetObjectWriter::new(StoreHandle::from_store(store.clone()), Path::from("test"));
    writer.write(Bytes::from_static(b"abc")).unwrap();
    writer.write(Bytes::from_static(b"def")).unwrap();
    writer.complete().unwrap();

    assert_eq!(read_back(&store, "test"), b"abcdef".to_vec());
}

#[test]
fn test_unwrap_after_construction_commits_nothing() {
    let store = Arc::new(InMemory::new());

    let writer =
        ParquetObjectWriter::new(StoreHandle::from_store(store.clone()), Path::from("test"));
    let inner = writer.into_inner();

    assert!(!object_exists(&store, "test"));

    // The writer handed back is the inner one, unchanged and still usable.
    let mut writer = ParquetObjectWriter::from_buf_writer(inner);
    writer.write(Bytes::from_static(b"later")).unwrap();
    writer.complete().unwrap();
    assert_eq!(read_back(&store, "test"), b"later".to_vec());
}

#[test]
fn test_unwrap_preserves_pending_chunks() {
    let store = Arc::new(InMemory::new());

    let mut writer =
        ParquetObjectWriter::new(StoreHandle::from_store(store.clone()), Path::from("kept"));
    writer.write(Bytes::from_static(b"first")).unwrap();
    let inner = writer.into_inner();

    // Nothing is committed by unwrap, and what was appended is still held.
    assert!(!object_exists(&store, "kept"));
    let mut writer = ParquetObjectWriter::from_buf_writer(inner);
    writer.write(Bytes::from_static(b"-second")).unwrap();
    writer.complete().unwrap();
    assert_eq!(read_back(&store, "kept"), b"first-second".to_vec());
}

#[test]
fn test_from_buf_writer_small_capacity_keeps_order() {
    let store = Arc::new(InMemory::new());
    let dyn_store: Arc<dyn ObjectStore> = store.clone();

    // A capacity this small pushes the storage writer onto its streaming
    // path after the first few chunks; the committed bytes must still be
    // the chunks in append order.
    let buf = object_store::buffered::BufWriter::with_capacity(dyn_store, Path::from("multi"), 4);
    let mut writer = ParquetObjectWriter::from_buf_writer(buf);
    writer.write(Bytes::from_static(b"one")).unwrap();
    writer.write(Bytes::from_static(b"two")).unwrap();
    writer.write(Bytes::from_static(b"three")).unwrap();
    writer.complete().unwrap();

    assert_eq!(read_back(&store, "multi"), b"onetwothree".to_vec());
}

#[test]
fn test_construction_determinism() {
    let chunks: [&'static [u8]; 3] = [b"pages", b", ", b"footer"];

    let mut committed: Vec<Vec<u8>> = Vec::new();
    for _ in 0..2 {
        let store = Arc::new(InMemory::new());
        let mut writer =
            ParquetObjectWriter::new(StoreHandle::from_store(store.clone()), Path::from("test"));
        for chunk in chunks {
            writer.write(Bytes::from_static(chunk)).unwrap();
        }
        writer.complete().unwrap();
        committed.push(read_back(&store, "test"));
    }

    assert_eq!(committed[0], committed[1]);
    assert_eq!(committed[0], b"pages, footer".to_vec());
}

#[test]
fn test_complete_without_appends_commits_empty_object() {
    let store = Arc::new(InMemory::new());

    let mut writer =
        ParquetObjectWriter::new(StoreHandle::from_store(store.clone()), Path::from("empty"));
    writer.complete().unwrap();

    assert_eq!(read_back(&store, "empty"), Vec::<u8>::new());
}

#[test]
fn test_single_chunk_is_committed_unchanged() {
    let store = Arc::new(InMemory::new());

    let payload: Vec<u8> = (0..=255u8).collect();
    let mut writer =
        ParquetObjectWriter::new(StoreHandle::from_store(store.clone()), Path::from("one"));
    writer.write(Bytes::copy_from_slice(&payload)).unwrap();
    writer.complete().unwrap();

    assert_eq!(read_back(&store, "one"), payload);
}
