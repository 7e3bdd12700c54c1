//! Trusted boundary around the storage crates: type declarations for the
//! backend writer, its path and chunk types, and wrappers for the calls the
//! adapter makes. Everything verified about the adapter rests on the
//! contracts stated here, which follow the storage crates' own sources.

use vstd::prelude::*;

verus! {

#[verifier::external_type_specification]
#[verifier::external_body]
pub struct ExBufWriter(object_store::buffered::BufWriter);

#[verifier::external_type_specification]
#[verifier::external_body]
pub struct ExPath(object_store::path::Path);

#[verifier::external_type_specification]
#[verifier::external_body]
pub struct ExStoreError(object_store::Error);

#[verifier::external_type_specification]
#[verifier::external_body]
pub struct ExBytes(bytes::Bytes);

#[verifier::external_type_specification]
#[verifier::external_body]
pub struct ExRuntime(tokio::runtime::Runtime);

/// Relies on tokio::runtime::Builder: builds a single-threaded runtime for
/// the adapter to drive the storage writer's asynchronous operations and
/// background part-uploads on. Which runtime comes back does not matter to
/// any contract, so nothing is stated of it; the build fails (and this call
/// panics) only when the operating system refuses the resources a runtime
/// needs.
#[verifier::external_body]
pub(crate) fn make_runtime() -> tokio::runtime::Runtime {
    tokio::runtime::Builder::new_current_thread()
        .enable_all()
        .build()
        .expect("the runtime for the storage writer could not be built")
}

/// A shared handle to an object store backend, held only to be handed on to
/// the buffered writer at construction. Its field is a reference-counted
/// trait object of object_store::ObjectStore, a shape Verus cannot be told
/// about directly, so the struct is opaque and nothing is stated of it.
#[verifier::external_body]
pub struct StoreHandle {
    store: std::sync::Arc<dyn object_store::ObjectStore>,
}

impl StoreHandle {
    /// Relies only on reference-counted pointer coercion: wraps a handle to
    /// any object store backend, performing no I/O.
    #[verifier::external_body]
    pub fn from_store<S: object_store::ObjectStore>(store: std::sync::Arc<S>) -> StoreHandle {
        StoreHandle { store }
    }
}

/// Relies on object_store::buffered::BufWriter::new: the new writer is bound
/// to `path` in the wrapped store, starts with an empty buffer, and has
/// committed nothing; it performs no I/O.
#[verifier::external_body]
pub(crate) fn buf_new(
    store: StoreHandle,
    path: object_store::path::Path,
) -> (w: object_store::buffered::BufWriter)
    ensures
        buf_open(w),
        buf_contents(w) == Seq::<u8>::empty(),
        buf_committed(w) is None,
{
    object_store::buffered::BufWriter::new(store.store, path)
}

/// The bytes a chunk holds.
pub uninterp spec fn bytes_data(b: bytes::Bytes) -> Seq<u8>;

/// The bytes the buffered writer has accepted so far, in order: the content
/// of the object it will commit.
pub uninterp spec fn buf_contents(w: object_store::buffered::BufWriter) -> Seq<u8>;

/// The content of the object this writer has durably committed to its
/// backend, or `None` while it has committed nothing.
pub uninterp spec fn buf_committed(w: object_store::buffered::BufWriter) -> Option<Seq<u8>>;

/// Whether the writer still accepts chunks: it has not been shut down, nor
/// begun shutting down.
pub uninterp spec fn buf_open(w: object_store::buffered::BufWriter) -> bool;

/// Relies on object_store::buffered::BufWriter::put, driven to completion on
/// the given runtime: on success the chunk's bytes are appended, in order,
/// to what the writer has accepted. Whatever the outcome, the call commits
/// nothing to the backend, and a writer that was open stays open. On failure
/// the writer's buffered content is left in a state its source does not pin
/// down, so nothing is said of it.
#[verifier::external_body]
pub(crate) fn buf_put(
    rt: &tokio::runtime::Runtime,
    w: &mut object_store::buffered::BufWriter,
    bytes: bytes::Bytes,
) -> (r: Result<(), object_store::Error>)
    requires
        buf_open(*old(w)),
    ensures
        buf_open(*final(w)),
        buf_committed(*final(w)) == buf_committed(*old(w)),
        r is Ok ==> buf_contents(*final(w)) == buf_contents(*old(w)) + bytes_data(bytes),
{
    rt.block_on(w.put(bytes))
}

/// Relies on tokio::io::AsyncWriteExt::shutdown on the buffered writer,
/// driven to completion on the given runtime: it flushes what the writer
/// has accepted and commits it as one object. On success the committed
/// object holds exactly the accepted bytes; on failure the object's state is
/// the backend's business and nothing is said of it. Either way the writer
/// is shut down and accepts no further chunk.
#[verifier::external_body]
pub(crate) fn buf_shutdown(
    rt: &tokio::runtime::Runtime,
    w: &mut object_store::buffered::BufWriter,
) -> (r: Result<(), std::io::Error>)
    requires
        buf_open(*old(w)),
    ensures
        !buf_open(*final(w)),
        r is Ok ==> buf_committed(*final(w)) == Some(buf_contents(*old(w))),
{
    rt.block_on(tokio::io::AsyncWriteExt::shutdown(w))
}

} // verus!
