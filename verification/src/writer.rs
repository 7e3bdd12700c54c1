//! The object-writer adapter: it owns one buffered storage writer bound to
//! one destination path, forwards byte chunks to it in order, and commits
//! the object when asked to finalize.

use vstd::prelude::*;

use crate::backend::buf_committed;
use crate::backend::buf_contents;
use crate::backend::buf_new;
use crate::backend::buf_open;
use crate::backend::buf_put;
use crate::backend::buf_shutdown;
use crate::backend::bytes_data;
use crate::backend::make_runtime;
use crate::errors::BackendCause;
use crate::errors::ParquetError;

verus! {

/// Concatenation of a sequence of byte chunks, in order.
pub open spec fn concat_chunks(chunks: Seq<Seq<u8>>) -> Seq<u8>
    decreases chunks.len(),
{
    if chunks.len() == 0 {
        Seq::<u8>::empty()
    } else {
        concat_chunks(chunks.drop_last()) + chunks.last()
    }
}

/// The content an adapter holds after forwarding `chunks` one at a time, in
/// order, onto content `init`: exactly what `write`'s contract gives for
/// each successful append, applied once per chunk.
pub open spec fn appended_in_order(init: Seq<u8>, chunks: Seq<Seq<u8>>) -> Seq<u8>
    decreases chunks.len(),
{
    if chunks.len() == 0 {
        init
    } else {
        appended_in_order(init, chunks.drop_last()) + chunks.last()
    }
}

/// Writes a stream of byte chunks to an object store path through a
/// buffered storage writer that it exclusively owns.
///
/// Lifecycle: while the adapter is open, `write` forwards chunks in call
/// order; `complete` flushes and commits them as one object and closes the
/// adapter. A closed adapter accepts no further operation, and the adapter
/// itself never retries, reorders or drops a chunk.
///
/// The storage writer's operations are asynchronous; the adapter drives
/// them, and the part-uploads they start, on a single-threaded runtime of
/// its own, so every operation returns only once the inner writer has
/// resolved it.
pub struct ParquetObjectWriter {
    w: object_store::buffered::BufWriter,
    rt: tokio::runtime::Runtime,
}

impl ParquetObjectWriter {
    /// The bytes the inner writer has accepted so far, in order: the content
    /// of the object a successful finalize will commit.
    pub closed spec fn contents(self) -> Seq<u8> {
        buf_contents(self.w)
    }

    /// The content of the object committed to the backend through this
    /// adapter's writer, or `None` while nothing has been committed.
    pub closed spec fn committed(self) -> Option<Seq<u8>> {
        buf_committed(self.w)
    }

    /// Whether the adapter still accepts operations: finalize has not begun.
    pub closed spec fn is_open(self) -> bool {
        buf_open(self.w)
    }

    /// Create a new adapter that writes to `path` in the given store, with
    /// the storage writer's default batching parameters. Performs no I/O and
    /// always succeeds: the adapter starts open, holding no bytes, with
    /// nothing committed.
    pub fn new(store: crate::backend::StoreHandle, path: object_store::path::Path) -> (r: Self)
        ensures
            r.is_open(),
            r.contents() == Seq::<u8>::empty(),
            r.committed() is None,
    {
        Self::from_buf_writer(buf_new(store, path))
    }

    /// Wrap an already-configured buffered storage writer as-is, so a caller
    /// can pick its own batching, part-size or concurrency policy first.
    /// Performs no I/O and always succeeds.
    pub fn from_buf_writer(w: object_store::buffered::BufWriter) -> (r: Self)
        ensures
            r.is_open() == buf_open(w),
            r.contents() == buf_contents(w),
            r.committed() == buf_committed(w),
    {
        ParquetObjectWriter { w, rt: make_runtime() }
    }

    /// Consume the adapter and hand back its inner buffered storage writer,
    /// unchanged, for inspection or reuse. Performs no I/O and always
    /// succeeds.
    pub fn into_inner(self) -> (w: object_store::buffered::BufWriter)
        ensures
            buf_open(w) == self.is_open(),
            buf_contents(w) == self.contents(),
            buf_committed(w) == self.committed(),
    {
        self.w
    }

    /// Forward one chunk to the inner writer. On success the chunk's bytes
    /// stand appended, in order, after everything accepted before; nothing
    /// is committed yet. On failure the storage layer's error is returned
    /// wrapped as-is — the chunk is neither silently dropped nor retried,
    /// and the caller must treat the stream as terminated.
    pub fn write(&mut self, bs: bytes::Bytes) -> (r: Result<(), ParquetError>)
        requires
            old(self).is_open(),
        ensures
            final(self).is_open(),
            final(self).committed() == old(self).committed(),
            r is Ok ==> final(self).contents() == old(self).contents() + bytes_data(bs),
            r is Err ==> (r->Err_0 matches ParquetError::External(BackendCause::Store(_))),
    {
        match buf_put(&self.rt, &mut self.w, bs) {
            Ok(()) => Ok(()),
            Err(e) => Err(ParquetError::External(BackendCause::Store(e))),
        }
    }

    /// Signal end-of-stream: flush everything accepted so far and commit it
    /// as the object's content. On success the backend holds an object equal
    /// to exactly the bytes accepted before this call. On failure the
    /// storage layer's error is returned wrapped as-is and the object's
    /// state is whatever the backend left. Either way the adapter is closed.
    pub fn complete(&mut self) -> (r: Result<(), ParquetError>)
        requires
            old(self).is_open(),
        ensures
            !final(self).is_open(),
            r is Ok ==> final(self).committed() == Some(old(self).contents()),
            r is Err ==> (r->Err_0 matches ParquetError::External(BackendCause::Io(_))),
    {
        match buf_shutdown(&self.rt, &mut self.w) {
            Ok(()) => Ok(()),
            Err(e) => Err(ParquetError::External(BackendCause::Io(e))),
        }
    }
}

/// Order preservation: forwarding chunks one at a time, each appended after
/// everything accepted before it, accumulates the starting content followed
/// by the in-order concatenation of the chunks — nothing is reordered,
/// coalesced or dropped along the way.
pub proof fn lemma_order_preservation(init: Seq<u8>, chunks: Seq<Seq<u8>>)
    ensures
        appended_in_order(init, chunks) == init + concat_chunks(chunks),
    decreases chunks.len(),
{
    if chunks.len() == 0 {
        assert(init + concat_chunks(chunks) =~= init);
    } else {
        lemma_order_preservation(init, chunks.drop_last());
        assert(init + concat_chunks(chunks) =~= (init + concat_chunks(chunks.drop_last()))
            + chunks.last());
    }
}

/// Round trip: an adapter that started empty, accepted `chunks` in order
/// through successful appends, and committed its content through a
/// successful finalize, committed an object holding exactly the
/// concatenation of `chunks` — reading those bytes back yields the input
/// unchanged.
pub proof fn lemma_round_trip(w: ParquetObjectWriter, chunks: Seq<Seq<u8>>)
    requires
        w.committed() == Some(appended_in_order(Seq::<u8>::empty(), chunks)),
    ensures
        w.committed() == Some(concat_chunks(chunks)),
{
    lemma_order_preservation(Seq::<u8>::empty(), chunks);
    assert(Seq::<u8>::empty() + concat_chunks(chunks) =~= concat_chunks(chunks));
}

/// Construction determinism: two adapters that each started empty, accepted
/// the same chunks in the same order, and finalized successfully, committed
/// byte-identical objects — what is committed is a function of the chunk
/// sequence alone.
pub proof fn lemma_construction_determinism(
    w1: ParquetObjectWriter,
    w2: ParquetObjectWriter,
    chunks: Seq<Seq<u8>>,
)
    requires
        w1.committed() == Some(appended_in_order(Seq::<u8>::empty(), chunks)),
        w2.committed() == Some(appended_in_order(Seq::<u8>::empty(), chunks)),
    ensures
        w1.committed() == w2.committed(),
{
}

} // verus!
