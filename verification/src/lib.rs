//! An adapter that lets a columnar file-format writer stream its serialized
//! output directly into an object store, by forwarding byte chunks to a
//! buffered storage writer and committing the object on finalize.

pub mod backend;
pub mod errors;
pub mod writer;

pub use backend::StoreHandle;
pub use errors::BackendCause;
pub use errors::ParquetError;
pub use writer::ParquetObjectWriter;
pub use writer::appended_in_order;
pub use writer::concat_chunks;
