//! An adapter between a byte container that a host owns and a columnar
//! decoder: range requests against the container, a front-to-back preload
//! of it, the materialization of decoded chunks into one array, and the
//! projection of decoded scalars into the host's values.

pub mod array;
pub mod buffer;
pub mod error;
pub mod file;
pub mod preload;
pub mod project;
pub mod reader;
pub mod scalar;
