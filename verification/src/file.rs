use vstd::prelude::*;
use bytes::Bytes;
use crate::array::{collected, materialize, Array, Pull};
use crate::buffer::{bytes_contents, bytes_slice};
use crate::error::Error;
use crate::preload::{preload, preloaded, Delivery, SequentialPreloadReader};
use crate::reader::{range_of, BlobReader};

verus! {

/// An opened container: the byte source over it and, where it was read
/// front to back, its whole content.
pub struct VortexFile {
    reader: BlobReader,
    content: Option<Bytes>,
}

impl VortexFile {
    /// The length of the container.
    pub closed spec fn size(&self) -> u64 {
        self.reader.size()
    }

    /// The preloaded content, if the container was read front to back.
    pub closed spec fn content(&self) -> Option<Seq<u8>> {
        match self.content {
            Some(bytes) => Some(bytes_contents(bytes)),
            None => None,
        }
    }

    /// Preloaded content is as long as the container, and can be indexed.
    #[verifier::type_invariant]
    spec fn wf(&self) -> bool {
        self.content matches Some(bytes) ==> bytes_contents(bytes).len() == self.reader.size()
            && self.reader.size() <= usize::MAX
    }

    /// Opens a container of `size` bytes for random access. Nothing is read.
    pub fn from_blob(size: u64) -> (file: VortexFile)
        ensures
            file.size() == size,
            file.content() == None::<Seq<u8>>,
    {
        VortexFile { reader: BlobReader::new(size), content: None }
    }

    /// Opens a container of `size` bytes from the deliveries of a
    /// forward-only stream over it, and keeps the whole content.
    pub fn from_blob_old(size: u32, deliveries: &Vec<Delivery>) -> (out: Result<VortexFile, Error>)
        ensures
            size > isize::MAX ==> out matches Err(Error::Io),
            size <= isize::MAX ==> match preloaded(size as nat, Seq::empty(), deliveries@) {
                Ok(content) => out matches Ok(file) && file.size() == size && file.content()
                    == Some(content),
                Err(e) => out matches Err(f) && f == e,
            },
    {
        match preload(size, deliveries) {
            Ok(bytes) => {
                proof {
                    lemma_preloaded_is_whole(size as nat, Seq::empty(), deliveries@);
                }
                Ok(VortexFile { reader: BlobReader::new(size as u64), content: Some(bytes) })
            },
            Err(e) => Err(e),
        }
    }

    /// Opens a container from a preload that has landed all of it. An
    /// incomplete preload is an I/O error.
    pub fn from_preload(preload: SequentialPreloadReader) -> (out: Result<VortexFile, Error>)
        ensures
            out is Ok <==> preload.loaded().len() == preload.size(),
            out matches Ok(file) ==> file.size() == preload.size() && file.content() == Some(
                preload.loaded(),
            ),
            out matches Err(e) ==> e == Error::Io,
    {
        let size: usize = preload.total();
        match preload.finish() {
            Ok(bytes) => Ok(
                VortexFile { reader: BlobReader::new(size as u64), content: Some(bytes) },
            ),
            Err(e) => Err(e),
        }
    }

    /// The byte source over the container.
    pub fn reader(&self) -> (reader: BlobReader)
        ensures
            reader.size() == self.size(),
    {
        self.reader
    }

    /// Whether ranges can be served from preloaded content.
    pub fn is_preloaded(&self) -> (yes: bool)
        ensures
            yes <==> self.content() is Some,
    {
        self.content.is_some()
    }

    /// Serves `len` bytes at `pos` from the preloaded content. A range that
    /// reaches past the end of the container is an I/O error, and so is any
    /// request where nothing was preloaded.
    pub fn read_byte_range(&self, pos: u64, len: u64) -> (out: Result<Bytes, Error>)
        ensures
            out is Ok <==> self.content() is Some && pos + len <= self.size(),
            out matches Ok(bytes) ==> bytes_contents(bytes) == range_of(
                self.content()->Some_0,
                pos as int,
                len as int,
            ),
            out matches Err(e) ==> e == Error::Io,
    {
        proof {
            use_type_invariant(self);
        }
        match &self.content {
            None => Err(Error::Io),
            Some(content) => match self.reader.plan_read(pos, len) {
                Ok(bounds) => Ok(
                    bytes_slice(content, bounds.start as usize, bounds.end as usize),
                ),
                Err(e) => Err(e),
            },
        }
    }

    /// Materializes the whole array from the decoder's chunk sequence.
    pub fn collect(&self, pulls: Vec<Pull>) -> (out: Result<Array, Error>)
        ensures
            match collected(Seq::empty(), pulls@) {
                Ok(rows) => out matches Ok(array) && array@ == rows,
                Err(e) => out matches Err(f) && f == e,
            },
    {
        materialize(pulls)
    }
}

/// A preload that succeeds holds exactly as many bytes as the container.
pub proof fn lemma_preloaded_is_whole(size: nat, loaded: Seq<u8>, deliveries: Seq<Delivery>)
    ensures
        preloaded(size, loaded, deliveries) matches Ok(content) ==> content.len() == size,
    decreases deliveries.len(),
{
    if loaded.len() != size && deliveries.len() > 0 {
        match crate::preload::step(size, loaded, deliveries[0]) {
            Ok(next) => lemma_preloaded_is_whole(size, next, deliveries.skip(1)),
            Err(_) => {},
        }
    }
}

} // verus!
