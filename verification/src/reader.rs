use vstd::prelude::*;
use bytes::Bytes;
use crate::buffer::{buffer_extend, buffer_freeze, buffer_with_capacity, bytes_contents};
use crate::error::Error;

verus! {

/// The part of a container that one range request asks the host to slice:
/// the bytes from `start` up to, not including, `end`.
#[derive(Clone, Copy, Debug, PartialEq, Eq, Structural)]
pub struct SliceBounds {
    pub start: u64,
    pub end: u64,
}

/// A random-access byte source over a container of fixed size that the host
/// owns. It decides what the host is asked for and checks what comes back;
/// the host does the reading.
#[derive(Clone, Copy, Debug, PartialEq, Eq, Structural)]
pub struct BlobReader {
    size: u64,
}

/// The bounds that a request for `len` bytes at `pos` asks of a container
/// of `size` bytes, or the failure where the request reaches past its end.
pub open spec fn planned(size: u64, pos: u64, len: u64) -> Result<SliceBounds, Error> {
    if pos + len <= size {
        Ok(SliceBounds { start: pos, end: (pos + len) as u64 })
    } else {
        Err(Error::Io)
    }
}

/// The bytes of `content` that a request for `len` bytes at `pos` names.
pub open spec fn range_of(content: Seq<u8>, pos: int, len: int) -> Seq<u8>
    recommends
        0 <= pos,
        0 <= len,
        pos + len <= content.len(),
{
    content.subrange(pos, pos + len)
}

/// Whether `payload` is a well-formed answer to a request for `bounds`: it
/// has exactly the length asked for, and one allocation can hold it.
pub open spec fn well_delivered(bounds: SliceBounds, payload: Seq<u8>) -> bool {
    &&& bounds.start <= bounds.end
    &&& payload.len() == bounds.end - bounds.start
    &&& payload.len() <= isize::MAX
}

/// What a range read resolves to when the host answers the request for
/// `bounds` with `payload`, or with `None` where its read failed. A failed
/// read and a malformed payload are I/O errors.
pub open spec fn resolved(bounds: SliceBounds, payload: Option<Seq<u8>>) -> Result<Seq<u8>, Error> {
    match payload {
        Some(bytes) => if well_delivered(bounds, bytes) {
            Ok(bytes)
        } else {
            Err(Error::Io)
        },
        None => Err(Error::Io),
    }
}

/// What the host's slice primitive shows of `content` for `bounds`.
pub open spec fn host_slice(content: Seq<u8>, bounds: SliceBounds) -> Seq<u8>
    recommends
        bounds.start <= bounds.end <= content.len(),
{
    content.subrange(bounds.start as int, bounds.end as int)
}

impl BlobReader {
    /// The total length of the container, fixed when the source was made.
    pub closed spec fn spec_size(self) -> u64 {
        self.size
    }

    /// A source over a container of `size` bytes.
    pub fn new(size: u64) -> (reader: BlobReader)
        ensures
            reader.spec_size() == size,
    {
        BlobReader { size }
    }

    #[verifier::when_used_as_spec(spec_size)]
    pub fn size(self) -> (n: u64)
        ensures
            n == self.spec_size(),
    {
        self.size
    }

    /// Checks a range request against the container and gives the bounds to
    /// slice. A request that reaches past the end fails with an I/O error.
    pub fn plan_read(&self, pos: u64, len: u64) -> (out: Result<SliceBounds, Error>)
        ensures
            out == planned(self.size(), pos, len),
    {
        match pos.checked_add(len) {
            Some(end) => {
                if end <= self.size {
                    Ok(SliceBounds { start: pos, end })
                } else {
                    Err(Error::Io)
                }
            },
            None => Err(Error::Io),
        }
    }

    /// Resolves one range read with what the host delivered for `bounds`,
    /// `None` where its read failed. The payload is copied into a buffer of
    /// its own, which belongs to this request alone.
    pub fn finish_read(&self, bounds: &SliceBounds, payload: Option<&[u8]>) -> (out: Result<
        Bytes,
        Error,
    >)
        ensures
            match resolved(
                *bounds,
                match payload {
                    Some(bytes) => Some(bytes@),
                    None => None,
                },
            ) {
                Ok(bytes) => out matches Ok(buffer) && bytes_contents(buffer) == bytes,
                Err(e) => out matches Err(f) && f == e,
            },
    {
        let bytes: &[u8] = match payload {
            Some(bytes) => bytes,
            None => {
                return Err(Error::Io);
            },
        };
        if bounds.start > bounds.end {
            return Err(Error::Io);
        }
        let want: u64 = bounds.end - bounds.start;
        let got: usize = bytes.len();
        if got > isize::MAX as usize || got as u64 != want {
            return Err(Error::Io);
        }
        let mut buffer = buffer_with_capacity(got);
        buffer_extend(&mut buffer, bytes);
        Ok(buffer_freeze(buffer))
    }
}

/// A request that lies within the container resolves to exactly the bytes
/// that a front-to-back read of the whole container shows at that place,
/// when the host answers with its slice for the planned bounds. The answer
/// to one request depends on that request alone.
pub proof fn lemma_ranged_read_gives_the_range(content: Seq<u8>, pos: u64, len: u64)
    requires
        content.len() <= u64::MAX,
        pos + len <= content.len(),
        len <= isize::MAX,
    ensures
        planned(content.len() as u64, pos, len) matches Ok(bounds) && resolved(
            bounds,
            Some(host_slice(content, bounds)),
        ) == Ok::<Seq<u8>, Error>(range_of(content, pos as int, len as int)),
{
}

/// Two requests within the container each resolve to their own range of
/// it, when the host answers each with its slice: what one request resolves
/// to is fixed by that request and the content, and the other request does
/// not enter it.
pub proof fn lemma_two_reads_each_give_their_range(
    content: Seq<u8>,
    first: (u64, u64),
    second: (u64, u64),
)
    requires
        content.len() <= u64::MAX,
        first.0 + first.1 <= content.len(),
        second.0 + second.1 <= content.len(),
        first.1 <= isize::MAX,
        second.1 <= isize::MAX,
    ensures
        planned(content.len() as u64, first.0, first.1) matches Ok(a) && planned(
            content.len() as u64,
            second.0,
            second.1,
        ) matches Ok(b) && resolved(a, Some(host_slice(content, a))) == Ok::<Seq<u8>, Error>(
            range_of(content, first.0 as int, first.1 as int),
        ) && resolved(b, Some(host_slice(content, b))) == Ok::<Seq<u8>, Error>(
            range_of(content, second.0 as int, second.1 as int),
        ),
{
    lemma_ranged_read_gives_the_range(content, first.0, first.1);
    lemma_ranged_read_gives_the_range(content, second.0, second.1);
}

/// A request that reaches past the end of the container is refused before
/// the host is asked for anything.
pub proof fn lemma_out_of_range_is_refused(size: u64, pos: u64, len: u64)
    requires
        pos + len > size,
    ensures
        planned(size, pos, len) == Err::<SliceBounds, Error>(Error::Io),
{
}

/// The bytes of two neighbouring ranges, one after the other, are the bytes
/// of the range that spans both.
pub proof fn lemma_ranges_join(content: Seq<u8>, pos: int, first: int, second: int)
    requires
        0 <= pos,
        0 <= first,
        0 <= second,
        pos + first + second <= content.len(),
    ensures
        range_of(content, pos, first) + range_of(content, pos + first, second) == range_of(
            content,
            pos,
            first + second,
        ),
{
    assert(range_of(content, pos, first) + range_of(content, pos + first, second) =~= range_of(
        content,
        pos,
        first + second,
    ));
}

} // verus!
