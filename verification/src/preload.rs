use vstd::prelude::*;
use bytes::{Bytes, BytesMut};
use crate::buffer::{
    buffer_contents,
    buffer_extend,
    buffer_freeze,
    buffer_len,
    buffer_room,
    buffer_with_capacity,
    bytes_contents,
};
use crate::error::Error;

verus! {

/// What one pull on a forward-only stream handed back: the bytes it landed,
/// if any, and whether the stream says that it has ended.
#[derive(Debug)]
pub struct Delivery {
    pub value: Option<Vec<u8>>,
    pub done: bool,
}

/// Where a preload stands after a delivery.
#[derive(Clone, Copy, Debug, PartialEq, Eq, Structural)]
pub enum Progress {
    /// More of the container is still to come.
    Pending,
    /// Every byte of the container has been landed.
    Complete,
}

impl Delivery {
    /// The bytes of the delivery; none where it carried no value.
    pub open spec fn data(self) -> Seq<u8> {
        match self.value {
            Some(bytes) => bytes@,
            None => Seq::empty(),
        }
    }
}

/// What a delivery does to a preload of `size` bytes that holds `loaded`.
///
/// A delivery without data that does not report the end breaks the stream's
/// protocol. One that would run past `size`, or that reports the end before
/// `size` bytes are there, is an I/O error. Any other is appended.
pub open spec fn step(size: nat, loaded: Seq<u8>, delivery: Delivery) -> Result<Seq<u8>, Error> {
    let data = delivery.data();
    if data.len() == 0 && !delivery.done {
        Err(Error::ProtocolViolation)
    } else if loaded.len() + data.len() > size {
        Err(Error::Io)
    } else if delivery.done && loaded.len() + data.len() < size {
        Err(Error::Io)
    } else {
        Ok(loaded + data)
    }
}

/// The buffer that a preload of `size` bytes ends with when it starts from
/// `loaded` and is fed `deliveries` in order. It stops as soon as `size`
/// bytes are there, and asks for nothing after that; a stream that runs dry
/// before then is an I/O error.
pub open spec fn preloaded(size: nat, loaded: Seq<u8>, deliveries: Seq<Delivery>) -> Result<
    Seq<u8>,
    Error,
>
    decreases deliveries.len(),
{
    if loaded.len() == size {
        Ok(loaded)
    } else if deliveries.len() == 0 {
        Err(Error::Io)
    } else {
        match step(size, loaded, deliveries[0]) {
            Ok(next) => preloaded(size, next, deliveries.skip(1)),
            Err(e) => Err(e),
        }
    }
}

/// Reads a whole container front to back into one buffer, from a stream
/// that delivers it in pieces of the host's choosing.
pub struct SequentialPreloadReader {
    size: usize,
    target: BytesMut,
}

impl SequentialPreloadReader {
    /// The length of the container that is being read.
    pub closed spec fn size(&self) -> nat {
        self.size as nat
    }

    /// The bytes landed so far.
    pub closed spec fn loaded(&self) -> Seq<u8> {
        buffer_contents(self.target)
    }

    /// No more is landed than the container holds, and the buffer has room
    /// for all of it.
    #[verifier::type_invariant]
    spec fn wf(&self) -> bool {
        &&& buffer_contents(self.target).len() <= self.size
        &&& buffer_room(self.target) == self.size
    }

    /// A preload of a container of `size` bytes, with room for all of it and
    /// nothing landed yet. A size beyond what one allocation can hold is an
    /// I/O error.
    pub fn new(size: u32) -> (out: Result<SequentialPreloadReader, Error>)
        ensures
            out is Ok <==> size <= isize::MAX,
            out matches Ok(reader) ==> reader.size() == size && reader.loaded() == Seq::<
                u8,
            >::empty(),
            out matches Err(e) ==> e == Error::Io,
    {
        if size as u64 > isize::MAX as u64 {
            return Err(Error::Io);
        }
        let size: usize = size as usize;
        Ok(SequentialPreloadReader { size, target: buffer_with_capacity(size) })
    }

    /// The length of the container that is being read.
    pub fn total(&self) -> (n: usize)
        ensures
            n == self.size(),
    {
        self.size
    }

    /// The number of bytes landed so far.
    pub fn offset(&self) -> (n: usize)
        ensures
            n == self.loaded().len(),
    {
        buffer_len(&self.target)
    }

    /// Whether every byte of the container has been landed.
    pub fn is_complete(&self) -> (complete: bool)
        ensures
            complete <==> self.loaded().len() == self.size(),
    {
        buffer_len(&self.target) == self.size
    }

    /// Takes one delivery. On success its bytes follow those landed before;
    /// on failure nothing changes.
    pub fn accept(&mut self, delivery: &Delivery) -> (out: Result<Progress, Error>)
        ensures
            final(self).size() == old(self).size(),
            match step(old(self).size(), old(self).loaded(), *delivery) {
                Ok(next) => final(self).loaded() == next && out == Ok::<Progress, Error>(
                    if next.len() == old(self).size() {
                        Progress::Complete
                    } else {
                        Progress::Pending
                    },
                ),
                Err(e) => final(self).loaded() == old(self).loaded() && out == Err::<
                    Progress,
                    Error,
                >(e),
            },
    {
        proof {
            use_type_invariant(&*self);
        }
        let offset: usize = buffer_len(&self.target);
        let room: usize = self.size - offset;
        match &delivery.value {
            None => {
                if !delivery.done {
                    return Err(Error::ProtocolViolation);
                }
                if room > 0 {
                    return Err(Error::Io);
                }
                assert(self.loaded() + delivery.data() =~= self.loaded());
                Ok(Progress::Complete)
            },
            Some(bytes) => {
                let count: usize = bytes.len();
                if count == 0 && !delivery.done {
                    return Err(Error::ProtocolViolation);
                }
                if count > room {
                    return Err(Error::Io);
                }
                if delivery.done && count < room {
                    return Err(Error::Io);
                }
                buffer_extend(&mut self.target, bytes.as_slice());
                if count == room {
                    Ok(Progress::Complete)
                } else {
                    Ok(Progress::Pending)
                }
            },
        }
    }

    /// Freezes the buffer once the container is complete. Before that there
    /// is no buffer to hand out: an I/O error.
    pub fn finish(self) -> (out: Result<Bytes, Error>)
        ensures
            out is Ok <==> self.loaded().len() == self.size(),
            out matches Ok(bytes) ==> bytes_contents(bytes) == self.loaded(),
            out matches Err(e) ==> e == Error::Io,
    {
        if buffer_len(&self.target) == self.size {
            Ok(buffer_freeze(self.target))
        } else {
            Err(Error::Io)
        }
    }
}

/// Runs a preload of `size` bytes over the deliveries of a stream, in
/// order, and gives the whole container as one immutable buffer.
pub fn preload(size: u32, deliveries: &Vec<Delivery>) -> (out: Result<Bytes, Error>)
    ensures
        size > isize::MAX ==> out == Err::<Bytes, Error>(Error::Io),
        size <= isize::MAX ==> match preloaded(size as nat, Seq::empty(), deliveries@) {
            Ok(content) => out matches Ok(bytes) && bytes_contents(bytes) == content,
            Err(e) => out == Err::<Bytes, Error>(e),
        },
{
    let mut reader = match SequentialPreloadReader::new(size) {
        Ok(reader) => reader,
        Err(e) => {
            return Err(e);
        },
    };
    let mut i: usize = 0;
    assert(deliveries@.skip(0) =~= deliveries@);
    while !reader.is_complete()
        invariant
            size <= isize::MAX,
            reader.size() == size,
            i <= deliveries.len(),
            preloaded(size as nat, Seq::empty(), deliveries@) == preloaded(
                size as nat,
                reader.loaded(),
                deliveries@.skip(i as int),
            ),
        decreases deliveries.len() - i,
    {
        if i >= deliveries.len() {
            return Err(Error::Io);
        }
        assert(deliveries@.skip(i as int)[0] == deliveries@[i as int]);
        assert(deliveries@.skip(i as int).skip(1) =~= deliveries@.skip(i as int + 1));
        match reader.accept(&deliveries[i]) {
            Ok(_) => {},
            Err(e) => {
                return Err(e);
            },
        }
        i += 1;
    }
    reader.finish()
}

/// The bytes of a run of deliveries, joined in order.
pub open spec fn joined(deliveries: Seq<Delivery>) -> Seq<u8>
    decreases deliveries.len(),
{
    if deliveries.len() == 0 {
        Seq::empty()
    } else {
        deliveries[0].data() + joined(deliveries.skip(1))
    }
}

/// Pieces of any sizes that each carry data and together fill the container
/// are landed one after the other: the buffer is what was there, followed
/// by their bytes in order. Only the last piece may report the end.
pub proof fn lemma_preload_joins_pieces(size: nat, loaded: Seq<u8>, deliveries: Seq<Delivery>)
    requires
        forall|j: int| 0 <= j < deliveries.len() ==> (#[trigger] deliveries[j]).data().len() > 0,
        forall|j: int| 0 <= j < deliveries.len() - 1 ==> !(#[trigger] deliveries[j]).done,
        loaded.len() + joined(deliveries).len() == size,
    ensures
        preloaded(size, loaded, deliveries) == Ok::<Seq<u8>, Error>(loaded + joined(deliveries)),
    decreases deliveries.len(),
{
    if deliveries.len() == 0 {
        assert(loaded + joined(deliveries) =~= loaded);
    } else {
        let rest = deliveries.skip(1);
        let first = deliveries[0];
        assert forall|j: int| 0 <= j < rest.len() implies (#[trigger] rest[j]).data().len() > 0 by {
            assert(rest[j] == deliveries[j + 1]);
        }
        assert forall|j: int| 0 <= j < rest.len() - 1 implies !(#[trigger] rest[j]).done by {
            assert(rest[j] == deliveries[j + 1]);
        }
        if rest.len() > 0 {
            assert(rest[0].data().len() > 0);
            assert(!first.done);
        }
        lemma_preload_joins_pieces(size, loaded + first.data(), rest);
        assert((loaded + first.data()) + joined(rest) =~= loaded + joined(deliveries));
    }
}

/// A delivery without data that does not report the end fails the preload
/// with a protocol violation, whatever sizes the pieces before it had, as
/// long as they left the container incomplete.
pub proof fn lemma_empty_delivery_is_protocol_violation(
    size: nat,
    loaded: Seq<u8>,
    deliveries: Seq<Delivery>,
    k: int,
)
    requires
        0 <= k < deliveries.len(),
        deliveries[k].data().len() == 0,
        !deliveries[k].done,
        forall|j: int| 0 <= j < k ==> (#[trigger] deliveries[j]).data().len() > 0,
        forall|j: int| 0 <= j < k ==> !(#[trigger] deliveries[j]).done,
        loaded.len() + joined(deliveries.take(k)).len() < size,
    ensures
        preloaded(size, loaded, deliveries) == Err::<Seq<u8>, Error>(Error::ProtocolViolation),
    decreases k,
{
    if k > 0 {
        let rest = deliveries.skip(1);
        assert(deliveries.take(k).skip(1) =~= rest.take(k - 1));
        assert(deliveries.take(k)[0] == deliveries[0]);
        assert forall|j: int| 0 <= j < k - 1 implies (#[trigger] rest[j]).data().len() > 0 by {
            assert(rest[j] == deliveries[j + 1]);
        }
        assert forall|j: int| 0 <= j < k - 1 implies !(#[trigger] rest[j]).done by {
            assert(rest[j] == deliveries[j + 1]);
        }
        lemma_empty_delivery_is_protocol_violation(
            size,
            loaded + deliveries[0].data(),
            rest,
            k - 1,
        );
    }
}

} // verus!
