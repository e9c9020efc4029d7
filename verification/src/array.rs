use vstd::prelude::*;
use crate::error::Error;
use crate::project::{
    lemma_projection_fails_only_as_unsupported,
    outcome_view,
    projection,
    to_js_val,
    HostValue,
    HostValueView,
};
use crate::scalar::Scalar;

verus! {

/// What one pull on the decoder's chunk sequence gave: the rows of the next
/// chunk, or a chunk that failed to decode. The end of the sequence is the
/// end of the pulls.
#[derive(Debug)]
pub enum Pull {
    Chunk(Vec<Scalar>),
    Failed,
}

/// The rows that a materialization ends with when it holds `rows` and
/// drains `pulls` in order: every chunk follows the ones before it, and one
/// failed chunk fails the whole.
pub open spec fn collected(rows: Seq<Scalar>, pulls: Seq<Pull>) -> Result<Seq<Scalar>, Error>
    decreases pulls.len(),
{
    if pulls.len() == 0 {
        Ok(rows)
    } else {
        match pulls[0] {
            Pull::Chunk(chunk) => collected(rows + chunk@, pulls.skip(1)),
            Pull::Failed => Err(Error::Decode),
        }
    }
}

/// All chunks of one materialization as a single array, indexable by row.
#[derive(Debug)]
pub struct Array {
    rows: Vec<Scalar>,
}

impl View for Array {
    type V = Seq<Scalar>;

    closed spec fn view(&self) -> Seq<Scalar> {
        self.rows@
    }
}

impl Array {
    /// The number of rows.
    pub fn row_count(&self) -> (n: usize)
        ensures
            n == self@.len(),
    {
        self.rows.len()
    }

    /// The host value of the row at `index`. An index at or past the row
    /// count is a bounds error, and nothing else is.
    pub fn get(&self, index: u32) -> (out: Result<HostValue, Error>)
        ensures
            index < self@.len() ==> outcome_view(out) == projection(self@[index as int]),
            index >= self@.len() ==> outcome_view(out) == Err::<HostValueView, Error>(
                Error::Bounds,
            ),
            out matches Err(Error::Bounds) <==> index >= self@.len(),
    {
        let at: usize = index as usize;
        if at >= self.rows.len() {
            return Err(Error::Bounds);
        }
        proof {
            lemma_projection_fails_only_as_unsupported(self.rows@[at as int]);
        }
        to_js_val(&self.rows[at])
    }
}

/// Gathers the chunks of one materialization, one pull at a time.
#[derive(Debug)]
pub struct Collector {
    rows: Vec<Scalar>,
    failed: bool,
}

impl Collector {
    /// The rows gathered so far.
    pub closed spec fn rows(&self) -> Seq<Scalar> {
        self.rows@
    }

    /// Whether a chunk has failed; nothing is gathered after that.
    pub closed spec fn failed(&self) -> bool {
        self.failed
    }

    /// A collector that holds no rows.
    pub fn new() -> (collector: Collector)
        ensures
            collector.rows() == Seq::<Scalar>::empty(),
            !collector.failed(),
    {
        Collector { rows: Vec::new(), failed: false }
    }

    /// Takes the next pull. A chunk's rows follow those gathered before. A
    /// failed chunk is terminal: it and every later pull give a decode
    /// error and leave the rows as they were.
    pub fn accept(&mut self, pull: Pull) -> (out: Result<(), Error>)
        ensures
            out is Ok <==> !old(self).failed() && pull is Chunk,
            out matches Err(e) ==> e == Error::Decode && final(self).failed(),
            out is Err ==> final(self).rows() == old(self).rows(),
            out is Ok ==> !final(self).failed() && final(self).rows() == old(self).rows()
                + pull->Chunk_0@,
    {
        if self.failed {
            return Err(Error::Decode);
        }
        match pull {
            Pull::Chunk(mut chunk) => {
                self.rows.append(&mut chunk);
                Ok(())
            },
            Pull::Failed => {
                self.failed = true;
                Err(Error::Decode)
            },
        }
    }

    /// Ends the materialization once the sequence is drained. After a failed
    /// chunk there is no array, only the decode error.
    pub fn finish(self) -> (out: Result<Array, Error>)
        ensures
            out is Ok <==> !self.failed(),
            out matches Ok(array) ==> array@ == self.rows(),
            out matches Err(e) ==> e == Error::Decode,
    {
        if self.failed {
            Err(Error::Decode)
        } else {
            Ok(Array { rows: self.rows })
        }
    }
}

/// Drains a chunk sequence to its end and joins the chunks into one array.
pub fn materialize(pulls: Vec<Pull>) -> (out: Result<Array, Error>)
    ensures
        match collected(Seq::empty(), pulls@) {
            Ok(rows) => out matches Ok(array) && array@ == rows,
            Err(e) => out matches Err(f) && f == e,
        },
{
    let mut rest = pulls;
    let mut collector = Collector::new();
    while rest.len() > 0
        invariant
            !collector.failed(),
            collected(Seq::empty(), pulls@) == collected(collector.rows(), rest@),
        decreases rest.len(),
    {
        let ghost before = rest@;
        let pull = rest.remove(0);
        assert(rest@ =~= before.skip(1));
        match collector.accept(pull) {
            Ok(_) => {},
            Err(e) => {
                return Err(e);
            },
        }
    }
    collector.finish()
}

/// Every row of an array can be read without a bounds error, and the index
/// just past the last row cannot.
pub proof fn lemma_rows_are_in_bounds(rows: Seq<Scalar>, index: int)
    requires
        0 <= index < rows.len(),
    ensures
        projection(rows[index]) != Err::<HostValueView, Error>(Error::Bounds),
{
    lemma_projection_fails_only_as_unsupported(rows[index]);
}

/// A chunk that fails to decode fails the materialization, wherever in the
/// sequence it stands and whatever was gathered before it.
pub proof fn lemma_failed_chunk_fails_all(rows: Seq<Scalar>, pulls: Seq<Pull>, k: int)
    requires
        0 <= k < pulls.len(),
        pulls[k] is Failed,
    ensures
        collected(rows, pulls) == Err::<Seq<Scalar>, Error>(Error::Decode),
    decreases pulls.len(),
{
    if k > 0 {
        match pulls[0] {
            Pull::Chunk(chunk) => {
                assert(pulls.skip(1)[k - 1] == pulls[k]);
                lemma_failed_chunk_fails_all(rows + chunk@, pulls.skip(1), k - 1);
            },
            Pull::Failed => {},
        }
    }
}

/// Where no chunk fails, the materialization succeeds and keeps the rows
/// that it started with at the front.
pub proof fn lemma_sound_chunks_collect(rows: Seq<Scalar>, pulls: Seq<Pull>)
    requires
        forall|k: int| 0 <= k < pulls.len() ==> (#[trigger] pulls[k]) is Chunk,
    ensures
        collected(rows, pulls) matches Ok(all) && rows.len() <= all.len() && all.subrange(
            0,
            rows.len() as int,
        ) == rows,
    decreases pulls.len(),
{
    if pulls.len() == 0 {
        assert(rows.subrange(0, rows.len() as int) =~= rows);
    } else {
        let chunk = pulls[0]->Chunk_0;
        assert forall|k: int| 0 <= k < pulls.skip(1).len() implies (#[trigger] pulls.skip(
            1,
        )[k]) is Chunk by {
            assert(pulls.skip(1)[k] == pulls[k + 1]);
        }
        lemma_sound_chunks_collect(rows + chunk@, pulls.skip(1));
        let all = collected(rows, pulls)->Ok_0;
        assert(all.subrange(0, rows.len() as int) =~= (rows + chunk@).subrange(
            0,
            rows.len() as int,
        ));
        assert((rows + chunk@).subrange(0, rows.len() as int) =~= rows);
    }
}

} // verus!
