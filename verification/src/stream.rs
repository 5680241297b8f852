//! The materialized stream: replays a pre-computed, in-memory list of
//! batches as one partition's ordered output.
//!
//! A stream is a single-consumer, ordered, finite sequence of batches tied
//! to one partition. It carries the schema it will yield, so a consumer can
//! validate compatibility before pulling the first batch; every batch it
//! yields has that schema. Dropping a stream before it is exhausted simply
//! releases it and is never an error.

use vstd::prelude::*;
use crate::batch::{Batch, BatchModel};
use crate::schema::{FieldModel, Schema};

verus! {

/// The mathematical value of a [`BatchStream`]: the schema it yields and
/// the batches not yet consumed, in order.
#[verifier::ext_equal]
pub ghost struct StreamModel {
    pub schema: Seq<FieldModel>,
    pub remaining: Seq<BatchModel>,
}

/// A stream over a pre-computed list of batches. Yields each batch once,
/// in order, then ends.
#[derive(Debug)]
pub struct BatchStream {
    schema: Schema,
    batches: Vec<Batch>,
    pos: usize,
}

impl View for BatchStream {
    type V = StreamModel;

    closed spec fn view(&self) -> StreamModel {
        StreamModel {
            schema: self.schema@,
            remaining: self.batches@.map_values(|b: Batch| b@).skip(self.pos as int),
        }
    }
}

impl BatchStream {
    #[verifier::type_invariant]
    closed spec fn inv(&self) -> bool {
        &&& self.pos <= self.batches@.len()
        &&& forall|i: int|
            0 <= i < self.batches@.len() ==> (#[trigger] self.batches@[i])@.schema == self.schema@
    }

    /// Wrap an in-memory batch list as one partition's output. Every batch
    /// must already carry the stream's schema.
    pub fn new(schema: Schema, batches: Vec<Batch>) -> (s: BatchStream)
        requires
            forall|i: int| 0 <= i < batches@.len() ==> (#[trigger] batches@[i])@.schema == schema@,
        ensures
            s@.schema == schema@,
            s@.remaining == batches@.map_values(|b: Batch| b@),
    {
        let s = BatchStream { schema, batches, pos: 0 };
        proof {
            assert(s@.remaining =~= s.batches@.map_values(|b: Batch| b@));
        }
        s
    }

    /// The schema of every batch this stream yields.
    pub fn schema(&self) -> (s: &Schema)
        ensures
            s@ == self@.schema,
    {
        &self.schema
    }

    /// How many batches are left to yield.
    pub fn batches_left(&self) -> (n: usize)
        ensures
            n == self@.remaining.len(),
    {
        proof {
            use_type_invariant(self);
        }
        self.batches.len() - self.pos
    }

    /// Yield the next batch, or `None` once the stream has ended. Batches
    /// come out exactly in the stored order, each with the stream's schema.
    pub fn next(&mut self) -> (r: Option<Batch>)
        ensures
            final(self)@.schema == old(self)@.schema,
            old(self)@.remaining.len() == 0 ==> r is None && final(self)@ == old(self)@,
            old(self)@.remaining.len() > 0 ==> {
                &&& r is Some
                &&& r->Some_0@ == old(self)@.remaining[0]
                &&& r->Some_0@.schema == final(self)@.schema
                &&& final(self)@.remaining == old(self)@.remaining.skip(1)
            },
    {
        proof {
            use_type_invariant(&*self);
        }
        if self.pos < self.batches.len() {
            let b = self.batches[self.pos].clone();
            self.pos = self.pos + 1;
            proof {
                assert(self@.remaining =~= old(self)@.remaining.skip(1));
                assert(b@ == old(self)@.remaining[0]);
            }
            Some(b)
        } else {
            proof {
                assert(self@ =~= old(self)@);
            }
            None
        }
    }
}

} // verus!
