//! The push-feed node: a leaf whose partition contents are supplied
//! externally instead of being computed by executing children.
//!
//! An external scheduler that has already materialized each partition's
//! batches out-of-band hands them to this node once; a later `execute`
//! call on a partition replays exactly the fed sequence. The discipline is
//! single-feed-then-many-reads: a feed installs the contents once, before
//! execution begins, and every later `execute` observes it.

use vstd::prelude::*;
use crate::batch::{Batch, BatchModel};
use crate::error::{spec_decimal, decimal_string, PlanError};
use crate::partitioning::{Partitioning, PartitioningModel};
use crate::schema::{FieldModel, Schema};
use crate::stream::BatchStream;

verus! {

/// The mathematical value of a partition list: for each partition, the
/// ordered batches it holds.
pub open spec fn partitions_view(parts: Seq<Vec<Batch>>) -> Seq<Seq<BatchModel>> {
    parts.map_values(|v: Vec<Batch>| v@.map_values(|b: Batch| b@))
}

/// The mathematical value of a [`PushFeedExec`].
#[verifier::ext_equal]
pub ghost struct PushFeedModel {
    pub schema: Seq<FieldModel>,
    pub partitions: int,
    pub fed: Option<Seq<Seq<BatchModel>>>,
}

/// When a feed is accepted: nothing was fed before, one batch list per
/// declared partition, and every batch already carries the node's schema.
pub open spec fn feed_accepts(m: PushFeedModel, parts: Seq<Seq<BatchModel>>) -> bool {
    &&& m.fed is None
    &&& parts.len() == m.partitions
    &&& forall|i: int, j: int|
        0 <= i < parts.len() && 0 <= j < parts[i].len() ==> (#[trigger] parts[i][j]).schema
            == m.schema
}

/// A leaf node whose output is fed to it. Until it is fed, no partition
/// can be executed; once fed, `execute(p)` replays partition `p`'s batch
/// list, unchanged and in order, as often as asked.
#[derive(Debug)]
pub struct PushFeedExec {
    schema: Schema,
    partitions: usize,
    fed: Option<Vec<Vec<Batch>>>,
}

impl View for PushFeedExec {
    type V = PushFeedModel;

    closed spec fn view(&self) -> PushFeedModel {
        PushFeedModel {
            schema: self.schema@,
            partitions: self.partitions as int,
            fed: match self.fed {
                Option::Some(parts) => Option::Some(partitions_view(parts@)),
                Option::None => Option::None,
            },
        }
    }
}

impl PushFeedExec {
    #[verifier::type_invariant]
    closed spec fn inv(&self) -> bool {
        match self.fed {
            Option::Some(parts) => {
                &&& parts@.len() == self.partitions
                &&& forall|i: int, j: int|
                    0 <= i < parts@.len() && 0 <= j < parts@[i]@.len()
                        ==> (#[trigger] parts@[i]@[j])@.schema == self.schema@
            },
            Option::None => true,
        }
    }

    /// Create a node that will output `partitions` partitions under
    /// `schema`, with nothing fed yet.
    pub fn new(schema: Schema, partitions: usize) -> (f: PushFeedExec)
        ensures
            f@ == (PushFeedModel {
                schema: schema@,
                partitions: partitions as int,
                fed: Option::None,
            }),
    {
        PushFeedExec { schema, partitions, fed: Option::None }
    }

    /// The fixed output schema of this node.
    pub fn schema(&self) -> (s: Schema)
        ensures
            s@ == self@.schema,
    {
        self.schema.clone()
    }

    /// The declared partition count, with unknown distribution.
    pub fn output_partitioning(&self) -> (p: Partitioning)
        ensures
            p@ == PartitioningModel::UnknownPartitioning(self@.partitions),
    {
        Partitioning::UnknownPartitioning(self.partitions)
    }

    /// Install the externally computed partition contents, once. Succeeds
    /// exactly when nothing was fed before, the list has one entry per
    /// declared partition, and every batch carries this node's schema.
    /// A second feed fails with an `Internal` error; a malformed list with
    /// an `InvalidArgument` error; a failed feed changes nothing.
    pub fn feed_batches(&mut self, partitions: Vec<Vec<Batch>>) -> (r: Result<(), PlanError>)
        ensures
            r is Ok <==> feed_accepts(old(self)@, partitions_view(partitions@)),
            r is Ok ==> final(self)@ == (PushFeedModel {
                schema: old(self)@.schema,
                partitions: old(self)@.partitions,
                fed: Option::Some(partitions_view(partitions@)),
            }),
            r is Err ==> final(self)@ == old(self)@,
            old(self)@.fed is Some ==> r is Err && r->Err_0 is Internal,
            old(self)@.fed is None && r is Err ==> r->Err_0 is InvalidArgument,
    {
        let ghost pv = partitions_view(partitions@);
        if self.fed.is_some() {
            return Err(
                PlanError::Internal(
                    String::from_str("PushFeedExec was already fed"),
                ),
            );
        }
        if partitions.len() != self.partitions {
            return Err(
                PlanError::InvalidArgument(
                    String::from_str("fed list does not match the partition count"),
                ),
            );
        }
        let n = partitions.len();
        let mut i: usize = 0;
        while i < n
            invariant
                *self == *old(self),
                self.fed is None,
                n == partitions.len(),
                pv == partitions_view(partitions@),
                i <= n,
                forall|a: int, b: int|
                    0 <= a < i && 0 <= b < pv[a].len() ==> (#[trigger] pv[a][b]).schema
                        == self@.schema,
            decreases n - i,
        {
            let part = &partitions[i];
            let m = part.len();
            let mut j: usize = 0;
            while j < m
                invariant
                    *self == *old(self),
                    self.fed is None,
                    n == partitions.len(),
                    pv == partitions_view(partitions@),
                    i < n,
                    part == &partitions[i as int],
                    m == part@.len(),
                    j <= m,
                    forall|b: int|
                        0 <= b < j ==> (#[trigger] pv[i as int][b]).schema == self@.schema,
                decreases m - j,
            {
                if !part[j].schema().matches(&self.schema) {
                    proof {
                        assert(pv[i as int][j as int].schema != self@.schema);
                    }
                    return Err(
                        PlanError::InvalidArgument(
                            String::from_str("fed batch does not carry the node schema"),
                        ),
                    );
                }
                j += 1;
            }
            i += 1;
        }
        proof {
            assert forall|a: int, b: int|
                0 <= a < partitions@.len() && 0 <= b < partitions@[a]@.len() implies (
            #[trigger] partitions@[a]@[b])@.schema == self.schema@ by {
                assert(pv[a] == partitions@[a]@.map_values(|x: Batch| x@));
                assert(pv[a][b] == partitions@[a]@[b]@);
            };
        }
        self.fed = Option::Some(partitions);
        Ok(())
    }

    /// An owned copy of the fed partition contents, for callers that
    /// rebuild or serialize the node. A fed node always holds one batch
    /// list per declared partition, every batch under the node's schema;
    /// callers may rely on that without any precondition.
    pub fn fed_owned(&self) -> (r: Option<Vec<Vec<Batch>>>)
        ensures
            r is Some <==> self@.fed is Some,
            r is Some ==> partitions_view(r->Some_0@) == self@.fed->Some_0,
            self@.fed is Some ==> self@.fed->Some_0.len() == self@.partitions && forall|
                i: int,
                j: int,
            |
                0 <= i < self@.fed->Some_0.len() && 0 <= j < self@.fed->Some_0[i].len() ==> (
                #[trigger] self@.fed->Some_0[i][j]).schema == self@.schema,
    {
        proof {
            use_type_invariant(self);
            if self@.fed is Some {
                let parts0 = self.fed->Some_0;
                assert forall|i: int, j: int|
                    0 <= i < self@.fed->Some_0.len() && 0 <= j < self@.fed->Some_0[i].len()
                    implies (#[trigger] self@.fed->Some_0[i][j]).schema == self@.schema by {
                    assert(self@.fed->Some_0[i] == parts0@[i]@.map_values(|x: Batch| x@));
                    assert(self@.fed->Some_0[i][j] == parts0@[i]@[j]@);
                };
            }
        }
        match &self.fed {
            Option::None => Option::None,
            Option::Some(parts) => {
                let mut copied: Vec<Vec<Batch>> = Vec::new();
                let mut i: usize = 0;
                while i < parts.len()
                    invariant
                        i <= parts@.len(),
                        copied@.len() == i,
                        forall|a: int|
                            0 <= a < i ==> #[trigger] partitions_view(copied@)[a]
                                == partitions_view(parts@)[a],
                    decreases parts.len() - i,
                {
                    let part = &parts[i];
                    let mut batches: Vec<Batch> = Vec::new();
                    let mut j: usize = 0;
                    while j < part.len()
                        invariant
                            part == &parts@[i as int],
                            j <= part@.len(),
                            batches@.len() == j,
                            forall|b: int| 0 <= b < j ==> #[trigger] batches@[b]@ == part@[b]@,
                        decreases part.len() - j,
                    {
                        batches.push(part[j].clone());
                        j += 1;
                    }
                    proof {
                        assert(batches@.map_values(|b: Batch| b@) =~= part@.map_values(
                            |b: Batch| b@,
                        ));
                    }
                    let ghost prev = copied@;
                    copied.push(batches);
                    proof {
                        assert forall|a: int| 0 <= a < i + 1 implies #[trigger] partitions_view(
                            copied@,
                        )[a] == partitions_view(parts@)[a] by {
                            if a < i {
                                assert(copied@[a] == prev[a]);
                                assert(partitions_view(prev)[a] == partitions_view(parts@)[a]);
                            } else {
                                assert(copied@[a]@ == batches@);
                            }
                        };
                    }
                    i += 1;
                }
                proof {
                    assert(partitions_view(copied@) =~= partitions_view(parts@));
                }
                Option::Some(copied)
            },
        }
    }

    /// Produce partition `partition` by replaying what was fed for it.
    /// An out-of-range index fails with an `Internal` error describing the
    /// invalid index; a node that was never fed fails with an `Internal`
    /// error too. Neither failure emits anything.
    pub fn execute(&self, partition: usize) -> (r: Result<BatchStream, PlanError>)
        ensures
            r is Ok <==> (partition < self@.partitions && self@.fed is Some),
            r is Err ==> r->Err_0 is Internal,
            partition >= self@.partitions ==> r->Err_0.spec_message()
                == "PushFeedExec invalid partition "@ + spec_decimal(partition as int),
            partition < self@.partitions && self@.fed is None ==> r->Err_0.spec_message()
                == "PushFeedExec was executed before any feed"@,
            r is Ok ==> r->Ok_0@.schema == self@.schema,
            r is Ok ==> r->Ok_0@.remaining == self@.fed->Some_0[partition as int],
            r is Ok ==> forall|i: int|
                0 <= i < r->Ok_0@.remaining.len() ==> (#[trigger] r->Ok_0@.remaining[i]).schema
                    == self@.schema,
    {
        proof {
            use_type_invariant(self);
        }
        if partition >= self.partitions {
            let mut message = String::from_str("PushFeedExec invalid partition ");
            let digits = decimal_string(partition);
            message.append(digits.as_str());
            return Err(PlanError::Internal(message));
        }
        match &self.fed {
            Option::None => Err(
                PlanError::Internal(
                    String::from_str("PushFeedExec was executed before any feed"),
                ),
            ),
            Option::Some(parts) => {
                let part = &parts[partition];
                let mut batches: Vec<Batch> = Vec::new();
                let mut j: usize = 0;
                while j < part.len()
                    invariant
                        part == &parts@[partition as int],
                        forall|i: int, b: int|
                            0 <= i < parts@.len() && 0 <= b < parts@[i]@.len()
                                ==> (#[trigger] parts@[i]@[b])@.schema == self.schema@,
                        partition < parts@.len(),
                        j <= part@.len(),
                        batches@.len() == j,
                        forall|b: int| 0 <= b < j ==> #[trigger] batches@[b]@ == part@[b]@,
                    decreases part.len() - j,
                {
                    batches.push(part[j].clone());
                    j += 1;
                }
                let stream = BatchStream::new(self.schema.clone(), batches);
                proof {
                    assert(stream@.remaining =~= self@.fed->Some_0[partition as int]);
                }
                Ok(stream)
            },
        }
    }
}

impl Clone for PushFeedExec {
    fn clone(&self) -> (f: PushFeedExec)
        ensures
            f@ == self@,
    {
        let fed = self.fed_owned();
        proof {
            if fed is Some {
                let parts = fed->Some_0;
                assert forall|i: int, j: int|
                    0 <= i < parts@.len() && 0 <= j < parts@[i]@.len() implies (
                #[trigger] parts@[i]@[j])@.schema == self.schema@ by {
                    assert(partitions_view(parts@)[i] == parts@[i]@.map_values(|x: Batch| x@));
                    assert(partitions_view(parts@)[i][j] == parts@[i]@[j]@);
                };
                assert(parts@.len() == partitions_view(parts@).len());
            }
        }
        let f = PushFeedExec { schema: self.schema.clone(), partitions: self.partitions, fed };
        proof {
            assert(f@ =~= self@);
        }
        f
    }
}

} // verus!
