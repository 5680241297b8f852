//! How a node distributes its output rows over independent partitions.

use vstd::prelude::*;

verus! {

/// The distribution strategy of a node's output. The descriptor is attached
/// to the node, not to a stream, and is consistent across calls: it declares
/// up front how many partition indices `execute` accepts.
#[derive(Debug)]
pub enum Partitioning {
    /// One unpartitioned output.
    SinglePartition,
    /// A declared number of partitions with unknown distribution.
    UnknownPartitioning(usize),
    /// Rows distributed by hashing the named columns, over a declared
    /// number of partitions.
    HashPartitioning(Vec<String>, usize),
}

/// The mathematical value of a [`Partitioning`].
pub ghost enum PartitioningModel {
    SinglePartition,
    UnknownPartitioning(int),
    HashPartitioning(Seq<Seq<char>>, int),
}

impl View for Partitioning {
    type V = PartitioningModel;

    open spec fn view(&self) -> PartitioningModel {
        match self {
            Partitioning::SinglePartition => PartitioningModel::SinglePartition,
            Partitioning::UnknownPartitioning(n) => PartitioningModel::UnknownPartitioning(
                *n as int,
            ),
            Partitioning::HashPartitioning(cols, n) => PartitioningModel::HashPartitioning(
                cols@.map_values(|c: String| c@),
                *n as int,
            ),
        }
    }
}

/// The number of partition indices the descriptor declares.
pub open spec fn spec_partition_count(m: PartitioningModel) -> int {
    match m {
        PartitioningModel::SinglePartition => 1,
        PartitioningModel::UnknownPartitioning(n) => n,
        PartitioningModel::HashPartitioning(_, n) => n,
    }
}

impl Partitioning {
    /// How many partitions `execute` supports: indices `0` to one less
    /// than this count.
    pub fn partition_count(&self) -> (n: usize)
        ensures
            n == spec_partition_count(self@),
    {
        match self {
            Partitioning::SinglePartition => 1,
            Partitioning::UnknownPartitioning(n) => *n,
            Partitioning::HashPartitioning(_, n) => *n,
        }
    }
}

impl Clone for Partitioning {
    fn clone(&self) -> (p: Partitioning)
        ensures
            p@ == self@,
    {
        match self {
            Partitioning::SinglePartition => Partitioning::SinglePartition,
            Partitioning::UnknownPartitioning(n) => Partitioning::UnknownPartitioning(*n),
            Partitioning::HashPartitioning(cols, n) => {
                let mut named: Vec<String> = Vec::new();
                let mut i: usize = 0;
                while i < cols.len()
                    invariant
                        i <= cols.len(),
                        named@.len() == i,
                        forall|j: int| 0 <= j < i ==> #[trigger] named@[j]@ == cols@[j]@,
                    decreases cols.len() - i,
                {
                    named.push(cols[i].clone());
                    i += 1;
                }
                proof {
                    assert(named@.map_values(|c: String| c@) =~= cols@.map_values(
                        |c: String| c@,
                    ));
                }
                Partitioning::HashPartitioning(named, *n)
            },
        }
    }
}

} // verus!
