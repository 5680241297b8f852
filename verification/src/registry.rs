//! The plan registry and wire form: a tagged-union encoding that lets any
//! concrete node kind be written down, shipped, and reconstructed by a
//! reader with no compile-time knowledge of that kind.
//!
//! Each node kind owns a unique string tag. The registry is an explicit,
//! append-only list of the tags a process accepts, populated at start-up
//! before any decode call; decoding dispatches on the tag of the wire
//! value and fails with a `NotSupported` error on any tag that was not
//! registered or is unknown — never a silent default.

use vstd::prelude::*;
use crate::batch::{Batch, BatchModel};
use crate::error::PlanError;
use crate::explain::{
    explain_schema_ok, ExplainExec, ExplainModel, StringifiedPlan, StringifiedPlanModel,
};
use crate::feed::{partitions_view, PushFeedExec, PushFeedModel};
use crate::plan::{PlanNode, PlanNodeModel};
use crate::schema::{DataType, FieldModel, Schema};

verus! {

/// The self-describing wire form of one node: its kind's tag, then the
/// kind-specific fields needed to reconstruct the node.
#[derive(Debug)]
pub struct WireNode {
    /// The registered tag of the node kind.
    pub tag: String,
    /// The kind-specific fields.
    pub fields: WireFields,
}

/// The kind-specific fields of a wire value: everything required to
/// reproduce the node's schema, children and execution output.
#[derive(Debug)]
pub enum WireFields {
    /// The explain node ships its schema and the full stringified-plan
    /// list.
    Explain { schema: Schema, stringified_plans: Vec<StringifiedPlan> },
    /// The push-feed node ships its schema, its declared partition count,
    /// and whatever contents were fed so far.
    PushFeed { schema: Schema, partition_count: usize, fed: Option<Vec<Vec<Batch>>> },
}

/// The mathematical value of a [`WireNode`].
#[verifier::ext_equal]
pub ghost struct WireNodeModel {
    pub tag: Seq<char>,
    pub fields: WireFieldsModel,
}

/// The mathematical value of [`WireFields`].
#[verifier::ext_equal]
pub ghost enum WireFieldsModel {
    Explain { schema: Seq<FieldModel>, plans: Seq<StringifiedPlanModel> },
    PushFeed { schema: Seq<FieldModel>, partitions: int, fed: Option<Seq<Seq<BatchModel>>> },
}

impl View for WireFields {
    type V = WireFieldsModel;

    open spec fn view(&self) -> WireFieldsModel {
        match self {
            WireFields::Explain { schema, stringified_plans } => WireFieldsModel::Explain {
                schema: schema@,
                plans: stringified_plans@.map_values(|p: StringifiedPlan| p@),
            },
            WireFields::PushFeed { schema, partition_count, fed } => WireFieldsModel::PushFeed {
                schema: schema@,
                partitions: *partition_count as int,
                fed: match fed {
                    Option::Some(parts) => Option::Some(partitions_view(parts@)),
                    Option::None => Option::None,
                },
            },
        }
    }
}

impl View for WireNode {
    type V = WireNodeModel;

    open spec fn view(&self) -> WireNodeModel {
        WireNodeModel { tag: self.tag@, fields: self.fields@ }
    }
}

/// The unique tag of a node kind.
pub open spec fn spec_tag_of(m: PlanNodeModel) -> Seq<char> {
    match m {
        PlanNodeModel::Explain(_) => "explain_exec"@,
        PlanNodeModel::PushFeed(_) => "push_feed_exec"@,
    }
}

/// The wire value that encodes a node: its kind's tag over its fields.
pub open spec fn spec_encode(m: PlanNodeModel) -> WireNodeModel {
    WireNodeModel {
        tag: spec_tag_of(m),
        fields: match m {
            PlanNodeModel::Explain(e) => WireFieldsModel::Explain {
                schema: e.schema,
                plans: e.plans,
            },
            PlanNodeModel::PushFeed(f) => WireFieldsModel::PushFeed {
                schema: f.schema,
                partitions: f.partitions,
                fed: f.fed,
            },
        },
    }
}

/// Whether a wire value's tag is the one its fields' kind registers
/// under. Encoding always produces a well-tagged value; a reader must
/// reject anything else.
pub open spec fn wire_well_tagged(w: WireNodeModel) -> bool {
    match w.fields {
        WireFieldsModel::Explain { .. } => w.tag == "explain_exec"@,
        WireFieldsModel::PushFeed { .. } => w.tag == "push_feed_exec"@,
    }
}

/// Whether a wire value's fields are internally consistent: an explain
/// node's shipped schema must be its two text columns, and fed contents,
/// if any, must hold one batch list per declared partition, every batch
/// under the shipped schema. Encoding a real node always produces a
/// consistent value; a reader must reject anything else.
pub open spec fn wire_consistent(w: WireNodeModel) -> bool {
    match w.fields {
        WireFieldsModel::Explain { schema, .. } => explain_schema_ok(schema),
        WireFieldsModel::PushFeed { schema, partitions, fed } => match fed {
            Option::Some(parts) => {
                &&& parts.len() == partitions
                &&& forall|i: int, j: int|
                    0 <= i < parts.len() && 0 <= j < parts[i].len() ==> (
                    #[trigger] parts[i][j]).schema == schema
            },
            Option::None => true,
        },
    }
}

/// The node a well-tagged, consistent wire value reconstructs.
pub open spec fn wire_node(w: WireNodeModel) -> PlanNodeModel {
    match w.fields {
        WireFieldsModel::Explain { schema, plans } => PlanNodeModel::Explain(
            ExplainModel { schema, plans },
        ),
        WireFieldsModel::PushFeed { schema, partitions, fed } => PlanNodeModel::PushFeed(
            PushFeedModel { schema, partitions, fed },
        ),
    }
}

/// Whether `tag` was registered.
pub open spec fn spec_registered(reg: Seq<Seq<char>>, tag: Seq<char>) -> bool {
    exists|i: int| 0 <= i < reg.len() && reg[i] == tag
}

/// When decoding succeeds: the tag must have been registered, name the
/// kind the fields belong to, and the fields must be internally
/// consistent.
pub open spec fn spec_decode_ok(reg: Seq<Seq<char>>, w: WireNodeModel) -> bool {
    &&& spec_registered(reg, w.tag)
    &&& wire_well_tagged(w)
    &&& wire_consistent(w)
}

/// The explain node's registered tag.
pub fn explain_tag() -> (t: String)
    ensures
        t@ == "explain_exec"@,
{
    String::from_str("explain_exec")
}

/// The push-feed node's registered tag.
pub fn push_feed_tag() -> (t: String)
    ensures
        t@ == "push_feed_exec"@,
{
    String::from_str("push_feed_exec")
}

/// The process-wide, append-only list of node tags a reader accepts.
/// Populated at start-up, before any decode call, and read-mostly
/// thereafter.
#[derive(Debug)]
pub struct Registry {
    tags: Vec<String>,
}

impl View for Registry {
    type V = Seq<Seq<char>>;

    closed spec fn view(&self) -> Seq<Seq<char>> {
        self.tags@.map_values(|t: String| t@)
    }
}

impl Registry {
    /// An empty registry: nothing decodes yet.
    pub fn new() -> (r: Registry)
        ensures
            r@ == Seq::<Seq<char>>::empty(),
    {
        let r = Registry { tags: Vec::new() };
        proof {
            assert(r@ =~= Seq::<Seq<char>>::empty());
        }
        r
    }

    /// Append one tag. Registration is append-only: every previously
    /// registered tag stays registered.
    pub fn register(&mut self, tag: String)
        ensures
            final(self)@ == old(self)@.push(tag@),
    {
        self.tags.push(tag);
        proof {
            assert(self@ =~= old(self)@.push(self.tags@[self.tags@.len() - 1]@));
        }
    }

    /// Whether `tag` was registered.
    pub fn is_registered(&self, tag: &String) -> (r: bool)
        ensures
            r == spec_registered(self@, tag@),
    {
        let n = self.tags.len();
        let mut i: usize = 0;
        while i < n
            invariant
                n == self.tags.len(),
                i <= n,
                forall|j: int| 0 <= j < i ==> self@[j] != tag@,
            decreases n - i,
        {
            if self.tags[i] == *tag {
                proof {
                    assert(self@[i as int] == tag@);
                }
                return true;
            }
            i += 1;
        }
        false
    }
}

/// Write a node down as its self-describing wire value: the node kind's
/// tag over the fields that reconstruct it. The result is always
/// well-tagged and consistent.
pub fn encode(node: &PlanNode) -> (w: WireNode)
    ensures
        w@ == spec_encode(node@),
        wire_well_tagged(w@),
        wire_consistent(w@),
{
    match node {
        PlanNode::Explain(e) => {
            let w = WireNode {
                tag: explain_tag(),
                fields: WireFields::Explain {
                    schema: e.schema(),
                    stringified_plans: e.plans_owned(),
                },
            };
            proof {
                assert(w@ =~= spec_encode(node@));
            }
            w
        },
        PlanNode::PushFeed(f) => {
            let w = WireNode {
                tag: push_feed_tag(),
                fields: WireFields::PushFeed {
                    schema: f.schema(),
                    partition_count: f.output_partitioning().partition_count(),
                    fed: f.fed_owned(),
                },
            };
            proof {
                assert(w@ =~= spec_encode(node@));
            }
            w
        },
    }
}

/// Reconstruct a node from a wire value. Succeeds exactly when the tag
/// was registered, names the kind of the shipped fields, and the fields
/// are internally consistent; the result then carries exactly the encoded
/// node value. An unregistered or unknown tag fails with a `NotSupported`
/// error; a registered tag over the wrong or inconsistent fields with an
/// `InvalidArgument` error.
pub fn decode(registry: &Registry, wire: WireNode) -> (r: Result<PlanNode, PlanError>)
    ensures
        r is Ok <==> spec_decode_ok(registry@, wire@),
        r is Ok ==> r->Ok_0@ == wire_node(wire@),
        !spec_registered(registry@, wire@.tag) ==> r is Err && r->Err_0 is NotSupported,
        spec_registered(registry@, wire@.tag) && wire@.tag != "explain_exec"@ && wire@.tag
            != "push_feed_exec"@ ==> r is Err && r->Err_0 is NotSupported,
        spec_registered(registry@, wire@.tag) && r is Err && (wire@.tag == "explain_exec"@
            || wire@.tag == "push_feed_exec"@) ==> r->Err_0 is InvalidArgument,
{
    proof {
        reveal_strlit("explain_exec");
        reveal_strlit("push_feed_exec");
        assert("explain_exec"@.len() == 12);
        assert("push_feed_exec"@.len() == 14);
        assert("explain_exec"@ != "push_feed_exec"@);
    }
    let WireNode { tag, fields } = wire;
    proof {
        assert(wire@ == (WireNodeModel { tag: tag@, fields: fields@ }));
    }
    if !registry.is_registered(&tag) {
        return Err(
            PlanError::NotSupported(String::from_str("wire tag was not registered")),
        );
    }
    let explain = explain_tag();
    let push_feed = push_feed_tag();
    if tag == explain {
        match fields {
            WireFields::Explain { schema, stringified_plans } => {
                let fits = schema.len() == 2
                    && matches!(schema.field(0).data_type, DataType::Utf8)
                    && matches!(schema.field(1).data_type, DataType::Utf8);
                if !fits {
                    return Err(
                        PlanError::InvalidArgument(
                            String::from_str("wire schema does not fit the explain node"),
                        ),
                    );
                }
                let node = PlanNode::Explain(ExplainExec::new(schema, stringified_plans));
                proof {
                    assert(node@ =~= wire_node(wire@));
                }
                Ok(node)
            },
            _ => Err(
                PlanError::InvalidArgument(
                    String::from_str("wire fields do not belong to the explain tag"),
                ),
            ),
        }
    } else if tag == push_feed {
        match fields {
            WireFields::PushFeed { schema, partition_count, fed } => {
                let mut node = PushFeedExec::new(schema, partition_count);
                match fed {
                    Option::None => (),
                    Option::Some(parts) => {
                        match node.feed_batches(parts) {
                            Ok(_) => (),
                            Err(_) => {
                                return Err(
                                    PlanError::InvalidArgument(
                                        String::from_str(
                                            "wire fed contents do not fit the shipped node",
                                        ),
                                    ),
                                );
                            },
                        }
                    },
                }
                let node = PlanNode::PushFeed(node);
                proof {
                    assert(node@ =~= wire_node(wire@));
                }
                Ok(node)
            },
            _ => Err(
                PlanError::InvalidArgument(
                    String::from_str("wire fields do not belong to the push-feed tag"),
                ),
            ),
        }
    } else {
        Err(
            PlanError::NotSupported(String::from_str("wire tag names no known node kind")),
        )
    }
}

/// Law: encoding any node under a registry that holds the node's tag
/// decodes back to the identical node value — same schema, same children,
/// same execution output.
pub proof fn lemma_encode_decode_round_trip(reg: Seq<Seq<char>>, m: PlanNodeModel)
    requires
        spec_registered(reg, spec_tag_of(m)),
        wire_consistent(spec_encode(m)),
    ensures
        spec_decode_ok(reg, spec_encode(m)),
        wire_node(spec_encode(m)) == m,
{
}

} // verus!
