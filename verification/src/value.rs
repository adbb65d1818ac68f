//! Output values produced by resolution.
//!
//! A `Value` is the recursive tree handed back to the executor: null,
//! a scalar leaf, an ordered list, or an ordered field map. A
//! resolution that cannot proceed reports a `FieldError` instead.

use vstd::prelude::*;
use crate::scalar::{MyScalarValue, SpecScalar};

verus! {

/// Mathematical model of an output tree.
pub enum SpecOutput {
    Null,
    Scalar(SpecScalar),
    List(Seq<SpecOutput>),
    Object(Seq<(Seq<char>, SpecOutput)>),
}

/// An output node. Object fields keep their insertion order.
#[derive(Debug, PartialEq, Eq)]
pub enum Value {
    Null,
    Scalar(MyScalarValue),
    List(Vec<Value>),
    Object(Vec<(String, Value)>),
}

impl Value {
    /// The model of this tree: every vector becomes a sequence and
    /// every string its character sequence.
    pub open spec fn model(self) -> SpecOutput
        decreases self, 1int,
    {
        match self {
            Value::Null => SpecOutput::Null,
            Value::Scalar(s) => SpecOutput::Scalar(s@),
            Value::List(vs) => {
                proof {
                    assert(decreases_to!(self => vs));
                    assert(decreases_to!(vs => vs@));
                }
                SpecOutput::List(Value::model_seq(vs@))
            },
            Value::Object(fs) => {
                proof {
                    assert(decreases_to!(self => fs));
                    assert(decreases_to!(fs => fs@));
                }
                SpecOutput::Object(Value::model_fields(fs@))
            },
        }
    }

    /// The models of a vector of output values, in order.
    pub open spec fn model_seq(vs: Seq<Value>) -> Seq<SpecOutput>
        decreases vs, 0int,
    {
        if vs.len() == 0 {
            Seq::<SpecOutput>::empty()
        } else {
            proof {
                assert(decreases_to!(vs => vs[vs.len() - 1]));
            }
            Value::model_seq(vs.drop_last()).push(vs.last().model())
        }
    }

    /// The models of an ordered field map, keys as character sequences.
    pub open spec fn model_fields(fs: Seq<(String, Value)>) -> Seq<(Seq<char>, SpecOutput)>
        decreases fs, 0int,
    {
        if fs.len() == 0 {
            Seq::<(Seq<char>, SpecOutput)>::empty()
        } else {
            proof {
                assert(decreases_to!(fs => fs[fs.len() - 1]));
            }
            Value::model_fields(fs.drop_last()).push((fs.last().0@, fs.last().1.model()))
        }
    }

    /// The model of a vector of output values is the pointwise model.
    pub proof fn lemma_model_seq_points(vs: Seq<Value>)
        ensures
            Value::model_seq(vs).len() == vs.len(),
            forall|i: int| 0 <= i < vs.len()
                ==> Value::model_seq(vs)[i] == (#[trigger] vs[i]).model(),
        decreases vs.len(),
    {
        if vs.len() > 0 {
            Value::lemma_model_seq_points(vs.drop_last());
            assert forall|i: int| 0 <= i < vs.len()
                implies Value::model_seq(vs)[i] == (#[trigger] vs[i]).model() by {
                if i < vs.len() - 1 {
                    assert(vs.drop_last()[i] == vs[i]);
                } else {
                    assert(vs[i] == vs.last());
                }
            }
        }
    }

    /// The model of an ordered field map is the pointwise model.
    pub proof fn lemma_model_fields_points(fs: Seq<(String, Value)>)
        ensures
            Value::model_fields(fs).len() == fs.len(),
            forall|i: int| 0 <= i < fs.len()
                ==> Value::model_fields(fs)[i] == ((#[trigger] fs[i]).0@, fs[i].1.model()),
        decreases fs.len(),
    {
        if fs.len() > 0 {
            Value::lemma_model_fields_points(fs.drop_last());
            assert forall|i: int| 0 <= i < fs.len()
                implies Value::model_fields(fs)[i] == ((#[trigger] fs[i]).0@, fs[i].1.model()) by {
                if i < fs.len() - 1 {
                    assert(fs.drop_last()[i] == fs[i]);
                } else {
                    assert(fs[i] == fs.last());
                }
            }
        }
    }

    /// The canonical null output node.
    pub fn null() -> (r: Value)
        ensures
            r@ == SpecOutput::Null,
    {
        Value::Null
    }

    /// A scalar output leaf.
    pub fn scalar(s: MyScalarValue) -> (r: Value)
        ensures
            r@ == SpecOutput::Scalar(s@),
    {
        Value::Scalar(s)
    }

    /// An ordered list output node.
    pub fn list(vs: Vec<Value>) -> (r: Value)
        ensures
            r@ == SpecOutput::List(Value::model_seq(vs@)),
    {
        Value::List(vs)
    }

    /// Whether this node is the null node.
    pub fn is_null(&self) -> (r: bool)
        ensures
            r == (self@ is Null),
    {
        match self {
            Value::Null => true,
            _ => false,
        }
    }
}

impl View for Value {
    type V = SpecOutput;

    open spec fn view(&self) -> SpecOutput {
        self.model()
    }
}

/// Why a resolution could not produce an output node.
/// `SchemaInconsistency` reports an engine-wiring defect — list
/// resolution requested at a schema position that is not list-typed —
/// which no well-formed request can cause. Verified callers are barred
/// from that position by the resolvers' preconditions; an unverified
/// caller that reaches it anyway gets this hard error back, aborting
/// resolution of the subtree rather than being a recoverable
/// per-request error.
#[derive(Debug, PartialEq, Eq, Clone)]
pub enum FieldError {
    SchemaInconsistency,
    Message(String),
}

/// What resolving one value produces: an output node or the error
/// that aborted the subtree.
pub type ExecutionResult = Result<Value, FieldError>;

/// The model of a resolution result.
pub open spec fn result_model(r: ExecutionResult) -> Result<SpecOutput, FieldError> {
    match r {
        Ok(v) => Ok(v@),
        Err(e) => Err(e),
    }
}

} // verus!
