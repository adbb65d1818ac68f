//! Wire input values and their conversion to and from native types.
//!
//! `InputValue` is the recursive tree a parsed literal or bound
//! variable arrives in. The `FromInputValue` / `ToInputValue` traits
//! carry values across the wire/native boundary; implementations are
//! given for the scalar leaves and for the optional and sequence
//! composites. Sequence conversion is all-or-nothing: one
//! unconvertible element fails the enclosing conversion as a unit.

use vstd::prelude::*;
use crate::scalar::{MyScalarValue, SpecScalar};

verus! {

/// Mathematical model of a wire input tree.
pub enum SpecInput {
    Null,
    Scalar(SpecScalar),
    Enum(Seq<char>),
    Variable(Seq<char>),
    List(Seq<SpecInput>),
    Object(Seq<(Seq<char>, SpecInput)>),
}

/// A parsed literal or bound variable, before conversion to native
/// form. Object entries keep their insertion order.
#[derive(Debug, PartialEq, Eq)]
pub enum InputValue {
    Null,
    Scalar(MyScalarValue),
    Enum(String),
    Variable(String),
    List(Vec<InputValue>),
    Object(Vec<(String, InputValue)>),
}

impl InputValue {
    /// The model of this tree: every vector becomes a sequence and
    /// every string its character sequence.
    pub open spec fn model(self) -> SpecInput
        decreases self, 1int,
    {
        match self {
            InputValue::Null => SpecInput::Null,
            InputValue::Scalar(s) => SpecInput::Scalar(s@),
            InputValue::Enum(n) => SpecInput::Enum(n@),
            InputValue::Variable(n) => SpecInput::Variable(n@),
            InputValue::List(vs) => {
                proof {
                    assert(decreases_to!(self => vs));
                    assert(decreases_to!(vs => vs@));
                }
                SpecInput::List(InputValue::model_seq(vs@))
            },
            InputValue::Object(fs) => {
                proof {
                    assert(decreases_to!(self => fs));
                    assert(decreases_to!(fs => fs@));
                }
                SpecInput::Object(InputValue::model_fields(fs@))
            },
        }
    }

    /// The models of a vector of input values, in order.
    pub open spec fn model_seq(vs: Seq<InputValue>) -> Seq<SpecInput>
        decreases vs, 0int,
    {
        if vs.len() == 0 {
            Seq::<SpecInput>::empty()
        } else {
            proof {
                assert(decreases_to!(vs => vs[vs.len() - 1]));
            }
            InputValue::model_seq(vs.drop_last()).push(vs.last().model())
        }
    }

    /// The models of an ordered field map, keys as character sequences.
    pub open spec fn model_fields(fs: Seq<(String, InputValue)>) -> Seq<(Seq<char>, SpecInput)>
        decreases fs, 0int,
    {
        if fs.len() == 0 {
            Seq::<(Seq<char>, SpecInput)>::empty()
        } else {
            proof {
                assert(decreases_to!(fs => fs[fs.len() - 1]));
            }
            InputValue::model_fields(fs.drop_last()).push((fs.last().0@, fs.last().1.model()))
        }
    }

    /// The model of a vector of input values is the pointwise model.
    pub proof fn lemma_model_seq_points(vs: Seq<InputValue>)
        ensures
            InputValue::model_seq(vs).len() == vs.len(),
            forall|i: int| 0 <= i < vs.len()
                ==> InputValue::model_seq(vs)[i] == (#[trigger] vs[i]).model(),
        decreases vs.len(),
    {
        if vs.len() > 0 {
            InputValue::lemma_model_seq_points(vs.drop_last());
            assert forall|i: int| 0 <= i < vs.len()
                implies InputValue::model_seq(vs)[i] == (#[trigger] vs[i]).model() by {
                if i < vs.len() - 1 {
                    assert(vs.drop_last()[i] == vs[i]);
                } else {
                    assert(vs[i] == vs.last());
                }
            }
        }
    }

    /// Converts this input value to a native value of type `T`.
    pub fn convert<T: FromInputValue>(&self) -> (r: Option<T>)
        ensures
            r.deep_view() == T::from_input_model(self@),
    {
        T::from_input_value(self)
    }
}

impl View for InputValue {
    type V = SpecInput;

    open spec fn view(&self) -> SpecInput {
        self.model()
    }
}

/// Conversion from a wire input value to a native value. `None` means
/// the input has the wrong shape for the target type; the caller
/// surfaces that as a coercion error one level up.
pub trait FromInputValue: DeepView + Sized {
    /// Which inputs convert, and to what, stated over models.
    spec fn from_input_model(v: SpecInput) -> Option<Self::V>;

    fn from_input_value(v: &InputValue) -> (r: Option<Self>)
        ensures
            r.deep_view() == Self::from_input_model(v@),
    ;
}

/// Conversion from a native value back to a wire input value.
pub trait ToInputValue: DeepView {
    /// The produced input tree, stated over models.
    spec fn to_input_model(m: Self::V) -> SpecInput;

    fn to_input_value(&self) -> (r: InputValue)
        ensures
            r@ == Self::to_input_model(self.deep_view()),
    ;
}

impl FromInputValue for i64 {
    open spec fn from_input_model(v: SpecInput) -> Option<i64> {
        match v {
            SpecInput::Scalar(SpecScalar::Long(i)) => Some(i),
            _ => None,
        }
    }

    fn from_input_value(v: &InputValue) -> (r: Option<i64>) {
        match v {
            InputValue::Scalar(MyScalarValue::Long(i)) => Some(*i),
            _ => None,
        }
    }
}

impl ToInputValue for i64 {
    open spec fn to_input_model(m: i64) -> SpecInput {
        SpecInput::Scalar(SpecScalar::Long(m))
    }

    fn to_input_value(&self) -> (r: InputValue) {
        InputValue::Scalar(MyScalarValue::Long(*self))
    }
}

impl FromInputValue for i32 {
    open spec fn from_input_model(v: SpecInput) -> Option<i32> {
        match v {
            SpecInput::Scalar(SpecScalar::Int(i)) => Some(i),
            _ => None,
        }
    }

    fn from_input_value(v: &InputValue) -> (r: Option<i32>) {
        match v {
            InputValue::Scalar(MyScalarValue::Int(i)) => Some(*i),
            _ => None,
        }
    }
}

impl ToInputValue for i32 {
    open spec fn to_input_model(m: i32) -> SpecInput {
        SpecInput::Scalar(SpecScalar::Int(m))
    }

    fn to_input_value(&self) -> (r: InputValue) {
        InputValue::Scalar(MyScalarValue::Int(*self))
    }
}

impl FromInputValue for bool {
    open spec fn from_input_model(v: SpecInput) -> Option<bool> {
        match v {
            SpecInput::Scalar(SpecScalar::Boolean(b)) => Some(b),
            _ => None,
        }
    }

    fn from_input_value(v: &InputValue) -> (r: Option<bool>) {
        match v {
            InputValue::Scalar(MyScalarValue::Boolean(b)) => Some(*b),
            _ => None,
        }
    }
}

impl ToInputValue for bool {
    open spec fn to_input_model(m: bool) -> SpecInput {
        SpecInput::Scalar(SpecScalar::Boolean(m))
    }

    fn to_input_value(&self) -> (r: InputValue) {
        InputValue::Scalar(MyScalarValue::Boolean(*self))
    }
}

impl FromInputValue for String {
    open spec fn from_input_model(v: SpecInput) -> Option<Seq<char>> {
        match v {
            SpecInput::Scalar(SpecScalar::Str(s)) => Some(s),
            _ => None,
        }
    }

    fn from_input_value(v: &InputValue) -> (r: Option<String>) {
        match v {
            InputValue::Scalar(MyScalarValue::String(s)) => Some(s.clone()),
            _ => None,
        }
    }
}

impl ToInputValue for String {
    open spec fn to_input_model(m: Seq<char>) -> SpecInput {
        SpecInput::Scalar(SpecScalar::Str(m))
    }

    fn to_input_value(&self) -> (r: InputValue) {
        InputValue::Scalar(MyScalarValue::String(self.clone()))
    }
}

impl<T: FromInputValue> FromInputValue for Option<T> {
    /// Null becomes the present-but-empty state; anything else is
    /// converted as the element type, and a failed element conversion
    /// propagates.
    open spec fn from_input_model(v: SpecInput) -> Option<Option<T::V>> {
        match v {
            SpecInput::Null => Some(None),
            _ => match T::from_input_model(v) {
                Some(m) => Some(Some(m)),
                None => None,
            },
        }
    }

    fn from_input_value(v: &InputValue) -> (r: Option<Option<T>>) {
        match v {
            InputValue::Null => Some(None),
            other => match T::from_input_value(other) {
                Some(x) => Some(Some(x)),
                None => None,
            },
        }
    }
}

impl<T: ToInputValue> ToInputValue for Option<T> {
    open spec fn to_input_model(m: Option<T::V>) -> SpecInput {
        match m {
            None => SpecInput::Null,
            Some(x) => T::to_input_model(x),
        }
    }

    fn to_input_value(&self) -> (r: InputValue) {
        match self {
            None => InputValue::Null,
            Some(x) => x.to_input_value(),
        }
    }
}

/// The element conversions of `s` that succeed, in order. Sequence
/// conversion succeeds exactly when no element is dropped here, and a
/// fixed-arity conversion exactly when this count equals the arity.
pub open spec fn spec_successes<T: FromInputValue>(s: Seq<SpecInput>) -> Seq<T::V>
    decreases s.len(),
{
    if s.len() == 0 {
        Seq::<T::V>::empty()
    } else {
        let rest = spec_successes::<T>(s.drop_last());
        match T::from_input_model(s.last()) {
            Some(m) => rest.push(m),
            None => rest,
        }
    }
}

/// At most one converted element per source element.
pub proof fn lemma_successes_len_le<T: FromInputValue>(s: Seq<SpecInput>)
    ensures
        spec_successes::<T>(s).len() <= s.len(),
    decreases s.len(),
{
    if s.len() > 0 {
        lemma_successes_len_le::<T>(s.drop_last());
    }
}

/// One failing element strictly shrinks the converted sequence.
pub proof fn lemma_failed_element_shrinks<T: FromInputValue>(s: Seq<SpecInput>, i: int)
    requires
        0 <= i < s.len(),
        T::from_input_model(s[i]) is None,
    ensures
        spec_successes::<T>(s).len() < s.len(),
    decreases s.len(),
{
    if i == s.len() - 1 {
        lemma_successes_len_le::<T>(s.drop_last());
    } else {
        lemma_failed_element_shrinks::<T>(s.drop_last(), i);
    }
}

/// When every element converts, conversion drops nothing and keeps the
/// source order: position `i` of the result is the conversion of
/// position `i` of the source.
pub proof fn lemma_all_convert<T: FromInputValue>(s: Seq<SpecInput>)
    requires
        forall|i: int| 0 <= i < s.len() ==> (#[trigger] T::from_input_model(s[i])) is Some,
    ensures
        spec_successes::<T>(s).len() == s.len(),
        forall|i: int| 0 <= i < s.len()
            ==> #[trigger] T::from_input_model(s[i]) == Some(spec_successes::<T>(s)[i]),
    decreases s.len(),
{
    if s.len() > 0 {
        assert(forall|i: int| 0 <= i < s.len() - 1
            ==> s.drop_last()[i] == s[i]);
        lemma_all_convert::<T>(s.drop_last());
    }
}

/// A list with one unconvertible element never converts to a
/// variable-length sequence: the failure voids the whole conversion.
pub proof fn lemma_unconvertible_element_fails_sequence<T: FromInputValue>(
    s: Seq<SpecInput>,
    i: int,
)
    requires
        0 <= i < s.len(),
        T::from_input_model(s[i]) is None,
    ensures
        <Vec<T> as FromInputValue>::from_input_model(SpecInput::List(s)) is None,
{
    lemma_failed_element_shrinks::<T>(s, i);
}

impl<T: FromInputValue> FromInputValue for Vec<T> {
    /// A list converts if and only if every element converts; a
    /// non-list converts as a single element coerced to a one-element
    /// sequence.
    open spec fn from_input_model(v: SpecInput) -> Option<Seq<T::V>> {
        match v {
            SpecInput::List(ls) => if spec_successes::<T>(ls).len() == ls.len() {
                Some(spec_successes::<T>(ls))
            } else {
                None
            },
            _ => match T::from_input_model(v) {
                Some(m) => Some(seq![m]),
                None => None,
            },
        }
    }

    fn from_input_value(v: &InputValue) -> (r: Option<Vec<T>>) {
        match v {
            InputValue::List(ls) => {
                let ghost lsm = InputValue::model_seq(ls@);
                proof {
                    InputValue::lemma_model_seq_points(ls@);
                }
                let mut out: Vec<T> = Vec::new();
                for i in 0..ls.len()
                    invariant
                        lsm == InputValue::model_seq(ls@),
                        lsm.len() == ls@.len(),
                        forall|j: int| 0 <= j < ls@.len()
                            ==> lsm[j] == (#[trigger] ls@[j]).model(),
                        out.deep_view() == spec_successes::<T>(lsm.take(i as int)),
                {
                    proof {
                        assert(lsm.take(i + 1).drop_last() =~= lsm.take(i as int));
                        assert(lsm.take(i + 1).last() == ls@[i as int].model());
                    }
                    match T::from_input_value(&ls[i]) {
                        Some(t) => {
                            let ghost prev = out.deep_view();
                            out.push(t);
                            proof {
                                assert(out.deep_view() =~= prev.push(t.deep_view()));
                            }
                        },
                        None => {},
                    }
                }
                proof {
                    assert(lsm.take(ls@.len() as int) =~= lsm);
                }
                if out.len() == ls.len() {
                    Some(out)
                } else {
                    proof {
                        lemma_successes_len_le::<T>(lsm);
                    }
                    None
                }
            },
            other => match T::from_input_value(other) {
                Some(e) => {
                    let mut out: Vec<T> = Vec::new();
                    let ghost ev = e.deep_view();
                    out.push(e);
                    proof {
                        assert(out.deep_view() =~= seq![ev]);
                    }
                    Some(out)
                },
                None => None,
            },
        }
    }
}

impl<T: ToInputValue> ToInputValue for Vec<T> {
    /// Every element through its own conversion, in order.
    open spec fn to_input_model(m: Seq<T::V>) -> SpecInput {
        SpecInput::List(Seq::new(m.len(), |i: int| T::to_input_model(m[i])))
    }

    fn to_input_value(&self) -> (r: InputValue) {
        let mut out: Vec<InputValue> = Vec::new();
        for i in 0..self.len()
            invariant
                out@.len() == i,
                forall|j: int| 0 <= j < i
                    ==> #[trigger] out@[j]@ == T::to_input_model(self.deep_view()[j]),
        {
            out.push(self[i].to_input_value());
        }
        proof {
            InputValue::lemma_model_seq_points(out@);
            let goal = Seq::new(self.deep_view().len(), |i: int| T::to_input_model(self.deep_view()[i]));
            assert forall|i: int| 0 <= i < out@.len()
                implies InputValue::model_seq(out@)[i] == goal[i] by {
                assert(out@[i]@ == T::to_input_model(self.deep_view()[i]));
            }
            assert(InputValue::model_seq(out@) =~= goal);
        }
        InputValue::List(out)
    }
}

} // verus!
