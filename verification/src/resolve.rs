//! List resolution with null propagation.
//!
//! Resolving a sequence walks its elements in declaration order and
//! applies the engine's null-propagation rule at the list boundary:
//! when the declared element type of the current schema position is
//! non-null and an element resolves to null, the whole list is voided
//! to null, discarding the elements already resolved. Otherwise every
//! element result, nulls included, is accumulated in order.
//!
//! Two forms are provided and proved to agree: a one-shot resolver
//! (`resolve_into_list`) and a step machine (`resolve_list_step` /
//! `resolve_list_finish`) that consumes element results one at a time
//! in declaration order. A concurrent driver can compute element
//! results in any completion order, drain them through the step
//! machine in declaration order, and — by the agreement lemma — is
//! guaranteed the same outcome as the one-shot resolver; once the
//! machine reports a settled outcome, the remaining element results
//! can simply be discarded.

use vstd::prelude::*;
use crate::fixed::FixedList;
use crate::schema::{Executor, TypeDescriptor};
use crate::value::{ExecutionResult, FieldError, SpecOutput, Value, result_model};

verus! {

/// What resolving one value produces, stated over models.
pub trait GraphQLValue: DeepView {
    /// When the execution position structurally fits the value: a
    /// sequence must stand at a list-typed position, recursively for
    /// its elements at the contents position. Anything else is a
    /// schema-wiring defect that must fail hard, so resolution leaves
    /// those positions out of its contract.
    spec fn resolve_requires(m: Self::V, ex: Executor) -> bool;

    /// The outcome of resolving a value with this model at the given
    /// execution position.
    spec fn resolve_model(m: Self::V, ex: Executor) -> Result<SpecOutput, FieldError>;

    fn resolve(&self, executor: &Executor) -> (r: ExecutionResult)
        requires
            Self::resolve_requires(self.deep_view(), *executor),
        ensures
            result_model(r) == Self::resolve_model(self.deep_view(), *executor),
    ;

    /// The concrete type name the value reports for dynamic dispatch;
    /// structural composites report none.
    spec fn concrete_type_name_model(m: Self::V) -> Option<Seq<char>>;

    fn concrete_type_name(&self) -> (n: Option<&'static str>)
        ensures
            n.deep_view() == Self::concrete_type_name_model(self.deep_view()),
    ;
}

/// One-shot outcome of a list resolution, given the declared
/// non-nullness of the element position and the element results in
/// declaration order: the first error aborts, a null element at a
/// non-null position voids the whole list, otherwise all element
/// values are kept in order.
pub open spec fn spec_list_outcome(
    stop_on_null: bool,
    rs: Seq<Result<SpecOutput, FieldError>>,
) -> Result<SpecOutput, FieldError>
    decreases rs.len(),
{
    if rs.len() == 0 {
        Ok(SpecOutput::List(Seq::<SpecOutput>::empty()))
    } else {
        match rs[0] {
            Err(e) => Err(e),
            Ok(v) => if stop_on_null && (v is Null) {
                Ok(SpecOutput::Null)
            } else {
                match spec_list_outcome(stop_on_null, rs.drop_first()) {
                    Err(e) => Err(e),
                    Ok(SpecOutput::List(tail)) => Ok(SpecOutput::List(seq![v] + tail)),
                    Ok(_) => Ok(SpecOutput::Null),
                }
            },
        }
    }
}

/// Outcome of draining element results one at a time in declaration
/// order, carrying the values accumulated so far.
pub open spec fn spec_drain(
    stop_on_null: bool,
    acc: Seq<SpecOutput>,
    rs: Seq<Result<SpecOutput, FieldError>>,
) -> Result<SpecOutput, FieldError>
    decreases rs.len(),
{
    if rs.len() == 0 {
        Ok(SpecOutput::List(acc))
    } else {
        match rs[0] {
            Err(e) => Err(e),
            Ok(v) => if stop_on_null && (v is Null) {
                Ok(SpecOutput::Null)
            } else {
                spec_drain(stop_on_null, acc.push(v), rs.drop_first())
            },
        }
    }
}

/// Draining element results in declaration order agrees with the
/// one-shot outcome: the accumulated prefix is simply prepended to
/// whatever the remaining results produce.
pub proof fn lemma_drain_agrees(
    stop_on_null: bool,
    acc: Seq<SpecOutput>,
    rs: Seq<Result<SpecOutput, FieldError>>,
)
    ensures
        spec_drain(stop_on_null, acc, rs) == (match spec_list_outcome(stop_on_null, rs) {
            Err(e) => Err::<SpecOutput, FieldError>(e),
            Ok(SpecOutput::List(tail)) => Ok(SpecOutput::List(acc + tail)),
            Ok(_) => Ok(SpecOutput::Null),
        }),
    decreases rs.len(),
{
    if rs.len() == 0 {
        assert(acc + Seq::<SpecOutput>::empty() =~= acc);
    } else {
        match rs[0] {
            Err(e) => {},
            Ok(v) => {
                if !(stop_on_null && (v is Null)) {
                    lemma_drain_agrees(stop_on_null, acc.push(v), rs.drop_first());
                    match spec_list_outcome(stop_on_null, rs.drop_first()) {
                        Ok(SpecOutput::List(tail)) => {
                            assert(acc.push(v) + tail =~= acc + (seq![v] + tail));
                        },
                        _ => {},
                    }
                }
            },
        }
    }
}

/// The two resolution algorithms agree: draining from an empty
/// accumulator is exactly the one-shot outcome.
pub proof fn lemma_drain_equals_outcome(
    stop_on_null: bool,
    rs: Seq<Result<SpecOutput, FieldError>>,
)
    ensures
        spec_drain(stop_on_null, Seq::<SpecOutput>::empty(), rs)
            == spec_list_outcome(stop_on_null, rs),
{
    lemma_drain_agrees(stop_on_null, Seq::<SpecOutput>::empty(), rs);
    match spec_list_outcome(stop_on_null, rs) {
        Ok(SpecOutput::List(tail)) => {
            assert(Seq::<SpecOutput>::empty() + tail =~= tail);
        },
        _ => {},
    }
}

/// State of a list resolution that consumes element results one at a
/// time: either still collecting, or settled on an outcome that no
/// further element result can change.
pub enum ListDrain {
    Continue(Vec<Value>),
    Done(ExecutionResult),
}

/// Feeds the next element result, in declaration order, into a list
/// resolution. Once this settles on `Done`, the outcome holds no
/// matter what the remaining element results are, so a concurrent
/// driver may abandon them by simply discarding their results.
pub fn resolve_list_step(stop_on_null: bool, acc: Vec<Value>, next: ExecutionResult) -> (r:
    ListDrain)
    ensures
        match r {
            ListDrain::Continue(acc2) => forall|rest: Seq<Result<SpecOutput, FieldError>>|
                #[trigger] spec_drain(stop_on_null, Value::model_seq(acc2@), rest)
                    == spec_drain(
                    stop_on_null,
                    Value::model_seq(acc@),
                    seq![result_model(next)] + rest,
                ),
            ListDrain::Done(res) => forall|rest: Seq<Result<SpecOutput, FieldError>>|
                #[trigger] spec_drain(
                    stop_on_null,
                    Value::model_seq(acc@),
                    seq![result_model(next)] + rest,
                ) == result_model(res),
        },
{
    match next {
        Err(e) => {
            proof {
                assert forall|rest: Seq<Result<SpecOutput, FieldError>>|
                    #[trigger] spec_drain(
                        stop_on_null,
                        Value::model_seq(acc@),
                        seq![result_model(Err::<Value, FieldError>(e))] + rest,
                    ) == Err::<SpecOutput, FieldError>(e) by {
                    assert((seq![result_model(Err::<Value, FieldError>(e))] + rest)[0]
                        == result_model(Err::<Value, FieldError>(e)));
                }
            }
            ListDrain::Done(Err(e))
        },
        Ok(val) => {
            if stop_on_null && val.is_null() {
                proof {
                    assert forall|rest: Seq<Result<SpecOutput, FieldError>>|
                        #[trigger] spec_drain(
                            stop_on_null,
                            Value::model_seq(acc@),
                            seq![result_model(Ok::<Value, FieldError>(val))] + rest,
                        ) == Ok::<SpecOutput, FieldError>(val@) by {
                        assert((seq![result_model(Ok::<Value, FieldError>(val))] + rest)[0]
                            == result_model(Ok::<Value, FieldError>(val)));
                    }
                }
                ListDrain::Done(Ok(val))
            } else {
                let ghost prev = acc@;
                let ghost valm = val@;
                let mut acc2 = acc;
                acc2.push(val);
                proof {
                    assert(acc2@.drop_last() =~= prev);
                    assert(Value::model_seq(acc2@)
                        == Value::model_seq(prev).push(valm));
                    assert forall|rest: Seq<Result<SpecOutput, FieldError>>|
                        #[trigger] spec_drain(stop_on_null, Value::model_seq(acc2@), rest)
                            == spec_drain(
                            stop_on_null,
                            Value::model_seq(prev),
                            seq![Ok::<SpecOutput, FieldError>(valm)] + rest,
                        ) by {
                        let whole = seq![Ok::<SpecOutput, FieldError>(valm)] + rest;
                        assert(whole[0] == Ok::<SpecOutput, FieldError>(valm));
                        assert(whole.drop_first() =~= rest);
                    }
                }
                ListDrain::Continue(acc2)
            }
        },
    }
}

/// Closes a list resolution that consumed every element result
/// without settling: the accumulated values become the output list.
pub fn resolve_list_finish(vals: Vec<Value>) -> (r: ExecutionResult)
    ensures
        result_model(r) == Ok::<SpecOutput, FieldError>(
            SpecOutput::List(Value::model_seq(vals@)),
        ),
{
    Ok(Value::List(vals))
}

/// When a sequence with element models `m` may be resolved at the
/// position `ex`: the position must be list-typed, and every element
/// must itself be resolvable at the declared contents position.
pub open spec fn spec_list_resolve_requires<T: GraphQLValue>(m: Seq<T::V>, ex: Executor) -> bool {
    match ex.current_type.spec_list_contents() {
        None => false,
        Some(contents) => forall|i: int| 0 <= i < m.len()
            ==> T::resolve_requires(#[trigger] m[i], Executor { current_type: contents }),
    }
}

/// The outcome of resolving a sequence with element models `m` at the
/// position `ex`: a schema-consistency error when the position is not
/// list-typed, otherwise the one-shot outcome over the elements
/// resolved at the contents position.
pub open spec fn spec_resolve_list_model<T: GraphQLValue>(
    m: Seq<T::V>,
    ex: Executor,
) -> Result<SpecOutput, FieldError> {
    match ex.current_type.spec_list_contents() {
        None => Err(FieldError::SchemaInconsistency),
        Some(contents) => spec_list_outcome(
            contents.spec_is_non_null(),
            Seq::new(m.len(), |i: int| T::resolve_model(m[i], Executor { current_type: contents })),
        ),
    }
}

/// Resolves the elements of a sequence in declaration order, applying
/// the null-propagation rule of the current schema position. A
/// non-list position is a schema-wiring defect that no well-formed
/// engine can produce, so the contract leaves it out; an unverified
/// caller that reaches it anyway gets the hard schema-inconsistency
/// error back.
pub fn resolve_into_list<T: GraphQLValue>(executor: &Executor, items: &Vec<T>) -> (r:
    ExecutionResult)
    requires
        spec_list_resolve_requires::<T>(items.deep_view(), *executor),
    ensures
        result_model(r) == spec_resolve_list_model::<T>(items.deep_view(), *executor),
{
    let contents = match executor.current_type.list_contents() {
        None => {
            return Err(FieldError::SchemaInconsistency);
        },
        Some(c) => c,
    };
    let stop_on_null = contents.is_non_null();
    let sub = Executor { current_type: contents.deep_copy() };
    let ghost m = items.deep_view();
    let ghost rs = Seq::new(m.len(), |i: int| T::resolve_model(m[i], sub));
    proof {
        match executor.current_type.spec_list_contents() {
            Some(cm) => {
                assert(sub == Executor { current_type: cm });
                assert(rs =~= Seq::new(
                    m.len(),
                    |i: int| T::resolve_model(m[i], Executor { current_type: cm }),
                ));
                assert(spec_resolve_list_model::<T>(m, *executor)
                    == spec_list_outcome(stop_on_null, rs));
            },
            None => {
                assert(false);
            },
        }
    }
    let mut vals: Vec<Value> = Vec::new();
    proof {
        assert(rs.skip(0) =~= rs);
        assert(Value::model_seq(vals@) =~= Seq::<SpecOutput>::empty());
    }
    for i in 0..items.len()
        invariant
            rs == Seq::new(m.len(), |j: int| T::resolve_model(m[j], sub)),
            m == items.deep_view(),
            m.len() == items@.len(),
            spec_list_resolve_requires::<T>(m, *executor),
            (executor.current_type.spec_list_contents() matches Some(cm)
                && sub == (Executor { current_type: cm })),
            spec_resolve_list_model::<T>(m, *executor) == spec_list_outcome(stop_on_null, rs),
            spec_drain(stop_on_null, Value::model_seq(vals@), rs.skip(i as int))
                == spec_drain(stop_on_null, Seq::<SpecOutput>::empty(), rs),
    {
        proof {
            assert(T::resolve_requires(m[i as int], sub));
        }
        let next = items[i].resolve(&sub);
        let ghost vm = Value::model_seq(vals@);
        proof {
            assert(rs[i as int] == result_model(next));
            assert(seq![result_model(next)] + rs.skip(i + 1) =~= rs.skip(i as int));
        }
        match resolve_list_step(stop_on_null, vals, next) {
            ListDrain::Continue(v2) => {
                proof {
                    assert(spec_drain(stop_on_null, Value::model_seq(v2@), rs.skip(i + 1))
                        == spec_drain(stop_on_null, vm, seq![result_model(next)] + rs.skip(i + 1)));
                }
                vals = v2;
            },
            ListDrain::Done(res) => {
                proof {
                    assert(spec_drain(
                        stop_on_null,
                        vm,
                        seq![result_model(next)] + rs.skip(i + 1),
                    ) == result_model(res));
                    lemma_drain_equals_outcome(stop_on_null, rs);
                }
                return res;
            },
        }
    }
    proof {
        assert(rs.skip(m.len() as int) =~= Seq::<Result<SpecOutput, FieldError>>::empty());
        lemma_drain_equals_outcome(stop_on_null, rs);
    }
    resolve_list_finish(vals)
}

impl<T: GraphQLValue> GraphQLValue for Option<T> {
    /// The empty optional needs nothing of the position; a present
    /// value must be resolvable exactly where the optional stands.
    open spec fn resolve_requires(m: Option<T::V>, ex: Executor) -> bool {
        match m {
            None => true,
            Some(x) => T::resolve_requires(x, ex),
        }
    }

    /// The empty optional resolves to null without consulting the
    /// element; a present value resolves exactly as the value itself.
    open spec fn resolve_model(m: Option<T::V>, ex: Executor) -> Result<SpecOutput, FieldError> {
        match m {
            None => Ok(SpecOutput::Null),
            Some(x) => T::resolve_model(x, ex),
        }
    }

    fn resolve(&self, executor: &Executor) -> (r: ExecutionResult) {
        match self {
            None => Ok(Value::null()),
            Some(obj) => obj.resolve(executor),
        }
    }

    open spec fn concrete_type_name_model(m: Self::V) -> Option<Seq<char>> {
        None
    }

    fn concrete_type_name(&self) -> (n: Option<&'static str>) {
        None
    }
}

impl<T: GraphQLValue> GraphQLValue for Vec<T> {
    open spec fn resolve_requires(m: Seq<T::V>, ex: Executor) -> bool {
        spec_list_resolve_requires::<T>(m, ex)
    }

    open spec fn resolve_model(m: Seq<T::V>, ex: Executor) -> Result<SpecOutput, FieldError> {
        spec_resolve_list_model::<T>(m, ex)
    }

    fn resolve(&self, executor: &Executor) -> (r: ExecutionResult) {
        resolve_into_list(executor, self)
    }

    open spec fn concrete_type_name_model(m: Self::V) -> Option<Seq<char>> {
        None
    }

    fn concrete_type_name(&self) -> (n: Option<&'static str>) {
        None
    }
}

impl<T: GraphQLValue, const N: usize> GraphQLValue for FixedList<T, N> {
    open spec fn resolve_requires(m: Seq<T::V>, ex: Executor) -> bool {
        spec_list_resolve_requires::<T>(m, ex)
    }

    open spec fn resolve_model(m: Seq<T::V>, ex: Executor) -> Result<SpecOutput, FieldError> {
        spec_resolve_list_model::<T>(m, ex)
    }

    fn resolve(&self, executor: &Executor) -> (r: ExecutionResult) {
        resolve_into_list(executor, self.items())
    }

    open spec fn concrete_type_name_model(m: Self::V) -> Option<Seq<char>> {
        None
    }

    fn concrete_type_name(&self) -> (n: Option<&'static str>) {
        None
    }
}

impl GraphQLValue for i32 {
    open spec fn resolve_requires(m: i32, ex: Executor) -> bool {
        true
    }

    open spec fn resolve_model(m: i32, ex: Executor) -> Result<SpecOutput, FieldError> {
        Ok(SpecOutput::Scalar(crate::scalar::SpecScalar::Int(m)))
    }

    fn resolve(&self, executor: &Executor) -> (r: ExecutionResult) {
        Ok(Value::Scalar(crate::scalar::MyScalarValue::Int(*self)))
    }

    open spec fn concrete_type_name_model(m: Self::V) -> Option<Seq<char>> {
        Some("Int"@)
    }

    fn concrete_type_name(&self) -> (n: Option<&'static str>) {
        Some("Int")
    }
}

impl GraphQLValue for bool {
    open spec fn resolve_requires(m: bool, ex: Executor) -> bool {
        true
    }

    open spec fn resolve_model(m: bool, ex: Executor) -> Result<SpecOutput, FieldError> {
        Ok(SpecOutput::Scalar(crate::scalar::SpecScalar::Boolean(m)))
    }

    fn resolve(&self, executor: &Executor) -> (r: ExecutionResult) {
        Ok(Value::Scalar(crate::scalar::MyScalarValue::Boolean(*self)))
    }

    open spec fn concrete_type_name_model(m: Self::V) -> Option<Seq<char>> {
        Some("Boolean"@)
    }

    fn concrete_type_name(&self) -> (n: Option<&'static str>) {
        Some("Boolean")
    }
}

impl GraphQLValue for String {
    open spec fn resolve_requires(m: Seq<char>, ex: Executor) -> bool {
        true
    }

    open spec fn resolve_model(m: Seq<char>, ex: Executor) -> Result<SpecOutput, FieldError> {
        Ok(SpecOutput::Scalar(crate::scalar::SpecScalar::Str(m)))
    }

    fn resolve(&self, executor: &Executor) -> (r: ExecutionResult) {
        Ok(Value::Scalar(crate::scalar::MyScalarValue::String(self.clone())))
    }

    open spec fn concrete_type_name_model(m: Self::V) -> Option<Seq<char>> {
        Some("String"@)
    }

    fn concrete_type_name(&self) -> (n: Option<&'static str>) {
        Some("String")
    }
}

/// The empty optional always resolves to null without invoking the
/// element resolver, and the present optional resolves identically to
/// resolving the contained value directly.
pub proof fn lemma_optional_resolution<T: GraphQLValue>(m: Option<T::V>, ex: Executor)
    ensures
        m is None ==> <Option<T> as GraphQLValue>::resolve_model(m, ex)
            == Ok::<SpecOutput, FieldError>(SpecOutput::Null),
        m matches Some(x) ==> <Option<T> as GraphQLValue>::resolve_model(m, ex)
            == T::resolve_model(x, ex),
{
}

/// With a non-null element position, one element resolving to null
/// after an all-successful prefix voids the entire list to null — the
/// elements already resolved are discarded.
pub proof fn lemma_null_element_voids_list(
    rs: Seq<Result<SpecOutput, FieldError>>,
    i: int,
)
    requires
        0 <= i < rs.len(),
        rs[i] == Ok::<SpecOutput, FieldError>(SpecOutput::Null),
        forall|j: int| 0 <= j < i ==> (#[trigger] rs[j]) is Ok,
    ensures
        spec_list_outcome(true, rs) == Ok::<SpecOutput, FieldError>(SpecOutput::Null),
    decreases rs.len(),
{
    if i > 0 {
        match rs[0] {
            Ok(v) => {
                if !(v is Null) {
                    assert(forall|j: int| 0 <= j < i - 1
                        ==> (#[trigger] rs.drop_first()[j]) == rs[j + 1]);
                    lemma_null_element_voids_list(rs.drop_first(), i - 1);
                }
            },
            Err(e) => {
                assert(rs[0] is Ok);
            },
        }
    }
}

/// With a nullable element position, every element result — nulls
/// included — is kept, in declaration order.
pub proof fn lemma_nullable_list_keeps_all(rs: Seq<Result<SpecOutput, FieldError>>)
    requires
        forall|j: int| 0 <= j < rs.len() ==> (#[trigger] rs[j]) is Ok,
    ensures
        spec_list_outcome(false, rs) matches Ok(out) && out matches SpecOutput::List(t)
            && t.len() == rs.len()
            && (forall|i: int| 0 <= i < rs.len() ==> #[trigger] rs[i] == Ok::<
            SpecOutput,
            FieldError,
        >(t[i])),
    decreases rs.len(),
{
    if rs.len() > 0 {
        assert(forall|j: int| 0 <= j < rs.len() - 1
            ==> (#[trigger] rs.drop_first()[j]) == rs[j + 1]);
        lemma_nullable_list_keeps_all(rs.drop_first());
        match rs[0] {
            Ok(v) => {
                match spec_list_outcome(false, rs.drop_first()) {
                    Ok(out2) => {
                        match out2 {
                            SpecOutput::List(t2) => {
                                let t = seq![v] + t2;
                                assert(spec_list_outcome(false, rs)
                                    == Ok::<SpecOutput, FieldError>(SpecOutput::List(t)));
                                assert forall|i: int| 0 <= i < rs.len()
                                    implies #[trigger] rs[i] == Ok::<SpecOutput, FieldError>(
                                    t[i],
                                ) by {
                                    if i == 0 {
                                        assert(t[0] == v);
                                    } else {
                                        assert(rs.drop_first()[i - 1] == rs[i]);
                                        assert(t[i] == t2[i - 1]);
                                    }
                                }
                            },
                            _ => {
                                assert(false);
                            },
                        }
                    },
                    Err(_) => {
                        assert(false);
                    },
                }
            },
            Err(_) => {
                assert(false);
            },
        }
    }
}

} // verus!
