use std::future::Future;
use std::pin::Pin;
use std::task::{Context, Poll};

use futures::executor::block_on;
use futures::stream::{FuturesOrdered, StreamExt};

use graphql_core::characters::{Character, CharacterValue, Query};
use graphql_core::long_scalar::{from_str, parse_i64, ParseError, ScalarToken, TestType};
use graphql_core::resolve::{
    resolve_into_list, resolve_list_finish, resolve_list_step, GraphQLValue, ListDrain,
};
use graphql_core::scalar::MyScalarValue;
use graphql_core::schema::{Executor, GraphQLType, Registry, TypeDescriptor};
use graphql_core::value::{ExecutionResult, FieldError, Value};

fn named(n: &str) -> TypeDescriptor {
    TypeDescriptor::Named(n.to_owned())
}

fn list_of(inner: TypeDescriptor) -> Executor {
    Executor {
        current_type: TypeDescriptor::List(Box::new(inner), None),
    }
}

fn nullable(inner: TypeDescriptor) -> TypeDescriptor {
    TypeDescriptor::Nullable(Box::new(inner))
}

fn int_value(i: i32) -> Value {
    Value::Scalar(MyScalarValue::Int(i))
}

/// Drains already-computed element results through the step machine in
/// declaration order, as a concurrent driver would.
fn drain(stop_on_null: bool, results: Vec<ExecutionResult>) -> ExecutionResult {
    let mut acc: Vec<Value> = Vec::new();
    for next in results {
        match resolve_list_step(stop_on_null, acc, next) {
            ListDrain::Continue(a) => acc = a,
            ListDrain::Done(res) => return res,
        }
    }
    resolve_list_finish(acc)
}

/// A future that stays pending for a fixed number of polls before
/// yielding its value, to let later elements complete first.
struct Delayed {
    polls_left: u32,
    value: Option<ExecutionResult>,
}

impl Future for Delayed {
    type Output = ExecutionResult;

    fn poll(mut self: Pin<&mut Self>, cx: &mut Context<'_>) -> Poll<ExecutionResult> {
        if self.polls_left > 0 {
            self.polls_left -= 1;
            cx.waker().wake_by_ref();
            Poll::Pending
        } else {
            Poll::Ready(self.value.take().expect("polled after completion"))
        }
    }
}

/// Resolves a list concurrently: element results may complete in any
/// order, but are drained in declaration order through the step
/// machine.
async fn resolve_delayed_list(stop_on_null: bool, elements: Vec<Delayed>) -> ExecutionResult {
    let mut futs: FuturesOrdered<Delayed> = elements.into_iter().collect();
    let mut acc: Vec<Value> = Vec::new();
    while let Some(next) = futs.next().await {
        match resolve_list_step(stop_on_null, acc, next) {
            ListDrain::Continue(a) => acc = a,
            ListDrain::Done(res) => return res,
        }
    }
    resolve_list_finish(acc)
}

#[test]
fn non_null_position_voids_list_on_null_sync() {
    // [Int!]-style position: the middle element resolves to null.
    let ex = list_of(named("Int"));
    let items: Vec<Option<i32>> = vec![Some(5), None, Some(7)];
    assert_eq!(resolve_into_list(&ex, &items), Ok(Value::Null));
}

#[test]
fn nullable_position_keeps_embedded_nulls_sync() {
    // [Int]-style position: the null is legal data and order is kept.
    let ex = list_of(nullable(named("Int")));
    let items: Vec<Option<i32>> = vec![Some(5), None, Some(7)];
    assert_eq!(
        resolve_into_list(&ex, &items),
        Ok(Value::List(vec![int_value(5), Value::Null, int_value(7)]))
    );
}

#[test]
fn non_null_position_voids_list_on_null_drained() {
    // The same outcome when element results are drained one at a time,
    // whatever artificial delay produced them.
    let r = drain(
        true,
        vec![Ok(int_value(5)), Ok(Value::Null), Ok(int_value(7))],
    );
    assert_eq!(r, Ok(Value::Null));
}

#[test]
fn concurrent_resolution_voids_list_regardless_of_delays() {
    let r = block_on(resolve_delayed_list(
        true,
        vec![
            Delayed { polls_left: 5, value: Some(Ok(int_value(5))) },
            Delayed { polls_left: 2, value: Some(Ok(Value::Null)) },
            Delayed { polls_left: 0, value: Some(Ok(int_value(7))) },
        ],
    ));
    assert_eq!(r, Ok(Value::Null));
}

#[test]
fn concurrent_resolution_preserves_declaration_order() {
    // The last element completes first; the output order still equals
    // the declaration order.
    let r = block_on(resolve_delayed_list(
        false,
        vec![
            Delayed { polls_left: 6, value: Some(Ok(int_value(5))) },
            Delayed { polls_left: 3, value: Some(Ok(Value::Null)) },
            Delayed { polls_left: 0, value: Some(Ok(int_value(7))) },
        ],
    ));
    assert_eq!(
        r,
        Ok(Value::List(vec![int_value(5), Value::Null, int_value(7)]))
    );
}

#[test]
fn element_error_aborts_list() {
    let r = drain(
        false,
        vec![
            Ok(int_value(1)),
            Err(FieldError::Message("boom".to_owned())),
            Ok(int_value(3)),
        ],
    );
    assert_eq!(r, Err(FieldError::Message("boom".to_owned())));
}

#[test]
fn list_resolution_outside_list_position_is_hard_error() {
    // A non-list position is excluded by the resolver's precondition;
    // an unverified caller that reaches it anyway is answered with the
    // hard schema-inconsistency error, aborting the subtree.
    let ex = Executor { current_type: named("Int") };
    let items: Vec<i32> = vec![1, 2];
    assert_eq!(
        resolve_into_list(&ex, &items),
        Err(FieldError::SchemaInconsistency)
    );
}

#[test]
fn optional_resolution() {
    let ex = Executor { current_type: nullable(named("Int")) };
    let none: Option<i32> = None;
    assert_eq!(none.resolve(&ex), Ok(Value::Null));
    let some: Option<i32> = Some(3);
    assert_eq!(some.resolve(&ex), 3i32.resolve(&ex));
    assert_eq!(some.resolve(&ex), Ok(int_value(3)));
}

#[test]
fn int_list_end_to_end() {
    // A non-null list of non-null integers backed by a native
    // three-element sequence resolves to the same list of leaves.
    let ex = list_of(named("Int"));
    let items: Vec<i32> = vec![5, 6, 7];
    assert_eq!(
        resolve_into_list(&ex, &items),
        Ok(Value::List(vec![int_value(5), int_value(6), int_value(7)]))
    );
    // The same field backed by a sequence whose middle resolver
    // returns null resolves to overall null.
    let voided: Vec<Option<i32>> = vec![Some(5), None, Some(7)];
    assert_eq!(resolve_into_list(&ex, &voided), Ok(Value::Null));
}

#[test]
fn nested_list_resolution() {
    let inner = TypeDescriptor::List(Box::new(named("Int")), None);
    let ex = list_of(inner);
    let items: Vec<Vec<i32>> = vec![vec![1, 2], vec![3]];
    assert_eq!(
        resolve_into_list(&ex, &items),
        Ok(Value::List(vec![
            Value::List(vec![int_value(1), int_value(2)]),
            Value::List(vec![int_value(3)]),
        ]))
    );
}

#[test]
fn long_field_resolution() {
    let ex = Executor { current_type: named("Long") };
    assert_eq!(TestType::long_field(), i64::from(i32::MAX) + 1);
    assert_eq!(
        TestType::long_field().resolve(&ex),
        Ok(Value::Scalar(MyScalarValue::Long(i64::from(i32::MAX) + 1)))
    );
    assert_eq!(
        TestType::long_with_arg(i64::from(i32::MAX) + 3),
        i64::from(i32::MAX) + 3
    );
}

#[test]
fn parse_i64_accepts_decimal_text() {
    assert_eq!(parse_i64("0"), Some(0));
    assert_eq!(parse_i64("42"), Some(42));
    assert_eq!(parse_i64("-42"), Some(-42));
    assert_eq!(parse_i64("+3"), Some(3));
    assert_eq!(parse_i64("+9223372036854775807"), Some(i64::MAX));
    assert_eq!(parse_i64("4294967297"), Some(4294967297));
    assert_eq!(parse_i64("9223372036854775807"), Some(i64::MAX));
    assert_eq!(parse_i64("-9223372036854775808"), Some(i64::MIN));
}

#[test]
fn parse_i64_rejects_bad_shapes_and_overflow() {
    assert_eq!(parse_i64(""), None);
    assert_eq!(parse_i64("-"), None);
    assert_eq!(parse_i64("+"), None);
    assert_eq!(parse_i64("1.5"), None);
    assert_eq!(parse_i64("12a"), None);
    assert_eq!(parse_i64("+-3"), None);
    assert_eq!(parse_i64("neuf"), None);
    assert_eq!(parse_i64("9223372036854775808"), None);
    assert_eq!(parse_i64("-9223372036854775809"), None);
    assert_eq!(parse_i64("99999999999999999999999"), None);
}

#[test]
fn from_str_parses_int_tokens_into_long() {
    assert_eq!(
        from_str(ScalarToken::Int("4294967297")),
        Ok(MyScalarValue::Long(4294967297))
    );
    assert_eq!(from_str(ScalarToken::Int("7")), Ok(MyScalarValue::Long(7)));
    assert_eq!(from_str(ScalarToken::Int("+7")), Ok(MyScalarValue::Long(7)));
    assert_eq!(
        from_str(ScalarToken::Int("9223372036854775808")),
        Err(ParseError::UnexpectedToken(ScalarToken::Int("9223372036854775808")))
    );
    assert_eq!(
        from_str(ScalarToken::Float("1.5")),
        Err(ParseError::UnexpectedToken(ScalarToken::Float("1.5")))
    );
    assert_eq!(
        from_str(ScalarToken::String("x")),
        Err(ParseError::UnexpectedToken(ScalarToken::String("x")))
    );
}

#[test]
fn descriptor_builders() {
    let registry = Registry::new();
    let d = <Option<i64> as GraphQLType>::meta(&registry, named("Long"));
    assert_eq!(d, nullable(named("Long")));
    let d = <Vec<i64> as GraphQLType>::meta(&registry, named("Long"));
    assert_eq!(d, TypeDescriptor::List(Box::new(named("Long")), None));
    let d = <graphql_core::fixed::FixedList<i64, 3> as GraphQLType>::meta(&registry, named("Long"));
    assert_eq!(d, TypeDescriptor::List(Box::new(named("Long")), Some(3)));
    assert_eq!(<Option<i64> as GraphQLType>::name(), None);
    assert_eq!(<i64 as GraphQLType>::name(), Some("Long"));
    assert_eq!(<i32 as GraphQLType>::name(), Some("Int"));
}

#[test]
fn descriptor_nullability() {
    let ex = list_of(named("Int"));
    assert_eq!(ex.current_list_contents_nullability(), Some(false));
    let ex = list_of(nullable(named("Int")));
    assert_eq!(ex.current_list_contents_nullability(), Some(true));
    let ex = Executor { current_type: named("Int") };
    assert_eq!(ex.current_list_contents_nullability(), None);
    // A nullable list position still exposes its contents.
    let ex = Executor {
        current_type: nullable(TypeDescriptor::List(Box::new(named("Int")), None)),
    };
    assert_eq!(ex.current_list_contents_nullability(), Some(false));
}

#[test]
fn interface_values_report_concrete_type_names() {
    let cs = Query::characters();
    assert_eq!(cs[0].concrete_type_name(), Some("Human"));
    assert_eq!(cs[1].concrete_type_name(), Some("Droid"));
    let v: Vec<i32> = vec![];
    assert_eq!(v.concrete_type_name(), None);
    assert_eq!(5i64.concrete_type_name(), Some("Long"));
}

#[test]
fn characters_resolve_in_order() {
    let cs = Query::characters();
    assert_eq!(cs.len(), 2);
    assert_eq!(cs[0].clone(), cs[0].clone());
    match &cs[0] {
        CharacterValue::Human(h) => {
            assert_eq!(h.id(), 0);
            assert_eq!(h.name(), "human-32");
        }
        other => panic!("expected a human, got {:?}", other),
    }
    match &cs[1] {
        CharacterValue::Droid(d) => {
            assert_eq!(d.id(), 1);
            assert_eq!(d.name(), "R2-D2");
        }
        other => panic!("expected a droid, got {:?}", other),
    }
    let ex = list_of(named("Character"));
    let r = resolve_into_list(&ex, &cs).unwrap();
    match r {
        Value::List(vs) => {
            assert_eq!(vs.len(), 2);
            assert_eq!(
                vs[0],
                Value::Object(vec![
                    ("id".to_owned(), int_value(0)),
                    ("name".to_owned(), Value::Scalar(MyScalarValue::String("human-32".to_owned()))),
                ])
            );
            assert_eq!(
                vs[1],
                Value::Object(vec![
                    ("id".to_owned(), int_value(1)),
                    ("name".to_owned(), Value::Scalar(MyScalarValue::String("R2-D2".to_owned()))),
                ])
            );
        }
        other => panic!("expected a list, got {:?}", other),
    }
}

#[test]
fn empty_list_resolves_to_empty_list() {
    let ex = list_of(named("Int"));
    let items: Vec<i32> = vec![];
    assert_eq!(resolve_into_list(&ex, &items), Ok(Value::List(vec![])));
}
