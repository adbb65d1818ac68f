use graphql_core::fixed::FixedList;
use graphql_core::input::{FromInputValue, InputValue, ToInputValue};
use graphql_core::large_id::{LargeId, Mutation, Query, User};
use graphql_core::scalar::{MyScalarValue, MyScalarValueVisitor};

fn long(n: i64) -> InputValue {
    InputValue::Scalar(MyScalarValue::Long(n))
}

#[test]
fn test_scalar_value_large_id() {
    let num: i64 = 4294967297;

    let input_integer: InputValue = InputValue::Scalar(MyScalarValueVisitor.visit_i64(num));

    let output: LargeId = FromInputValue::from_input_value(&input_integer).unwrap();
    assert_eq!(output, LargeId(num));

    let id = LargeId(num);
    let output = ToInputValue::to_input_value(&id);
    assert_eq!(output, InputValue::Scalar(MyScalarValue::Long(num)));
}

#[test]
fn long_converts_only_from_long_scalar() {
    let r: Option<i64> = FromInputValue::from_input_value(&long(7));
    assert_eq!(r, Some(7));
    let r: Option<i64> = FromInputValue::from_input_value(&InputValue::Scalar(MyScalarValue::Int(7)));
    assert_eq!(r, None);
    let r: Option<i64> = FromInputValue::from_input_value(&InputValue::Null);
    assert_eq!(r, None);
    assert_eq!((5i64).to_input_value(), long(5));
}

#[test]
fn scalar_leaf_conversions() {
    let r: Option<i32> = FromInputValue::from_input_value(&InputValue::Scalar(MyScalarValue::Int(3)));
    assert_eq!(r, Some(3));
    let r: Option<bool> =
        FromInputValue::from_input_value(&InputValue::Scalar(MyScalarValue::Boolean(true)));
    assert_eq!(r, Some(true));
    let r: Option<String> =
        FromInputValue::from_input_value(&InputValue::Scalar(MyScalarValue::String("x".to_owned())));
    assert_eq!(r, Some("x".to_owned()));
    assert_eq!(
        "x".to_owned().to_input_value(),
        InputValue::Scalar(MyScalarValue::String("x".to_owned()))
    );
    assert_eq!(true.to_input_value(), InputValue::Scalar(MyScalarValue::Boolean(true)));
    assert_eq!(3i32.to_input_value(), InputValue::Scalar(MyScalarValue::Int(3)));
}

#[test]
fn optional_conversion() {
    let r: Option<Option<i64>> = FromInputValue::from_input_value(&InputValue::Null);
    assert_eq!(r, Some(None));
    let r: Option<Option<i64>> = FromInputValue::from_input_value(&long(9));
    assert_eq!(r, Some(Some(9)));
    // Present but malformed: the element failure propagates.
    let r: Option<Option<i64>> =
        FromInputValue::from_input_value(&InputValue::Scalar(MyScalarValue::Int(9)));
    assert_eq!(r, None);
    assert_eq!(None::<i64>.to_input_value(), InputValue::Null);
    assert_eq!(Some(4i64).to_input_value(), long(4));
}

#[test]
fn sequence_conversion_all_or_nothing() {
    let good = InputValue::List(vec![long(1), long(2), long(3)]);
    let r: Option<Vec<i64>> = FromInputValue::from_input_value(&good);
    assert_eq!(r, Some(vec![1, 2, 3]));

    // One unconvertible element fails the whole conversion.
    let bad = InputValue::List(vec![long(1), InputValue::Null, long(3)]);
    let r: Option<Vec<i64>> = FromInputValue::from_input_value(&bad);
    assert_eq!(r, None);

    // A non-list coerces to a one-element sequence.
    let r: Option<Vec<i64>> = FromInputValue::from_input_value(&long(8));
    assert_eq!(r, Some(vec![8]));
    let r: Option<Vec<i64>> = FromInputValue::from_input_value(&InputValue::Enum("X".to_owned()));
    assert_eq!(r, None);

    assert_eq!(
        vec![1i64, 2].to_input_value(),
        InputValue::List(vec![long(1), long(2)])
    );
}

#[test]
fn nested_optional_sequence() {
    let v = InputValue::List(vec![long(1), InputValue::Null, long(3)]);
    let r: Option<Vec<Option<i64>>> = FromInputValue::from_input_value(&v);
    assert_eq!(r, Some(vec![Some(1), None, Some(3)]));
}

#[test]
fn fixed_arity_conversion_exact_length() {
    let three = InputValue::List(vec![long(1), long(2), long(3)]);
    let r: Option<FixedList<i64, 3>> = FromInputValue::from_input_value(&three);
    assert_eq!(r.unwrap().items(), &vec![1, 2, 3]);

    // One element too few and one too many both fail.
    let r: Option<FixedList<i64, 4>> = FromInputValue::from_input_value(&three);
    assert!(r.is_none());
    let r: Option<FixedList<i64, 2>> = FromInputValue::from_input_value(&three);
    assert!(r.is_none());

    // One unconvertible element fails the fixed-arity conversion too.
    let bad = InputValue::List(vec![long(1), InputValue::Null, long(3)]);
    let r: Option<FixedList<i64, 3>> = FromInputValue::from_input_value(&bad);
    assert!(r.is_none());
}

#[test]
fn fixed_arity_rejects_longer_list_even_when_arity_many_convert() {
    // The element count must equal the arity before elements are even
    // considered: a longer list never converts, also when exactly
    // arity-many of its elements would convert.
    let two = InputValue::List(vec![long(5), InputValue::Null]);
    let r: Option<FixedList<i64, 1>> = FromInputValue::from_input_value(&two);
    assert!(r.is_none());
    let three = InputValue::List(vec![long(1), long(2), InputValue::Null]);
    let r: Option<FixedList<i64, 2>> = FromInputValue::from_input_value(&three);
    assert!(r.is_none());
}

#[test]
fn fixed_arity_single_coercion() {
    // A non-list converts only into an aggregate of arity one.
    let r: Option<FixedList<i64, 1>> = FromInputValue::from_input_value(&long(5));
    assert_eq!(r.unwrap().items(), &vec![5]);
    let r: Option<FixedList<i64, 2>> = FromInputValue::from_input_value(&long(5));
    assert!(r.is_none());
    let r: Option<FixedList<i64, 1>> =
        FromInputValue::from_input_value(&InputValue::Scalar(MyScalarValue::Int(5)));
    assert!(r.is_none());
}

#[test]
fn fixed_arity_to_input_is_list_of_its_length() {
    let f: FixedList<i64, 2> = FixedList::from_vec(vec![10, 20]);
    assert_eq!(f.to_input_value(), InputValue::List(vec![long(10), long(20)]));
}

#[test]
fn convert_method_matches_trait() {
    let v = long(11);
    assert_eq!(v.convert::<i64>(), Some(11));
    assert_eq!(v.convert::<i32>(), None);
}

#[test]
fn query_and_mutation_roots() {
    assert_eq!(Query::user(), User { id: LargeId(0) });
    assert_eq!(Mutation::change_user(LargeId(17)), User { id: LargeId(17) });
}

#[test]
fn empty_list_conversion() {
    let empty = InputValue::List(vec![]);
    let r: Option<Vec<i64>> = FromInputValue::from_input_value(&empty);
    assert_eq!(r, Some(vec![]));
    let r: Option<FixedList<i64, 0>> = FromInputValue::from_input_value(&empty);
    assert!(r.is_some());
    let r: Option<FixedList<i64, 1>> = FromInputValue::from_input_value(&empty);
    assert!(r.is_none());
    assert_eq!(Vec::<i64>::new().to_input_value(), InputValue::List(vec![]));
}

#[test]
fn structured_inputs_do_not_convert_to_scalars() {
    let obj = InputValue::Object(vec![("k".to_owned(), long(1))]);
    assert_eq!(obj.convert::<i64>(), None);
    let en = InputValue::Enum("RED".to_owned());
    assert_eq!(en.convert::<i64>(), None);
    let var = InputValue::Variable("x".to_owned());
    assert_eq!(var.convert::<bool>(), None);
}
