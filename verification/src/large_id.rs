//! A transparent scalar wrapper around a 64-bit identifier, and the
//! query and mutation roots that carry it.
//!
//! `LargeId` behaves on the wire exactly as the 64-bit `Long` scalar
//! it wraps: it converts from the `Long` input scalar, converts back
//! to it, and resolves to a `Long` leaf.

use vstd::prelude::*;
use crate::input::{FromInputValue, InputValue, SpecInput, ToInputValue};
use crate::scalar::{MyScalarValue, SpecScalar};
use crate::schema::{Executor, GraphQLType, Registry, TypeDescriptor};
use crate::value::{ExecutionResult, FieldError, SpecOutput, Value};
use crate::resolve::GraphQLValue;

verus! {

/// An identifier wide enough to exceed the 32-bit integer range.
#[derive(Debug, PartialEq, Eq, Structural, Hash, Clone, Copy)]
pub struct LargeId(pub i64);

impl DeepView for LargeId {
    type V = LargeId;

    open spec fn deep_view(&self) -> LargeId {
        *self
    }
}

impl FromInputValue for LargeId {
    /// Transparent: exactly what the wrapped 64-bit scalar accepts.
    open spec fn from_input_model(v: SpecInput) -> Option<LargeId> {
        match <i64 as FromInputValue>::from_input_model(v) {
            Some(n) => Some(LargeId(n)),
            None => None,
        }
    }

    fn from_input_value(v: &InputValue) -> (r: Option<LargeId>) {
        match <i64 as FromInputValue>::from_input_value(v) {
            Some(n) => Some(LargeId(n)),
            None => None,
        }
    }
}

impl ToInputValue for LargeId {
    open spec fn to_input_model(m: LargeId) -> SpecInput {
        SpecInput::Scalar(SpecScalar::Long(m.0))
    }

    fn to_input_value(&self) -> (r: InputValue) {
        InputValue::Scalar(MyScalarValue::Long(self.0))
    }
}

impl GraphQLValue for LargeId {
    open spec fn resolve_requires(m: LargeId, ex: Executor) -> bool {
        true
    }

    open spec fn resolve_model(m: LargeId, ex: Executor) -> Result<SpecOutput, FieldError> {
        Ok(SpecOutput::Scalar(SpecScalar::Long(m.0)))
    }

    fn resolve(&self, executor: &Executor) -> (r: ExecutionResult) {
        Ok(Value::Scalar(MyScalarValue::Long(self.0)))
    }

    open spec fn concrete_type_name_model(m: Self::V) -> Option<Seq<char>> {
        Some("LargeId"@)
    }

    fn concrete_type_name(&self) -> (n: Option<&'static str>) {
        Some("LargeId")
    }
}

impl GraphQLType for LargeId {
    open spec fn spec_name() -> Option<Seq<char>> {
        Some("LargeId"@)
    }

    fn name() -> (n: Option<&'static str>) {
        Some("LargeId")
    }

    open spec fn meta_matches(inner: TypeDescriptor, d: TypeDescriptor) -> bool {
        d matches TypeDescriptor::Named(n) && n@ == "LargeId"@
    }

    fn meta(registry: &Registry, inner: TypeDescriptor) -> (d: TypeDescriptor) {
        TypeDescriptor::Named("LargeId".to_owned())
    }
}

/// An object with a single wide-identifier field.
#[derive(Debug, PartialEq, Eq, Structural, Clone, Copy)]
pub struct User {
    pub id: LargeId,
}

impl DeepView for User {
    type V = User;

    open spec fn deep_view(&self) -> User {
        *self
    }
}

impl GraphQLValue for User {
    open spec fn resolve_requires(m: User, ex: Executor) -> bool {
        true
    }

    open spec fn resolve_model(m: User, ex: Executor) -> Result<SpecOutput, FieldError> {
        Ok(SpecOutput::Object(seq![("id"@, SpecOutput::Scalar(SpecScalar::Long(m.id.0)))]))
    }

    fn resolve(&self, executor: &Executor) -> (r: ExecutionResult) {
        let mut fields: Vec<(String, Value)> = Vec::new();
        fields.push(("id".to_owned(), Value::Scalar(MyScalarValue::Long(self.id.0))));
        proof {
            Value::lemma_model_fields_points(fields@);
            assert(Value::model_fields(fields@) =~= seq![
                ("id"@, SpecOutput::Scalar(SpecScalar::Long(self.id.0))),
            ]);
        }
        Ok(Value::Object(fields))
    }

    open spec fn concrete_type_name_model(m: Self::V) -> Option<Seq<char>> {
        Some("User"@)
    }

    fn concrete_type_name(&self) -> (n: Option<&'static str>) {
        Some("User")
    }
}

impl GraphQLType for User {
    open spec fn spec_name() -> Option<Seq<char>> {
        Some("User"@)
    }

    fn name() -> (n: Option<&'static str>) {
        Some("User")
    }

    open spec fn meta_matches(inner: TypeDescriptor, d: TypeDescriptor) -> bool {
        d matches TypeDescriptor::Named(n) && n@ == "User"@
    }

    fn meta(registry: &Registry, inner: TypeDescriptor) -> (d: TypeDescriptor) {
        TypeDescriptor::Named("User".to_owned())
    }
}

/// The query root: hands out the user with the zero identifier.
pub struct Query;

impl Query {
    pub fn user() -> (r: User)
        ensures
            r == (User { id: LargeId(0) }),
    {
        User { id: LargeId(0) }
    }
}

/// The mutation root: stores and echoes back the given identifier.
pub struct Mutation;

impl Mutation {
    pub fn change_user(id: LargeId) -> (r: User)
        ensures
            r == (User { id }),
    {
        User { id }
    }
}

} // verus!
