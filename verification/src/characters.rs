//! An interface over two concrete object types, and the query root
//! that hands out a heterogeneous character list.
//!
//! `Character` is the interface its implementors expose: an integer
//! identifier and a name. `CharacterValue` is the closed union the
//! engine dispatches over when a field is interface-typed.

use vstd::prelude::*;
use crate::scalar::{MyScalarValue, SpecScalar};
use crate::schema::{Executor, GraphQLType, Registry, TypeDescriptor};
use crate::value::{ExecutionResult, FieldError, SpecOutput, Value};
use crate::resolve::GraphQLValue;

verus! {

/// The interface: every character has an identifier and a name.
pub trait Character {
    spec fn spec_id(&self) -> i32;

    spec fn spec_character_name(&self) -> Seq<char>;

    fn id(&self) -> (r: i32)
        ensures
            r == self.spec_id(),
    ;

    fn name(&self) -> (r: String)
        ensures
            r@ == self.spec_character_name(),
    ;
}

#[derive(Debug, PartialEq, Eq, Clone)]
pub struct Human {
    pub id: i32,
    pub name: String,
}

impl DeepView for Human {
    type V = Human;

    open spec fn deep_view(&self) -> Human {
        *self
    }
}

impl Character for Human {
    open spec fn spec_id(&self) -> i32 {
        self.id
    }

    open spec fn spec_character_name(&self) -> Seq<char> {
        self.name@
    }

    fn id(&self) -> (r: i32) {
        self.id
    }

    fn name(&self) -> (r: String) {
        self.name.clone()
    }
}

#[derive(Debug, PartialEq, Eq, Clone)]
pub struct Droid {
    pub id: i32,
    pub name: String,
}

impl DeepView for Droid {
    type V = Droid;

    open spec fn deep_view(&self) -> Droid {
        *self
    }
}

impl Character for Droid {
    open spec fn spec_id(&self) -> i32 {
        self.id
    }

    open spec fn spec_character_name(&self) -> Seq<char> {
        self.name@
    }

    fn id(&self) -> (r: i32) {
        self.id
    }

    fn name(&self) -> (r: String) {
        self.name.clone()
    }
}

/// The model of an object with an identifier and a name.
pub open spec fn spec_character_object(id: i32, name: Seq<char>) -> Result<
    SpecOutput,
    FieldError,
> {
    Ok(SpecOutput::Object(
        seq![
            ("id"@, SpecOutput::Scalar(SpecScalar::Int(id))),
            ("name"@, SpecOutput::Scalar(SpecScalar::Str(name))),
        ],
    ))
}

/// Resolves an identifier and a name into an object node.
fn resolve_character_fields(id: i32, name: &String) -> (r: ExecutionResult)
    ensures
        crate::value::result_model(r) == spec_character_object(id, name@),
{
    let mut fields: Vec<(String, Value)> = Vec::new();
    fields.push(("id".to_owned(), Value::Scalar(MyScalarValue::Int(id))));
    fields.push(("name".to_owned(), Value::Scalar(MyScalarValue::String(name.clone()))));
    proof {
        Value::lemma_model_fields_points(fields@);
        assert(fields@.len() == 2);
        assert(fields@[0].0@ == "id"@);
        assert(fields@[0].1.model() == SpecOutput::Scalar(SpecScalar::Int(id)));
        assert(fields@[1].0@ == "name"@);
        assert(fields@[1].1.model() == SpecOutput::Scalar(SpecScalar::Str(name@)));
        assert(Value::model_fields(fields@) =~~= seq![
            ("id"@, SpecOutput::Scalar(SpecScalar::Int(id))),
            ("name"@, SpecOutput::Scalar(SpecScalar::Str(name@))),
        ]);
    }
    Ok(Value::Object(fields))
}

impl GraphQLValue for Human {
    open spec fn resolve_requires(m: Human, ex: Executor) -> bool {
        true
    }

    open spec fn resolve_model(m: Human, ex: Executor) -> Result<SpecOutput, FieldError> {
        spec_character_object(m.id, m.name@)
    }

    fn resolve(&self, executor: &Executor) -> (r: ExecutionResult) {
        resolve_character_fields(self.id, &self.name)
    }

    open spec fn concrete_type_name_model(m: Self::V) -> Option<Seq<char>> {
        Some("Human"@)
    }

    fn concrete_type_name(&self) -> (n: Option<&'static str>) {
        Some("Human")
    }
}

impl GraphQLValue for Droid {
    open spec fn resolve_requires(m: Droid, ex: Executor) -> bool {
        true
    }

    open spec fn resolve_model(m: Droid, ex: Executor) -> Result<SpecOutput, FieldError> {
        spec_character_object(m.id, m.name@)
    }

    fn resolve(&self, executor: &Executor) -> (r: ExecutionResult) {
        resolve_character_fields(self.id, &self.name)
    }

    open spec fn concrete_type_name_model(m: Self::V) -> Option<Seq<char>> {
        Some("Droid"@)
    }

    fn concrete_type_name(&self) -> (n: Option<&'static str>) {
        Some("Droid")
    }
}

impl GraphQLType for Human {
    open spec fn spec_name() -> Option<Seq<char>> {
        Some("Human"@)
    }

    fn name() -> (n: Option<&'static str>) {
        Some("Human")
    }

    open spec fn meta_matches(inner: TypeDescriptor, d: TypeDescriptor) -> bool {
        d matches TypeDescriptor::Named(n) && n@ == "Human"@
    }

    fn meta(registry: &Registry, inner: TypeDescriptor) -> (d: TypeDescriptor) {
        TypeDescriptor::Named("Human".to_owned())
    }
}

impl GraphQLType for Droid {
    open spec fn spec_name() -> Option<Seq<char>> {
        Some("Droid"@)
    }

    fn name() -> (n: Option<&'static str>) {
        Some("Droid")
    }

    open spec fn meta_matches(inner: TypeDescriptor, d: TypeDescriptor) -> bool {
        d matches TypeDescriptor::Named(n) && n@ == "Droid"@
    }

    fn meta(registry: &Registry, inner: TypeDescriptor) -> (d: TypeDescriptor) {
        TypeDescriptor::Named("Droid".to_owned())
    }
}

/// The closed union of the interface's implementors.
#[derive(Debug, PartialEq, Eq, Clone)]
pub enum CharacterValue {
    Human(Human),
    Droid(Droid),
}

impl DeepView for CharacterValue {
    type V = CharacterValue;

    open spec fn deep_view(&self) -> CharacterValue {
        *self
    }
}

impl GraphQLValue for CharacterValue {
    open spec fn resolve_requires(m: CharacterValue, ex: Executor) -> bool {
        true
    }

    /// Interface dispatch: resolve exactly as the concrete value.
    open spec fn resolve_model(m: CharacterValue, ex: Executor) -> Result<
        SpecOutput,
        FieldError,
    > {
        match m {
            CharacterValue::Human(h) => <Human as GraphQLValue>::resolve_model(h, ex),
            CharacterValue::Droid(d) => <Droid as GraphQLValue>::resolve_model(d, ex),
        }
    }

    fn resolve(&self, executor: &Executor) -> (r: ExecutionResult) {
        match self {
            CharacterValue::Human(h) => h.resolve(executor),
            CharacterValue::Droid(d) => d.resolve(executor),
        }
    }

    /// The concrete implementor's name, as interface fragments see it.
    open spec fn concrete_type_name_model(m: Self::V) -> Option<Seq<char>> {
        match m {
            CharacterValue::Human(_) => Some("Human"@),
            CharacterValue::Droid(_) => Some("Droid"@),
        }
    }

    fn concrete_type_name(&self) -> (n: Option<&'static str>) {
        match self {
            CharacterValue::Human(_) => Some("Human"),
            CharacterValue::Droid(_) => Some("Droid"),
        }
    }
}

impl GraphQLType for CharacterValue {
    open spec fn spec_name() -> Option<Seq<char>> {
        Some("Character"@)
    }

    fn name() -> (n: Option<&'static str>) {
        Some("Character")
    }

    open spec fn meta_matches(inner: TypeDescriptor, d: TypeDescriptor) -> bool {
        d matches TypeDescriptor::Named(n) && n@ == "Character"@
    }

    fn meta(registry: &Registry, inner: TypeDescriptor) -> (d: TypeDescriptor) {
        TypeDescriptor::Named("Character".to_owned())
    }
}

/// The query root: a human and a droid, in declaration order.
pub struct Query;

impl Query {
    pub fn characters() -> (r: Vec<CharacterValue>)
        ensures
            r@.len() == 2,
            r@[0] matches CharacterValue::Human(h) && h.id == 0 && h.name@ == "human-32"@,
            r@[1] matches CharacterValue::Droid(d) && d.id == 1 && d.name@ == "R2-D2"@,
    {
        let mut r: Vec<CharacterValue> = Vec::new();
        r.push(CharacterValue::Human(Human { id: 0, name: "human-32".to_owned() }));
        r.push(CharacterValue::Droid(Droid { id: 1, name: "R2-D2".to_owned() }));
        r
    }
}

} // verus!
