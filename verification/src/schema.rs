//! Structural type descriptors and the execution position.
//!
//! A `TypeDescriptor` is the schema-side description of a position's
//! type: a named type, a nullable wrapper, or a list wrapper with an
//! optional fixed arity. Descriptors are built once per schema
//! construction by the registry, which delegates the inner descriptor
//! of a composite to the contained type.

use vstd::prelude::*;

verus! {

/// Schema-side structural description of a type. A position is
/// non-null unless explicitly wrapped in `Nullable`.
#[derive(Debug, PartialEq, Eq)]
pub enum TypeDescriptor {
    Named(String),
    Nullable(Box<TypeDescriptor>),
    List(Box<TypeDescriptor>, Option<usize>),
}

impl TypeDescriptor {
    /// Whether a value at a position of this type must not be null.
    pub open spec fn spec_is_non_null(self) -> bool {
        !(self is Nullable)
    }

    pub fn is_non_null(&self) -> (r: bool)
        ensures
            r == self.spec_is_non_null(),
    {
        match self {
            TypeDescriptor::Nullable(_) => false,
            _ => true,
        }
    }

    /// The declared element type when this position is list-typed,
    /// looking through a nullable wrapper; `None` anywhere else.
    pub open spec fn spec_list_contents(self) -> Option<TypeDescriptor>
        decreases self,
    {
        match self {
            TypeDescriptor::List(inner, _) => Some(*inner),
            TypeDescriptor::Nullable(inner) => inner.spec_list_contents(),
            TypeDescriptor::Named(_) => None,
        }
    }

    pub fn list_contents(&self) -> (r: Option<&TypeDescriptor>)
        ensures
            match (r, self.spec_list_contents()) {
                (Some(a), Some(b)) => *a == b,
                (None, None) => true,
                _ => false,
            },
        decreases self,
    {
        match self {
            TypeDescriptor::List(inner, _) => Some(&**inner),
            TypeDescriptor::Nullable(inner) => (&**inner).list_contents(),
            TypeDescriptor::Named(_) => None,
        }
    }

    /// An exact structural copy.
    pub fn deep_copy(&self) -> (r: Self)
        ensures
            r == *self,
        decreases self,
    {
        match self {
            TypeDescriptor::Named(n) => TypeDescriptor::Named(n.clone()),
            TypeDescriptor::Nullable(inner) => TypeDescriptor::Nullable(
                Box::new((&**inner).deep_copy()),
            ),
            TypeDescriptor::List(inner, arity) => TypeDescriptor::List(
                Box::new((&**inner).deep_copy()),
                *arity,
            ),
        }
    }
}

/// The schema registry's descriptor builder, as seen by this crate:
/// it wraps an already-looked-up inner descriptor in the structural
/// modifier matching a composite shape. Lookup and memoization of the
/// inner descriptor live with the registry itself.
pub struct Registry {}

impl Registry {
    pub fn new() -> Registry {
        Registry {}
    }

    /// Wraps the element descriptor of an optional: the optional
    /// itself is a structural modifier and has no name of its own.
    pub fn build_nullable_type(&self, inner: TypeDescriptor) -> (d: TypeDescriptor)
        ensures
            (d matches TypeDescriptor::Nullable(b) && *b == inner),
    {
        TypeDescriptor::Nullable(Box::new(inner))
    }

    /// Wraps the element descriptor of a sequence, with a fixed arity
    /// exactly for fixed-arity sequences.
    pub fn build_list_type(&self, inner: TypeDescriptor, arity: Option<usize>) -> (d: TypeDescriptor)
        ensures
            (d matches TypeDescriptor::List(b, a) && *b == inner && a == arity),
    {
        TypeDescriptor::List(Box::new(inner), arity)
    }
}

/// How a native type appears in the schema: its name, if it has one,
/// and the structural descriptor it is described by. The descriptor of
/// a composite wraps the inner descriptor that the registry already
/// looked up for the contained type; named leaf types ignore it.
pub trait GraphQLType {
    /// The name of the described type; structural modifiers have none.
    spec fn spec_name() -> Option<Seq<char>>;

    fn name() -> (n: Option<&'static str>)
        ensures
            n.deep_view() == Self::spec_name(),
    ;

    /// How the built descriptor relates to the inner descriptor.
    spec fn meta_matches(inner: TypeDescriptor, d: TypeDescriptor) -> bool;

    fn meta(registry: &Registry, inner: TypeDescriptor) -> (d: TypeDescriptor)
        ensures
            Self::meta_matches(inner, d),
    ;
}

impl<T: GraphQLType> GraphQLType for Option<T> {
    /// An optional is a structural modifier: no name of its own.
    open spec fn spec_name() -> Option<Seq<char>> {
        None
    }

    fn name() -> (n: Option<&'static str>) {
        None
    }

    open spec fn meta_matches(inner: TypeDescriptor, d: TypeDescriptor) -> bool {
        d matches TypeDescriptor::Nullable(b) && *b == inner
    }

    fn meta(registry: &Registry, inner: TypeDescriptor) -> (d: TypeDescriptor) {
        registry.build_nullable_type(inner)
    }
}

impl<T: GraphQLType> GraphQLType for Vec<T> {
    /// A sequence is a structural modifier: no name of its own.
    open spec fn spec_name() -> Option<Seq<char>> {
        None
    }

    fn name() -> (n: Option<&'static str>) {
        None
    }

    open spec fn meta_matches(inner: TypeDescriptor, d: TypeDescriptor) -> bool {
        d matches TypeDescriptor::List(b, a) && *b == inner && a is None
    }

    fn meta(registry: &Registry, inner: TypeDescriptor) -> (d: TypeDescriptor) {
        registry.build_list_type(inner, None)
    }
}

impl GraphQLType for i32 {
    open spec fn spec_name() -> Option<Seq<char>> {
        Some("Int"@)
    }

    fn name() -> (n: Option<&'static str>) {
        Some("Int")
    }

    open spec fn meta_matches(inner: TypeDescriptor, d: TypeDescriptor) -> bool {
        d matches TypeDescriptor::Named(n) && n@ == "Int"@
    }

    fn meta(registry: &Registry, inner: TypeDescriptor) -> (d: TypeDescriptor) {
        TypeDescriptor::Named("Int".to_owned())
    }
}

impl GraphQLType for bool {
    open spec fn spec_name() -> Option<Seq<char>> {
        Some("Boolean"@)
    }

    fn name() -> (n: Option<&'static str>) {
        Some("Boolean")
    }

    open spec fn meta_matches(inner: TypeDescriptor, d: TypeDescriptor) -> bool {
        d matches TypeDescriptor::Named(n) && n@ == "Boolean"@
    }

    fn meta(registry: &Registry, inner: TypeDescriptor) -> (d: TypeDescriptor) {
        TypeDescriptor::Named("Boolean".to_owned())
    }
}

impl GraphQLType for String {
    open spec fn spec_name() -> Option<Seq<char>> {
        Some("String"@)
    }

    fn name() -> (n: Option<&'static str>) {
        Some("String")
    }

    open spec fn meta_matches(inner: TypeDescriptor, d: TypeDescriptor) -> bool {
        d matches TypeDescriptor::Named(n) && n@ == "String"@
    }

    fn meta(registry: &Registry, inner: TypeDescriptor) -> (d: TypeDescriptor) {
        TypeDescriptor::Named("String".to_owned())
    }
}

/// The read-only execution position handed through resolution: it
/// carries the descriptor of the type currently being resolved. It is
/// shared by reference across sibling resolutions and never mutated.
pub struct Executor {
    pub current_type: TypeDescriptor,
}

impl Executor {
    /// Declared nullability of the current list position's element
    /// type; `None` when the current position is not list-typed, which
    /// callers must treat as a schema-consistency defect.
    pub fn current_list_contents_nullability(&self) -> (r: Option<bool>)
        ensures
            match (r, self.current_type.spec_list_contents()) {
                (Some(nullable), Some(d)) => nullable == !d.spec_is_non_null(),
                (None, None) => true,
                _ => false,
            },
    {
        match self.current_type.list_contents() {
            Some(d) => Some(!d.is_non_null()),
            None => None,
        }
    }
}

} // verus!
