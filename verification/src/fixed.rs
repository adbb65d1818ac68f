//! Fixed-arity sequences: native aggregates with a compile-time-fixed
//! element count, built all-or-nothing from variable-length wire input.
//!
//! Conversion is attempted only for a list whose element count equals
//! the arity exactly — too few or too many elements fail before any
//! element is converted — and then succeeds only when every element
//! converts; never a partial result. The staging buffer is an
//! ordinary vector, so element ownership is handed over exactly once
//! on success and dropped exactly once on failure.

use vstd::prelude::*;
use crate::input::{FromInputValue, ToInputValue, InputValue, SpecInput, spec_successes, lemma_all_convert, lemma_failed_element_shrinks, lemma_successes_len_le};

verus! {

/// A native sequence whose length is fixed to `N` by its type.
pub struct FixedList<T, const N: usize> {
    items: Vec<T>,
}

impl<T, const N: usize> FixedList<T, N> {
    /// The defining invariant: exactly `N` elements, always.
    #[verifier::type_invariant]
    pub closed spec fn wf(self) -> bool {
        self.items@.len() == N
    }
}

impl<T: DeepView, const N: usize> FixedList<T, N> {
    /// The elements, in order. There are always exactly `N` of them.
    pub fn items(&self) -> (r: &Vec<T>)
        ensures
            r@.len() == N,
            r.deep_view() == self.deep_view(),
    {
        proof {
            use_type_invariant(self);
        }
        &self.items
    }

    /// Builds a fixed-arity sequence from exactly `N` elements.
    pub fn from_vec(items: Vec<T>) -> (r: Self)
        requires
            items@.len() == N,
        ensures
            r.deep_view() == items.deep_view(),
    {
        FixedList { items }
    }
}

impl<T: DeepView, const N: usize> DeepView for FixedList<T, N> {
    type V = Seq<T::V>;

    closed spec fn deep_view(&self) -> Seq<T::V> {
        self.items.deep_view()
    }
}

impl<T: FromInputValue, const N: usize> FromInputValue for FixedList<T, N> {
    /// A list converts only when its element count equals `N` exactly
    /// and every element converts; a non-list converts as a single
    /// coerced element, which can only fill an aggregate of arity one.
    open spec fn from_input_model(v: SpecInput) -> Option<Seq<T::V>> {
        match v {
            SpecInput::List(ls) => if ls.len() == N && spec_successes::<T>(ls).len() == N {
                Some(spec_successes::<T>(ls))
            } else {
                None
            },
            _ => if N == 1 {
                match T::from_input_model(v) {
                    Some(m) => Some(seq![m]),
                    None => None,
                }
            } else {
                None
            },
        }
    }

    fn from_input_value(v: &InputValue) -> (r: Option<FixedList<T, N>>) {
        match v {
            InputValue::List(ls) => {
                let ghost lsm = InputValue::model_seq(ls@);
                proof {
                    InputValue::lemma_model_seq_points(ls@);
                }
                if ls.len() != N {
                    // The count can never equal the arity: fail before
                    // converting any element.
                    return None;
                }
                let mut out: Vec<T> = Vec::new();
                for i in 0..ls.len()
                    invariant
                        lsm == InputValue::model_seq(ls@),
                        lsm.len() == ls@.len(),
                        forall|j: int| 0 <= j < ls@.len()
                            ==> lsm[j] == (#[trigger] ls@[j]).model(),
                        out.deep_view() == spec_successes::<T>(lsm.take(i as int)),
                {
                    proof {
                        assert(lsm.take(i + 1).drop_last() =~= lsm.take(i as int));
                        assert(lsm.take(i + 1).last() == ls@[i as int].model());
                    }
                    match T::from_input_value(&ls[i]) {
                        Some(t) => {
                            let ghost prev = out.deep_view();
                            out.push(t);
                            proof {
                                assert(out.deep_view() =~= prev.push(t.deep_view()));
                            }
                        },
                        None => {},
                    }
                }
                proof {
                    assert(lsm.take(ls@.len() as int) =~= lsm);
                }
                if out.len() == N {
                    Some(FixedList { items: out })
                } else {
                    None
                }
            },
            other => {
                if N == 1 {
                    match T::from_input_value(other) {
                        Some(e) => {
                            let mut items: Vec<T> = Vec::new();
                            let ghost ev = e.deep_view();
                            items.push(e);
                            proof {
                                assert(items.deep_view() =~= seq![ev]);
                            }
                            Some(FixedList { items })
                        },
                        None => None,
                    }
                } else {
                    None
                }
            },
        }
    }
}

impl<T: ToInputValue, const N: usize> ToInputValue for FixedList<T, N> {
    /// Each of the `N` elements through its own conversion, in order:
    /// the produced list has length `N` by construction.
    open spec fn to_input_model(m: Seq<T::V>) -> SpecInput {
        SpecInput::List(Seq::new(m.len(), |i: int| T::to_input_model(m[i])))
    }

    fn to_input_value(&self) -> (r: InputValue) {
        self.items.to_input_value()
    }
}

impl<T: crate::schema::GraphQLType, const N: usize> crate::schema::GraphQLType for FixedList<
    T,
    N,
> {
    /// A fixed-arity sequence is a structural modifier: no name of
    /// its own, a list descriptor with its arity recorded.
    open spec fn spec_name() -> Option<Seq<char>> {
        None
    }

    fn name() -> (n: Option<&'static str>) {
        None
    }

    open spec fn meta_matches(
        inner: crate::schema::TypeDescriptor,
        d: crate::schema::TypeDescriptor,
    ) -> bool {
        d matches crate::schema::TypeDescriptor::List(b, a) && *b == inner && a == Some(N)
    }

    fn meta(registry: &crate::schema::Registry, inner: crate::schema::TypeDescriptor) -> (d:
        crate::schema::TypeDescriptor) {
        registry.build_list_type(inner, Some(N))
    }
}

/// Converting a list whose elements all convert into a fixed-arity
/// aggregate succeeds exactly when the list length equals the arity,
/// and then preserves the element order; any other length fails.
pub proof fn lemma_fixed_arity_length<T: FromInputValue, const N: usize>(s: Seq<SpecInput>)
    requires
        forall|i: int| 0 <= i < s.len() ==> (#[trigger] T::from_input_model(s[i])) is Some,
    ensures
        s.len() == N ==> {
            &&& <FixedList<T, N> as FromInputValue>::from_input_model(SpecInput::List(s))
                == Some(spec_successes::<T>(s))
            &&& spec_successes::<T>(s).len() == s.len()
            &&& forall|i: int| 0 <= i < s.len()
                ==> #[trigger] T::from_input_model(s[i]) == Some(spec_successes::<T>(s)[i])
        },
        s.len() != N
            ==> <FixedList<T, N> as FromInputValue>::from_input_model(SpecInput::List(s)) is None,
{
    lemma_all_convert::<T>(s);
}

/// A non-list input fills a fixed-arity aggregate only at arity one,
/// as a single coerced element.
pub proof fn lemma_fixed_arity_single<T: FromInputValue, const N: usize>(v: SpecInput)
    requires
        !(v is List),
    ensures
        N != 1
            ==> <FixedList<T, N> as FromInputValue>::from_input_model(v) is None,
        N == 1 ==> <FixedList<T, N> as FromInputValue>::from_input_model(v)
            == (match T::from_input_model(v) {
                Some(m) => Some(seq![m]),
                None => None,
            }),
{
}

/// A list whose length differs from the arity never converts,
/// whatever its elements hold.
pub proof fn lemma_fixed_arity_wrong_length<T: FromInputValue, const N: usize>(
    s: Seq<SpecInput>,
)
    requires
        s.len() != N,
    ensures
        <FixedList<T, N> as FromInputValue>::from_input_model(SpecInput::List(s)) is None,
{
}

/// A list with one unconvertible element never fills a fixed-arity
/// aggregate: the failure voids the whole conversion.
pub proof fn lemma_unconvertible_element_fails_fixed<T: FromInputValue, const N: usize>(
    s: Seq<SpecInput>,
    i: int,
)
    requires
        0 <= i < s.len(),
        T::from_input_model(s[i]) is None,
    ensures
        <FixedList<T, N> as FromInputValue>::from_input_model(SpecInput::List(s)) is None,
{
    lemma_failed_element_shrinks::<T>(s, i);
}

} // verus!
