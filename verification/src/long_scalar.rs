//! The `Long` scalar: 64-bit signed integers as a user-defined scalar
//! extension, with its lexer-token parser.
//!
//! A 64-bit integer resolves to a `Long` scalar leaf, converts from
//! exactly the `Long` input scalar, and parses from an integer lexer
//! token by a checked decimal reader: an optional leading plus or
//! minus sign, then decimal digits, rejecting anything else and any
//! value outside the 64-bit signed range.

use vstd::prelude::*;
use vstd::utf8::is_ascii_chars;
use crate::scalar::{MyScalarValue, SpecScalar};
use crate::schema::{Executor, GraphQLType, Registry, TypeDescriptor};
use crate::value::{ExecutionResult, FieldError, SpecOutput, Value};
use crate::resolve::GraphQLValue;

verus! {

impl GraphQLValue for i64 {
    open spec fn resolve_requires(m: i64, ex: Executor) -> bool {
        true
    }

    open spec fn resolve_model(m: i64, ex: Executor) -> Result<SpecOutput, FieldError> {
        Ok(SpecOutput::Scalar(SpecScalar::Long(m)))
    }

    fn resolve(&self, executor: &Executor) -> (r: ExecutionResult) {
        Ok(Value::Scalar(MyScalarValue::Long(*self)))
    }

    open spec fn concrete_type_name_model(m: Self::V) -> Option<Seq<char>> {
        Some("Long"@)
    }

    fn concrete_type_name(&self) -> (n: Option<&'static str>) {
        Some("Long")
    }
}

impl GraphQLType for i64 {
    open spec fn spec_name() -> Option<Seq<char>> {
        Some("Long"@)
    }

    fn name() -> (n: Option<&'static str>) {
        Some("Long")
    }

    open spec fn meta_matches(inner: TypeDescriptor, d: TypeDescriptor) -> bool {
        d matches TypeDescriptor::Named(n) && n@ == "Long"@
    }

    fn meta(registry: &Registry, inner: TypeDescriptor) -> (d: TypeDescriptor) {
        TypeDescriptor::Named("Long".to_owned())
    }
}

/// A scalar token handed over by the query lexer.
#[derive(Debug, PartialEq, Eq, Clone, Copy)]
pub enum ScalarToken<'a> {
    Int(&'a str),
    Float(&'a str),
    String(&'a str),
}

/// Failure to parse a scalar token into a scalar value.
#[derive(Debug, PartialEq, Eq)]
pub enum ParseError<'a> {
    UnexpectedToken(ScalarToken<'a>),
}

pub open spec fn spec_is_digit(c: char) -> bool {
    '0' <= c <= '9'
}

/// Every position is a decimal digit, and there is at least one.
pub open spec fn spec_all_digits(s: Seq<char>) -> bool {
    s.len() > 0 && forall|i: int| 0 <= i < s.len() ==> spec_is_digit(#[trigger] s[i])
}

/// The value of a digit sequence read in base ten.
pub open spec fn spec_digits_val(s: Seq<char>) -> int
    decreases s.len(),
{
    if s.len() == 0 {
        0
    } else {
        spec_digits_val(s.drop_last()) * 10 + (s.last() as u8 - 48)
    }
}

/// The 64-bit signed integer a character sequence parses to: an
/// optional leading plus or minus sign, then decimal digits; `None`
/// for any other shape and for values outside the 64-bit signed
/// range.
pub open spec fn spec_parse_i64(s: Seq<char>) -> Option<i64> {
    let neg = s.len() > 0 && s[0] == '-';
    let signed = s.len() > 0 && (s[0] == '-' || s[0] == '+');
    let ds = if signed {
        s.drop_first()
    } else {
        s
    };
    if !spec_all_digits(ds) {
        None
    } else {
        let n = spec_digits_val(ds);
        if neg {
            if n <= 0x8000000000000000 {
                Some((-n) as i64)
            } else {
                None
            }
        } else {
            if n <= 0x7FFFFFFFFFFFFFFF {
                Some(n as i64)
            } else {
                None
            }
        }
    }
}

proof fn lemma_digits_val_nonneg(s: Seq<char>)
    requires
        forall|i: int| 0 <= i < s.len() ==> spec_is_digit(#[trigger] s[i]),
    ensures
        spec_digits_val(s) >= 0,
    decreases s.len(),
{
    if s.len() > 0 {
        assert(forall|i: int| 0 <= i < s.len() - 1 ==> s.drop_last()[i] == s[i]);
        lemma_digits_val_nonneg(s.drop_last());
    }
}

/// Reading more digits never shrinks the value.
proof fn lemma_digits_val_extend(s: Seq<char>, k: int)
    requires
        0 <= k <= s.len(),
        forall|i: int| 0 <= i < s.len() ==> spec_is_digit(#[trigger] s[i]),
    ensures
        spec_digits_val(s.take(k)) <= spec_digits_val(s),
    decreases s.len(),
{
    if k < s.len() {
        assert(forall|i: int| 0 <= i < s.len() - 1 ==> s.drop_last()[i] == s[i]);
        lemma_digits_val_nonneg(s.drop_last());
        lemma_digits_val_extend(s.drop_last(), k);
        assert(s.drop_last().take(k) =~= s.take(k));
    } else {
        assert(s.take(k) =~= s);
    }
}

/// Parses a 64-bit signed integer from decimal text — an optional
/// leading plus or minus sign, then digits — rejecting any other
/// shape and any out-of-range value.
pub fn parse_i64(s: &str) -> (r: Option<i64>)
    ensures
        r == spec_parse_i64(s@),
{
    let ghost sv = s@;
    if !s.is_ascii() {
        proof {
            let i = choose|i: int| 0 <= i < sv.len() && !('\0' <= #[trigger] sv[i] <= '\u{7f}');
            let ds = if sv.len() > 0 && (sv[0] == '-' || sv[0] == '+') {
                sv.drop_first()
            } else {
                sv
            };
            if sv.len() > 0 && (sv[0] == '-' || sv[0] == '+') {
                assert(ds[i - 1] == sv[i]);
                assert(!spec_is_digit(ds[i - 1]));
            } else {
                assert(!spec_is_digit(ds[i]));
            }
        }
        return None;
    }
    let len = s.unicode_len();
    let first: u8 = if len > 0 {
        s.get_ascii(0)
    } else {
        0
    };
    let neg = len > 0 && first == 45;
    let start: usize = if len > 0 && (first == 45 || first == 43) {
        1
    } else {
        0
    };
    let ghost ds = if start == 1 {
        sv.drop_first()
    } else {
        sv
    };
    proof {
        assert((start == 1) == (sv.len() > 0 && (sv[0] == '-' || sv[0] == '+')));
        assert(neg == (sv.len() > 0 && sv[0] == '-'));
    }
    if start >= len {
        return None;
    }
    let mut acc: u64 = 0;
    let mut j: usize = start;
    proof {
        assert(ds.take(0) =~= Seq::<char>::empty());
    }
    while j < len
        invariant
            sv == s@,
            is_ascii_chars(sv),
            s.is_ascii(),
            len == sv.len(),
            start <= j <= len,
            start <= 1,
            start < len,
            (start == 1) == (sv.len() > 0 && (sv[0] == '-' || sv[0] == '+')),
            neg == (sv.len() > 0 && sv[0] == '-'),
            ds == (if start == 1 {
                sv.drop_first()
            } else {
                sv
            }),
            ds.len() == len - start,
            forall|k: int| 0 <= k < j - start ==> spec_is_digit(#[trigger] ds[k]),
            acc == spec_digits_val(ds.take(j - start)),
            acc <= 0x8000000000000000,
        decreases len - j,
    {
        let b = s.get_ascii(j);
        proof {
            assert(sv[j as int] == ds[j - start]);
        }
        if b < 48 || b > 57 {
            proof {
                assert(!spec_is_digit(ds[j - start]));
            }
            return None;
        }
        let dv: u64 = (b - 48) as u64;
        proof {
            assert(ds.take(j - start + 1).drop_last() =~= ds.take(j - start));
            assert(ds.take(j - start + 1).last() == ds[j - start]);
            assert(spec_digits_val(ds.take(j - start + 1)) == acc * 10 + dv);
        }
        if acc > (0x8000000000000000u64 - dv) / 10 {
            proof {
                if spec_all_digits(ds) {
                    lemma_digits_val_extend(ds, j - start + 1);
                    assert(acc * 10 + dv > 0x8000000000000000) by {
                        assert(acc >= (0x8000000000000000u64 - dv) / 10 + 1);
                    }
                }
            }
            return None;
        }
        proof {
            assert(acc * 10 + dv <= 0x8000000000000000) by {
                assert(acc <= (0x8000000000000000u64 - dv) / 10);
                assert(acc * 10 <= ((0x8000000000000000u64 - dv) / 10) * 10);
                assert(((0x8000000000000000u64 - dv) / 10) * 10 <= 0x8000000000000000 - dv);
            }
        }
        acc = acc * 10 + dv;
        j = j + 1;
    }
    proof {
        assert(ds.take(len - start) =~= ds);
        assert(spec_all_digits(ds));
        lemma_digits_val_nonneg(ds);
    }
    if neg {
        if acc == 0x8000000000000000 {
            Some(i64::MIN)
        } else {
            Some(-(acc as i64))
        }
    } else {
        if acc <= 0x7FFFFFFFFFFFFFFF {
            Some(acc as i64)
        } else {
            None
        }
    }
}

/// Parses an integer lexer token into a `Long` scalar value; any
/// other token kind, and any integer text outside the 64-bit signed
/// range, is rejected as an unexpected token.
pub fn from_str<'a>(value: ScalarToken<'a>) -> (r: Result<MyScalarValue, ParseError<'a>>)
    ensures
        match value {
            ScalarToken::Int(txt) => match spec_parse_i64(txt@) {
                Some(n) => r matches Ok(v) && v@ == SpecScalar::Long(n),
                None => r matches Err(ParseError::UnexpectedToken(t)) && t == value,
            },
            _ => r matches Err(ParseError::UnexpectedToken(t)) && t == value,
        },
{
    match value {
        ScalarToken::Int(v) => match parse_i64(v) {
            Some(n) => Ok(MyScalarValue::Long(n)),
            None => Err(ParseError::UnexpectedToken(value)),
        },
        _ => Err(ParseError::UnexpectedToken(value)),
    }
}

/// A field returning the smallest 64-bit value that does not fit in
/// 32 bits, and a field echoing its 64-bit argument.
pub struct TestType;

impl TestType {
    pub fn long_field() -> (r: i64)
        ensures
            r == 0x80000000i64,
    {
        let max: i64 = i32::MAX as i64;
        max + 1
    }

    pub fn long_with_arg(long_arg: i64) -> (r: i64)
        ensures
            r == long_arg,
    {
        long_arg
    }
}

} // verus!
