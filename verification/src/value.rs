//! The primitive values that the library accepts and produces.
use vstd::prelude::*;
use vstd::std_specs::cmp::PartialEqSpecImpl;
use vstd::std_specs::convert::FromSpec;
use vstd::std_specs::convert::FromSpecImpl;
use vstd::std_specs::convert::TryFromSpec;
use vstd::std_specs::convert::TryFromSpecImpl;
use crate::errors::Error;

verus! {

/// An IEEE-754 binary64 number, held by its bit pattern.
///
/// The number is carried, compared and handed back; arithmetic on it is
/// left to the caller.
#[derive(Clone, Copy, Debug)]
pub struct Float64 {
    pub bits: u64,
}

impl Float64 {
    /// Sign bit cleared: exponent and fraction.
    pub open spec fn magnitude(self) -> u64 {
        self.bits & 0x7fff_ffff_ffff_ffff
    }

    /// Not a number: all exponent bits set and a fraction that is not zero.
    pub open spec fn nan(self) -> bool {
        self.magnitude() > 0x7ff0_0000_0000_0000
    }

    /// An integer that orders the numbers as their values do; both zeros
    /// share the place 0.
    pub open spec fn place(self) -> int {
        if self.bits & 0x8000_0000_0000_0000 != 0 {
            -(self.magnitude() as int)
        } else {
            self.magnitude() as int
        }
    }

    /// Equality of the two numbers: false where either is not a number.
    pub open spec fn same_number(self, other: Float64) -> bool {
        !self.nan() && !other.nan() && self.place() == other.place()
    }

    /// Strict order of the two numbers: false where either is not a number.
    pub open spec fn below(self, other: Float64) -> bool {
        !self.nan() && !other.nan() && self.place() < other.place()
    }

    pub fn from_bits(bits: u64) -> (r: Float64)
        ensures
            r.bits == bits,
    {
        Float64 { bits }
    }

    pub fn to_bits(self) -> (r: u64)
        ensures
            r == self.bits,
    {
        self.bits
    }

    pub fn is_nan(self) -> (r: bool)
        ensures
            r == self.nan(),
    {
        self.bits & 0x7fff_ffff_ffff_ffff > 0x7ff0_0000_0000_0000
    }

    fn place_of(self) -> (r: i128)
        ensures
            r == self.place(),
    {
        let magnitude: u64 = self.bits & 0x7fff_ffff_ffff_ffff;
        if self.bits & 0x8000_0000_0000_0000 != 0 {
            -(magnitude as i128)
        } else {
            magnitude as i128
        }
    }

    /// `self == other` as numbers.
    pub fn is_equal_to(self, other: Float64) -> (r: bool)
        ensures
            r == self.same_number(other),
    {
        !self.is_nan() && !other.is_nan() && self.place_of() == other.place_of()
    }

    /// `self < other` as numbers.
    pub fn is_less_than(self, other: Float64) -> (r: bool)
        ensures
            r == self.below(other),
    {
        !self.is_nan() && !other.is_nan() && self.place_of() < other.place_of()
    }
}

impl PartialEq for Float64 {
    fn eq(&self, other: &Self) -> (r: bool) {
        self.is_equal_to(*other)
    }
}

impl PartialEqSpecImpl for Float64 {
    open spec fn obeys_eq_spec() -> bool {
        true
    }

    /// Equality of the numbers, not of the bit patterns.
    open spec fn eq_spec(&self, other: &Self) -> bool {
        self.same_number(*other)
    }
}

/// A primitive value: what an entity attribute holds and what an evaluation
/// yields.
#[derive(Debug)]
pub enum Value {
    Float64(Float64),
    UInt64(u64),
    Int64(i64),
    String(String),
    Boolean(bool),
}

/// A [`Value`] with its text as a sequence of characters.
pub enum ValueView {
    Float64(Float64),
    UInt64(u64),
    Int64(i64),
    String(Seq<char>),
    Boolean(bool),
}

impl View for Value {
    type V = ValueView;

    open spec fn view(&self) -> ValueView {
        match *self {
            Value::Float64(v) => ValueView::Float64(v),
            Value::UInt64(v) => ValueView::UInt64(v),
            Value::Int64(v) => ValueView::Int64(v),
            Value::String(v) => ValueView::String(v@),
            Value::Boolean(v) => ValueView::Boolean(v),
        }
    }
}

impl Clone for Value {
    fn clone(&self) -> (r: Self)
        ensures
            r == *self,
    {
        match self {
            Value::Float64(v) => Value::Float64(*v),
            Value::UInt64(v) => Value::UInt64(*v),
            Value::Int64(v) => Value::Int64(*v),
            Value::String(v) => Value::String(v.clone()),
            Value::Boolean(v) => Value::Boolean(*v),
        }
    }
}

impl PartialEq for Value {
    fn eq(&self, other: &Self) -> (r: bool) {
        match (self, other) {
            (Value::Float64(a), Value::Float64(b)) => a.is_equal_to(*b),
            (Value::UInt64(a), Value::UInt64(b)) => *a == *b,
            (Value::Int64(a), Value::Int64(b)) => *a == *b,
            (Value::String(a), Value::String(b)) => *a == *b,
            (Value::Boolean(a), Value::Boolean(b)) => *a == *b,
            _ => false,
        }
    }
}

impl PartialEqSpecImpl for Value {
    open spec fn obeys_eq_spec() -> bool {
        true
    }

    /// Two values are equal where they are of one variant and hold the same:
    /// the same number, the same characters, the same truth value.
    open spec fn eq_spec(&self, other: &Self) -> bool {
        match (*self, *other) {
            (Value::Float64(a), Value::Float64(b)) => a.same_number(b),
            (Value::UInt64(a), Value::UInt64(b)) => a == b,
            (Value::Int64(a), Value::Int64(b)) => a == b,
            (Value::String(a), Value::String(b)) => a@ == b@,
            (Value::Boolean(a), Value::Boolean(b)) => a == b,
            _ => false,
        }
    }
}

impl From<Float64> for Value {
    fn from(value: Float64) -> (r: Value) {
        Value::Float64(value)
    }
}

impl FromSpecImpl<Float64> for Value {
    open spec fn obeys_from_spec() -> bool {
        true
    }

    open spec fn from_spec(value: Float64) -> Value {
        Value::Float64(value)
    }
}

impl From<u64> for Value {
    fn from(value: u64) -> (r: Value) {
        Value::UInt64(value)
    }
}

impl FromSpecImpl<u64> for Value {
    open spec fn obeys_from_spec() -> bool {
        true
    }

    open spec fn from_spec(value: u64) -> Value {
        Value::UInt64(value)
    }
}

impl From<i64> for Value {
    fn from(value: i64) -> (r: Value) {
        Value::Int64(value)
    }
}

impl FromSpecImpl<i64> for Value {
    open spec fn obeys_from_spec() -> bool {
        true
    }

    open spec fn from_spec(value: i64) -> Value {
        Value::Int64(value)
    }
}

impl From<String> for Value {
    fn from(value: String) -> (r: Value) {
        Value::String(value)
    }
}

impl FromSpecImpl<String> for Value {
    open spec fn obeys_from_spec() -> bool {
        true
    }

    open spec fn from_spec(value: String) -> Value {
        Value::String(value)
    }
}

impl From<bool> for Value {
    fn from(value: bool) -> (r: Value) {
        Value::Boolean(value)
    }
}

impl FromSpecImpl<bool> for Value {
    open spec fn obeys_from_spec() -> bool {
        true
    }

    open spec fn from_spec(value: bool) -> Value {
        Value::Boolean(value)
    }
}

impl TryFrom<Value> for Float64 {
    type Error = Error;

    fn try_from(value: Value) -> (r: Result<Float64, Error>) {
        match value {
            Value::Float64(v) => Ok(v),
            _ => Err(Error::MismatchType),
        }
    }
}

impl TryFromSpecImpl<Value> for Float64 {
    open spec fn obeys_try_from_spec() -> bool {
        true
    }

    open spec fn try_from_spec(value: Value) -> Result<Float64, Error> {
        match value {
            Value::Float64(v) => Ok(v),
            _ => Err(Error::MismatchType),
        }
    }
}

impl TryFrom<Value> for u64 {
    type Error = Error;

    fn try_from(value: Value) -> (r: Result<u64, Error>) {
        match value {
            Value::UInt64(v) => Ok(v),
            Value::Int64(v) => if v >= 0 {
                Ok(v as u64)
            } else {
                Err(Error::MismatchType)
            },
            _ => Err(Error::MismatchType),
        }
    }
}

impl TryFromSpecImpl<Value> for u64 {
    open spec fn obeys_try_from_spec() -> bool {
        true
    }

    /// An unsigned value as it is; a signed one where it is not negative.
    open spec fn try_from_spec(value: Value) -> Result<u64, Error> {
        match value {
            Value::UInt64(v) => Ok(v),
            Value::Int64(v) => if v >= 0 {
                Ok(v as u64)
            } else {
                Err(Error::MismatchType)
            },
            _ => Err(Error::MismatchType),
        }
    }
}

impl TryFrom<Value> for i64 {
    type Error = Error;

    fn try_from(value: Value) -> (r: Result<i64, Error>) {
        match value {
            Value::Int64(v) => Ok(v),
            Value::UInt64(v) => if v <= 0x7fff_ffff_ffff_ffff {
                Ok(v as i64)
            } else {
                Err(Error::MismatchType)
            },
            _ => Err(Error::MismatchType),
        }
    }
}

impl TryFromSpecImpl<Value> for i64 {
    open spec fn obeys_try_from_spec() -> bool {
        true
    }

    /// A signed value as it is; an unsigned one where it fits.
    open spec fn try_from_spec(value: Value) -> Result<i64, Error> {
        match value {
            Value::Int64(v) => Ok(v),
            Value::UInt64(v) => if v <= i64::MAX {
                Ok(v as i64)
            } else {
                Err(Error::MismatchType)
            },
            _ => Err(Error::MismatchType),
        }
    }
}

impl TryFrom<Value> for String {
    type Error = Error;

    fn try_from(value: Value) -> (r: Result<String, Error>) {
        match value {
            Value::String(v) => Ok(v),
            _ => Err(Error::MismatchType),
        }
    }
}

impl TryFromSpecImpl<Value> for String {
    open spec fn obeys_try_from_spec() -> bool {
        true
    }

    open spec fn try_from_spec(value: Value) -> Result<String, Error> {
        match value {
            Value::String(v) => Ok(v),
            _ => Err(Error::MismatchType),
        }
    }
}

impl TryFrom<Value> for bool {
    type Error = Error;

    fn try_from(value: Value) -> (r: Result<bool, Error>) {
        match value {
            Value::Boolean(v) => Ok(v),
            _ => Err(Error::MismatchType),
        }
    }
}

impl TryFromSpecImpl<Value> for bool {
    open spec fn obeys_try_from_spec() -> bool {
        true
    }

    open spec fn try_from_spec(value: Value) -> Result<bool, Error> {
        match value {
            Value::Boolean(v) => Ok(v),
            _ => Err(Error::MismatchType),
        }
    }
}

/// Turning a primitive into a `Value` and back gives the primitive again,
/// and the `Value` in between is of the variant named after the type.
pub proof fn law_primitive_round_trip(f: Float64, u: u64, i: i64, s: String, b: bool)
    ensures
        <Float64 as TryFromSpec<Value>>::try_from_spec(<Value as FromSpec<Float64>>::from_spec(f)) == Ok::<Float64, Error>(f),
        <u64 as TryFromSpec<Value>>::try_from_spec(<Value as FromSpec<u64>>::from_spec(u)) == Ok::<u64, Error>(u),
        <i64 as TryFromSpec<Value>>::try_from_spec(<Value as FromSpec<i64>>::from_spec(i)) == Ok::<i64, Error>(i),
        <String as TryFromSpec<Value>>::try_from_spec(<Value as FromSpec<String>>::from_spec(s)) == Ok::<String, Error>(s),
        <bool as TryFromSpec<Value>>::try_from_spec(<Value as FromSpec<bool>>::from_spec(b)) == Ok::<bool, Error>(b),
{
}

/// Turning a `Value` into the primitive of its own variant and back gives the
/// `Value` again.
pub proof fn law_value_round_trip(value: Value)
    ensures
        value is Float64 ==> <Float64 as TryFromSpec<Value>>::try_from_spec(value) is Ok && <Value as FromSpec<Float64>>::from_spec(
            <Float64 as TryFromSpec<Value>>::try_from_spec(value)->Ok_0,
        ) == value,
        value is UInt64 ==> <u64 as TryFromSpec<Value>>::try_from_spec(value) is Ok && <Value as FromSpec<u64>>::from_spec(
            <u64 as TryFromSpec<Value>>::try_from_spec(value)->Ok_0,
        ) == value,
        value is Int64 ==> <i64 as TryFromSpec<Value>>::try_from_spec(value) is Ok && <Value as FromSpec<i64>>::from_spec(
            <i64 as TryFromSpec<Value>>::try_from_spec(value)->Ok_0,
        ) == value,
        value is String ==> <String as TryFromSpec<Value>>::try_from_spec(value) is Ok && <Value as FromSpec<String>>::from_spec(
            <String as TryFromSpec<Value>>::try_from_spec(value)->Ok_0,
        ) == value,
        value is Boolean ==> <bool as TryFromSpec<Value>>::try_from_spec(value) is Ok && <Value as FromSpec<bool>>::from_spec(
            <bool as TryFromSpec<Value>>::try_from_spec(value)->Ok_0,
        ) == value,
{
}

} // verus!
