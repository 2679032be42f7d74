//! Input validation.

use vstd::prelude::*;

use crate::error::ErrorCode;

verus! {

/// A validation failure: the named value was rejected.
#[derive(Clone, Copy, Debug)]
pub struct FieldOutOfRange {
    /// The name of the rejected value.
    pub name: &'static str,
    /// The inclusive lower bound that was required.
    pub lo: usize,
    /// The inclusive upper bound that was required.
    pub hi: usize,
}

impl FieldOutOfRange {
    /// The wire error code of this failure: a well-formed body whose
    /// data is out of range is `InvalidData`.
    pub open spec fn spec_error_code(&self) -> ErrorCode {
        ErrorCode::InvalidData
    }

    /// Returns the wire error code of this failure.
    pub fn error_code(&self) -> (r: ErrorCode)
        ensures
            r == self.spec_error_code(),
    {
        ErrorCode::InvalidData
    }
}

/// A validator: a named value together with the checks layered on
/// it.
pub trait Validator<T>: Sized {
    /// The value being validated.
    spec fn spec_value(&self) -> T;

    /// Whether the layered checks accept the value.
    spec fn spec_accepts(&self) -> bool;

    /// The name of the value.
    spec fn spec_name(&self) -> Seq<char>;

    /// Returns the name of the value.
    fn name(&self) -> (r: &'static str)
        ensures
            r@ == self.spec_name(),
    ;

    /// Runs the validation: the value itself when every check
    /// accepts it, and a descriptive error otherwise.
    fn validate(self) -> (r: Result<T, FieldOutOfRange>)
        ensures
            r matches Ok(v) ==> v == self.spec_value() && self.spec_accepts(),
            r is Err ==> !self.spec_accepts(),
            r matches Err(e) ==> e.name@ == self.spec_name(),
    ;
}

/// Validator extension functions.
pub trait ValidatorExt: Sized {
    /// Layers an inclusive range check on this validator.
    fn in_range(self, lo: usize, hi: usize) -> (r: RangeValidator<Self>)
        ensures
            r.inner == self,
            r.lo == lo,
            r.hi == hi,
    ;
}

impl<I> ValidatorExt for I where I: Validator<usize> {
    fn in_range(self, lo: usize, hi: usize) -> (r: RangeValidator<Self>) {
        RangeValidator::new(self, lo, hi)
    }
}

/// Represents a value with no constraints.
///
/// This is where all input validation begins; on its own it always
/// validates happily.
#[derive(Clone, Copy, Debug)]
pub struct Value<T> {
    /// The name of the value.
    pub name: &'static str,
    /// The value itself.
    pub value: T,
}

impl<T> Value<T> {
    /// Creates a new `Value`.
    pub fn new(name: &'static str, value: T) -> (r: Value<T>)
        ensures
            r.spec_value() == value,
            r.spec_name() == name@,
    {
        Value { name, value }
    }
}

impl<T> Validator<T> for Value<T> {
    open spec fn spec_value(&self) -> T {
        self.value
    }

    open spec fn spec_accepts(&self) -> bool {
        true
    }

    open spec fn spec_name(&self) -> Seq<char> {
        self.name@
    }

    fn name(&self) -> &'static str {
        self.name
    }

    fn validate(self) -> (r: Result<T, FieldOutOfRange>) {
        Ok(self.value)
    }
}

/// An inclusive range check layered on an inner validator.
#[derive(Clone, Copy, Debug)]
pub struct RangeValidator<I> {
    /// The inner validator.
    pub inner: I,
    /// The inclusive lower bound.
    pub lo: usize,
    /// The inclusive upper bound.
    pub hi: usize,
}

impl<I> RangeValidator<I> {
    /// Creates a new `RangeValidator`.
    pub fn new(inner: I, lo: usize, hi: usize) -> (r: RangeValidator<I>)
        ensures
            r.inner == inner,
            r.lo == lo,
            r.hi == hi,
    {
        RangeValidator { inner, lo, hi }
    }
}

impl<I> Validator<usize> for RangeValidator<I> where I: Validator<usize> {
    open spec fn spec_value(&self) -> usize {
        self.inner.spec_value()
    }

    open spec fn spec_accepts(&self) -> bool {
        self.inner.spec_accepts() && self.lo <= self.inner.spec_value() <= self.hi
    }

    open spec fn spec_name(&self) -> Seq<char> {
        self.inner.spec_name()
    }

    fn name(&self) -> &'static str {
        self.inner.name()
    }

    /// Checks that the inner validation passes and the value lies in
    /// the range, returning a descriptive error otherwise.
    fn validate(self) -> (r: Result<usize, FieldOutOfRange>) {
        let name = self.inner.name();
        let value = match self.inner.validate() {
            Ok(value) => value,
            Err(e) => {
                return Err(e);
            },
        };
        if self.lo <= value && value <= self.hi {
            Ok(value)
        } else {
            Err(FieldOutOfRange { name, lo: self.lo, hi: self.hi })
        }
    }
}

/// Shorthand for [`Value::new`].
pub fn value<T>(name: &'static str, v: T) -> (r: Value<T>)
    ensures
        r.spec_value() == v,
        r.spec_name() == name@,
{
    Value::new(name, v)
}

} // verus!
