//! Coercion rule for integers that must not be zero.

use vstd::prelude::*;
use vstd::string::*;
use crate::line::{Environment, EnvironmentModel};
use crate::promptable::{Completion, Promptable};

verus! {

/// A promptable integer type: one that can tell whether a value is zero.
pub trait Integer: Promptable {
    /// Whether `value` is zero.
    spec fn zero(value: Self::V) -> bool;

    /// Whether the value is zero.
    fn is_zero(&self) -> (b: bool)
        ensures
            b == Self::zero(self@),
    ;
}

/// An integer of type `T` that is not zero.
#[derive(Debug, PartialEq, Eq)]
pub struct NonZeroInt<T: Integer> {
    value: T,
}

impl<T: Integer> View for NonZeroInt<T> {
    type V = T::V;

    closed spec fn view(&self) -> T::V {
        self.value@
    }
}

/// The diagnostic for a zero where none is allowed.
pub open spec fn zero_refused() -> Seq<char> {
    "number would be zero for non-zero type"@
}

/// What a coercion into `T` gives where zero is refused: the same value or
/// diagnostic, but for zero, which is rejected.
pub open spec fn nonzero_parsed<T: Integer>(text: Seq<char>, env: EnvironmentModel) -> Result<
    T::V,
    Seq<char>,
> {
    match T::parsed(text, env) {
        Ok(value) => if T::zero(value) {
            Err(zero_refused())
        } else {
            Ok(value)
        },
        Err(diagnostic) => Err(diagnostic),
    }
}

impl<T: Integer> NonZeroInt<T> {
    /// Whether the integer held is not zero, as it must be.
    #[verifier::type_invariant]
    pub closed spec fn is_nonzero(self) -> bool {
        !T::zero(self.value@)
    }

    /// The integer `value` as one that is not zero, or nothing for zero.
    pub fn new(value: T) -> (r: Option<NonZeroInt<T>>)
        ensures
            match r {
                Some(held) => !T::zero(value@) && held@ == value@,
                None => T::zero(value@),
            },
    {
        if value.is_zero() {
            None
        } else {
            Some(NonZeroInt { value })
        }
    }

    /// The integer held, which is not zero.
    pub fn get(self) -> (value: T)
        ensures
            value@ == self@,
            !T::zero(value@),
    {
        proof {
            use_type_invariant(&self);
        }
        self.value
    }
}

impl<T: Integer> Promptable for NonZeroInt<T> {
    open spec fn parsed(text: Seq<char>, env: EnvironmentModel) -> Result<T::V, Seq<char>> {
        nonzero_parsed::<T>(text, env)
    }

    open spec fn default_hint(default: T::V) -> Seq<char> {
        T::default_hint(default)
    }

    open spec fn completer() -> Completion {
        Completion::Plain
    }

    fn parse(text: &str, env: &Environment) -> (r: Result<NonZeroInt<T>, String>) {
        match T::parse(text, env) {
            Ok(value) => match NonZeroInt::new(value) {
                Some(held) => Ok(held),
                None => Err(String::from_str("number would be zero for non-zero type")),
            },
            Err(diagnostic) => Err(diagnostic),
        }
    }

    fn hint(default: &NonZeroInt<T>) -> (out: String) {
        T::hint(&default.value)
    }

    fn completion() -> (c: Completion) {
        Completion::Plain
    }
}

impl Integer for u8 {
    open spec fn zero(value: u8) -> bool {
        value == 0
    }

    fn is_zero(&self) -> (b: bool) {
        *self == 0
    }
}

impl Integer for u16 {
    open spec fn zero(value: u16) -> bool {
        value == 0
    }

    fn is_zero(&self) -> (b: bool) {
        *self == 0
    }
}

impl Integer for u32 {
    open spec fn zero(value: u32) -> bool {
        value == 0
    }

    fn is_zero(&self) -> (b: bool) {
        *self == 0
    }
}

impl Integer for u64 {
    open spec fn zero(value: u64) -> bool {
        value == 0
    }

    fn is_zero(&self) -> (b: bool) {
        *self == 0
    }
}

impl Integer for u128 {
    open spec fn zero(value: u128) -> bool {
        value == 0
    }

    fn is_zero(&self) -> (b: bool) {
        *self == 0
    }
}

impl Integer for usize {
    open spec fn zero(value: usize) -> bool {
        value == 0
    }

    fn is_zero(&self) -> (b: bool) {
        *self == 0
    }
}

impl Integer for i8 {
    open spec fn zero(value: i8) -> bool {
        value == 0
    }

    fn is_zero(&self) -> (b: bool) {
        *self == 0
    }
}

impl Integer for i16 {
    open spec fn zero(value: i16) -> bool {
        value == 0
    }

    fn is_zero(&self) -> (b: bool) {
        *self == 0
    }
}

impl Integer for i32 {
    open spec fn zero(value: i32) -> bool {
        value == 0
    }

    fn is_zero(&self) -> (b: bool) {
        *self == 0
    }
}

impl Integer for i64 {
    open spec fn zero(value: i64) -> bool {
        value == 0
    }

    fn is_zero(&self) -> (b: bool) {
        *self == 0
    }
}

impl Integer for i128 {
    open spec fn zero(value: i128) -> bool {
        value == 0
    }

    fn is_zero(&self) -> (b: bool) {
        *self == 0
    }
}

impl Integer for isize {
    open spec fn zero(value: isize) -> bool {
        value == 0
    }

    fn is_zero(&self) -> (b: bool) {
        *self == 0
    }
}

} // verus!
