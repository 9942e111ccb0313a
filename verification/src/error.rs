//! Failures that operations on a series report.

use polars::prelude::PolarsError;
use vstd::prelude::*;

verus! {

/// Why an operation did not produce a result. An operation that fails leaves
/// its receiver as it was.
#[derive(Debug)]
pub enum PyPolarsEr {
    /// The element kind does not fit the operation or the other operand.
    TypeMismatch,
    /// Two operands that must be equally long are not.
    LengthMismatch,
    /// An index, or an offset and length, reaches past the end of the series.
    OutOfBounds,
    /// A series is, or would become, longer than `MAX_LEN` elements.
    TooLong,
    /// A failure reported by the storage engine itself.
    Any(PolarsError),
    /// Any other failure, with its message.
    Other(String),
}

impl From<PolarsError> for PyPolarsEr {
    fn from(err: PolarsError) -> (r: Self) {
        PyPolarsEr::Any(err)
    }
}

impl vstd::std_specs::convert::FromSpecImpl<PolarsError> for PyPolarsEr {
    open spec fn obeys_from_spec() -> bool {
        true
    }

    open spec fn from_spec(err: PolarsError) -> Self {
        PyPolarsEr::Any(err)
    }
}

/// `Display` of `PolarsError`: the engine's own wording, which this library
/// passes on and says nothing about.
#[verifier::external_body]
fn engine_message(err: &PolarsError) -> String {
    format!("{}", err)
}

impl PyPolarsEr {
    /// The text of one of the four failures this library raises itself; the
    /// empty string for the other two variants.
    pub open spec fn own_text(&self) -> Seq<char> {
        match self {
            PyPolarsEr::TypeMismatch => "type mismatch"@,
            PyPolarsEr::LengthMismatch => "length mismatch"@,
            PyPolarsEr::OutOfBounds => "out of bounds"@,
            PyPolarsEr::TooLong => "too long"@,
            _ => Seq::empty(),
        }
    }

    /// The failure in words: a fixed text for the four failures raised here,
    /// the engine's wording for `Any`, the carried message for `Other`.
    pub fn message(&self) -> (r: String)
        ensures
            !(self is Any) && !(self is Other) ==> r@ == self.own_text(),
            self matches PyPolarsEr::Other(m) ==> r@ == m@,
    {
        match self {
            PyPolarsEr::TypeMismatch => "type mismatch".to_string(),
            PyPolarsEr::LengthMismatch => "length mismatch".to_string(),
            PyPolarsEr::OutOfBounds => "out of bounds".to_string(),
            PyPolarsEr::TooLong => "too long".to_string(),
            PyPolarsEr::Any(err) => engine_message(err),
            PyPolarsEr::Other(m) => m.clone(),
        }
    }
}

} // verus!
