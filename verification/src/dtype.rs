//! The closed set of element kinds a series can carry.

use vstd::prelude::*;

verus! {

/// Tag naming the element kind of a series.
///
/// `Other` stands for every kind outside the closed set; operations that
/// depend on element values reject it as a type mismatch.
#[derive(Clone, Copy, Debug, PartialEq, Eq, Structural)]
pub enum DType {
    Int32,
    Int64,
    UInt32,
    Float32,
    Float64,
    Boolean,
    String,
    Date32,
    Date64,
    DurationNs,
    TimeNs,
    Other,
}

impl DType {
    /// The stable textual identifier of the tag.
    pub open spec fn name(self) -> Seq<char> {
        match self {
            DType::Int32 => "i32"@,
            DType::Int64 => "i64"@,
            DType::UInt32 => "u32"@,
            DType::Float32 => "f32"@,
            DType::Float64 => "f64"@,
            DType::Boolean => "bool"@,
            DType::String => "str"@,
            DType::Date32 => "date32"@,
            DType::Date64 => "date64"@,
            DType::DurationNs => "duration_ns"@,
            DType::TimeNs => "time_ns"@,
            DType::Other => "other"@,
        }
    }

    /// Kinds on which arithmetic and numeric aggregation are defined.
    pub open spec fn numeric(self) -> bool {
        self == DType::Int32 || self == DType::Int64 || self == DType::UInt32
    }

    /// The two floating-point kinds.
    pub open spec fn float(self) -> bool {
        self == DType::Float32 || self == DType::Float64
    }

    /// Kinds whose elements are modelled value by value: the numeric kinds,
    /// booleans, strings and the four temporal kinds (held as integers).
    pub open spec fn modelled(self) -> bool {
        self != DType::Float32 && self != DType::Float64 && self != DType::Other
    }

    /// Smallest value of a numeric kind (zero for any other kind).
    pub open spec fn low(self) -> int {
        match self {
            DType::Int32 => -0x8000_0000,
            DType::Int64 => -0x8000_0000_0000_0000,
            _ => 0,
        }
    }

    /// Number of distinct values of a numeric kind (one for any other kind).
    pub open spec fn span(self) -> int {
        match self {
            DType::Int32 | DType::UInt32 => 0x1_0000_0000,
            DType::Int64 => 0x1_0000_0000_0000_0000,
            _ => 1,
        }
    }

    /// Reduces `v` into the value range of a numeric kind, as two's-complement
    /// wrap-around does.
    pub open spec fn wrap(self, v: int) -> int {
        self.low() + (v - self.low()) % self.span()
    }

    /// Whether `v` lies in the value range of a numeric kind.
    pub open spec fn holds(self, v: int) -> bool {
        self.low() <= v < self.low() + self.span()
    }

    pub fn to_str(&self) -> (r: &'static str)
        ensures
            r@ == self.name(),
    {
        match self {
            DType::Int32 => "i32",
            DType::Int64 => "i64",
            DType::UInt32 => "u32",
            DType::Float32 => "f32",
            DType::Float64 => "f64",
            DType::Boolean => "bool",
            DType::String => "str",
            DType::Date32 => "date32",
            DType::Date64 => "date64",
            DType::DurationNs => "duration_ns",
            DType::TimeNs => "time_ns",
            DType::Other => "other",
        }
    }

    pub fn is_numeric(&self) -> (r: bool)
        ensures
            r == self.numeric(),
    {
        match self {
            DType::Int32 | DType::Int64 | DType::UInt32 => true,
            _ => false,
        }
    }

    pub fn is_float(&self) -> (r: bool)
        ensures
            r == self.float(),
    {
        match self {
            DType::Float32 | DType::Float64 => true,
            _ => false,
        }
    }

    pub fn is_modelled(&self) -> (r: bool)
        ensures
            r == self.modelled(),
    {
        match self {
            DType::Float32 | DType::Float64 | DType::Other => false,
            _ => true,
        }
    }
}

} // verus!
