//! The mathematical model of a series: a name, a tag and a sequence of
//! optional scalars, together with the functions that say what each
//! operation computes on such sequences.

use crate::dtype::DType;
use vstd::prelude::*;

verus! {

/// One non-null element. Integers of every width and the temporal kinds are
/// `Int`; a string is the sequence of its characters.
pub enum Scalar {
    Int(int),
    Bool(bool),
    Str(Seq<char>),
}

/// What a series is, as far as contracts are concerned. A `None` cell is a
/// null.
pub struct SeriesView {
    pub name: Seq<char>,
    pub dtype: DType,
    pub cells: Seq<Option<Scalar>>,
}

/// Longest series the kernels of the storage engine accept: one less than its
/// largest index value, which it keeps for its own use. The engine can chain
/// chunks into a longer series, but this library never does and works on none.
pub const MAX_LEN: usize = 0xFFFF_FFFE;

pub open spec fn int_cell(v: int) -> Option<Scalar> {
    Some(Scalar::Int(v))
}

pub open spec fn lift_i32(v: Option<i32>) -> Option<Scalar> {
    match v {
        Some(x) => Some(Scalar::Int(x as int)),
        None => None,
    }
}

pub open spec fn lift_i64(v: Option<i64>) -> Option<Scalar> {
    match v {
        Some(x) => Some(Scalar::Int(x as int)),
        None => None,
    }
}

pub open spec fn lift_u32(v: Option<u32>) -> Option<Scalar> {
    match v {
        Some(x) => Some(Scalar::Int(x as int)),
        None => None,
    }
}

pub open spec fn lift_bool(v: Option<bool>) -> Option<Scalar> {
    match v {
        Some(x) => Some(Scalar::Bool(x)),
        None => None,
    }
}

pub open spec fn lift_str(v: Option<&str>) -> Option<Scalar> {
    match v {
        Some(x) => Some(Scalar::Str(x@)),
        None => None,
    }
}

pub open spec fn cells_of_i32(v: Seq<Option<i32>>) -> Seq<Option<Scalar>> {
    Seq::new(v.len(), |i: int| lift_i32(v[i]))
}

pub open spec fn cells_of_i64(v: Seq<Option<i64>>) -> Seq<Option<Scalar>> {
    Seq::new(v.len(), |i: int| lift_i64(v[i]))
}

pub open spec fn cells_of_u32(v: Seq<Option<u32>>) -> Seq<Option<Scalar>> {
    Seq::new(v.len(), |i: int| lift_u32(v[i]))
}

pub open spec fn cells_of_bool(v: Seq<Option<bool>>) -> Seq<Option<Scalar>> {
    Seq::new(v.len(), |i: int| lift_bool(v[i]))
}

pub open spec fn cells_of_str(v: Seq<Option<&str>>) -> Seq<Option<Scalar>> {
    Seq::new(v.len(), |i: int| lift_str(v[i]))
}

/// `n` copies of the integer `x`.
pub open spec fn fill(n: nat, x: int) -> Seq<Option<Scalar>> {
    Seq::new(n, |i: int| int_cell(x))
}

/// Number of nulls.
pub open spec fn null_count(c: Seq<Option<Scalar>>) -> nat
    decreases c.len(),
{
    if c.len() == 0 {
        0
    } else {
        null_count(c.drop_last()) + if c.last() is None { 1nat } else { 0nat }
    }
}

/// For each cell, whether it is null; the result has no nulls itself.
pub open spec fn null_mask(c: Seq<Option<Scalar>>) -> Seq<Option<Scalar>> {
    Seq::new(c.len(), |i: int| Some(Scalar::Bool(c[i] is None)))
}

/// Whether a mask cell selects its position: only a non-null `true` does.
pub open spec fn selects(m: Option<Scalar>) -> bool {
    m == Some(Scalar::Bool(true))
}

/// The cells of `c` at the positions that `m` selects, in order.
pub open spec fn keep(c: Seq<Option<Scalar>>, m: Seq<Option<Scalar>>) -> Seq<Option<Scalar>>
    decreases c.len(),
{
    if c.len() == 0 || m.len() != c.len() {
        Seq::empty()
    } else {
        let rest = keep(c.drop_last(), m.drop_last());
        if selects(m.last()) {
            rest.push(c.last())
        } else {
            rest
        }
    }
}

/// Number of positions that `m` selects and where `c` is null.
pub open spec fn selected_nulls(c: Seq<Option<Scalar>>, m: Seq<Option<Scalar>>) -> nat
    decreases c.len(),
{
    if c.len() == 0 || m.len() != c.len() {
        0
    } else {
        selected_nulls(c.drop_last(), m.drop_last()) + if selects(m.last()) && c.last() is None {
            1nat
        } else {
            0nat
        }
    }
}

/// Whether every index addresses a cell of a series of length `n`.
pub open spec fn in_bounds(idx: Seq<usize>, n: nat) -> bool {
    forall|i: int| 0 <= i < idx.len() ==> (#[trigger] idx[i]) < n
}

/// `result[i] = c[idx[i]]`.
pub open spec fn gather(c: Seq<Option<Scalar>>, idx: Seq<usize>) -> Seq<Option<Scalar>> {
    Seq::new(idx.len(), |i: int| c[idx[i] as int])
}

/// Whether every entry is above the one before it.
pub open spec fn ascending(idx: Seq<usize>) -> bool {
    forall|i: int, j: int| 0 <= i < j < idx.len() ==> idx[i] < idx[j]
}

/// Whether `idx` lists each of `0..n` exactly once.
pub open spec fn is_permutation(idx: Seq<usize>, n: nat) -> bool {
    &&& idx.len() == n
    &&& in_bounds(idx, n)
    &&& forall|i: int, j: int| 0 <= i < j < idx.len() ==> idx[i] != idx[j]
}

/// Whether equal cells are listed in the order of their positions.
pub open spec fn tie_stable(c: Seq<Option<Scalar>>, idx: Seq<usize>) -> bool {
    forall|i: int, j: int|
        0 <= i < j < idx.len() && c[idx[i] as int] == c[idx[j] as int] ==> idx[i] < idx[j]
}

#[derive(Clone, Copy, Debug, PartialEq, Eq, Structural)]
pub enum ArithOp {
    Add,
    Sub,
    Mul,
    Div,
}

/// Quotient rounded towards negative infinity (`b` not zero).
pub open spec fn floor_div(a: int, b: int) -> int {
    if b > 0 {
        a / b
    } else {
        (-a) / (-b)
    }
}

/// One step of elementwise arithmetic in the numeric kind `t`: a null operand
/// gives null, so does division by zero, and a result outside the range of
/// `t` wraps around.
pub open spec fn arith_cell(op: ArithOp, t: DType, a: Option<Scalar>, b: Option<Scalar>) -> Option<
    Scalar,
> {
    match (a, b) {
        (Some(Scalar::Int(x)), Some(Scalar::Int(y))) => match op {
            ArithOp::Add => int_cell(t.wrap(x + y)),
            ArithOp::Sub => int_cell(t.wrap(x - y)),
            ArithOp::Mul => int_cell(t.wrap(x * y)),
            ArithOp::Div => if y == 0 {
                None
            } else {
                int_cell(t.wrap(floor_div(x, y)))
            },
        },
        _ => None,
    }
}

pub open spec fn arith_cells(
    op: ArithOp,
    t: DType,
    a: Seq<Option<Scalar>>,
    b: Seq<Option<Scalar>>,
) -> Seq<Option<Scalar>> {
    Seq::new(a.len(), |i: int| arith_cell(op, t, a[i], b[i]))
}

#[derive(Clone, Copy, Debug, PartialEq, Eq, Structural)]
pub enum Relation {
    Eq,
    Neq,
    Gt,
    GtEq,
    Lt,
    LtEq,
}

/// Strict lexicographic order on strings, character by character.
pub open spec fn str_lt(a: Seq<char>, b: Seq<char>) -> bool
    decreases a.len(),
{
    if b.len() == 0 {
        false
    } else if a.len() == 0 {
        true
    } else if a[0] != b[0] {
        (a[0] as int) < (b[0] as int)
    } else {
        str_lt(a.drop_first(), b.drop_first())
    }
}

/// Position of a scalar's kind in the order between kinds.
pub open spec fn rank(a: Scalar) -> int {
    match a {
        Scalar::Int(_) => 0,
        Scalar::Bool(_) => 1,
        Scalar::Str(_) => 2,
    }
}

/// Strict order on scalars: integers by value, `false` before `true`, strings
/// lexicographically. Scalars of different kinds never meet in one series;
/// they are ordered by kind so that the order is total.
pub open spec fn scalar_lt(a: Scalar, b: Scalar) -> bool {
    match (a, b) {
        (Scalar::Int(x), Scalar::Int(y)) => x < y,
        (Scalar::Bool(x), Scalar::Bool(y)) => !x && y,
        (Scalar::Str(x), Scalar::Str(y)) => str_lt(x, y),
        _ => rank(a) < rank(b),
    }
}

pub open spec fn relate(rel: Relation, a: Scalar, b: Scalar) -> bool {
    match rel {
        Relation::Eq => a == b,
        Relation::Neq => a != b,
        Relation::Gt => scalar_lt(b, a),
        Relation::GtEq => scalar_lt(b, a) || a == b,
        Relation::Lt => scalar_lt(a, b),
        Relation::LtEq => scalar_lt(a, b) || a == b,
    }
}

/// Three-valued comparison: null if either side is null.
pub open spec fn relate_cell(rel: Relation, a: Option<Scalar>, b: Option<Scalar>) -> Option<
    Scalar,
> {
    match (a, b) {
        (Some(x), Some(y)) => Some(Scalar::Bool(relate(rel, x, y))),
        _ => None,
    }
}

pub open spec fn relate_cells(rel: Relation, a: Seq<Option<Scalar>>, b: Seq<Option<Scalar>>) -> Seq<
    Option<Scalar>,
> {
    Seq::new(a.len(), |i: int| relate_cell(rel, a[i], b[i]))
}

/// The order that sorting establishes: ascending by value, nulls last.
pub open spec fn cell_le(a: Option<Scalar>, b: Option<Scalar>) -> bool {
    match (a, b) {
        (_, None) => true,
        (None, Some(_)) => false,
        (Some(x), Some(y)) => x == y || scalar_lt(x, y),
    }
}

pub open spec fn sorted(c: Seq<Option<Scalar>>) -> bool {
    forall|i: int, j: int| 0 <= i < j < c.len() ==> cell_le(c[i], c[j])
}

/// Whether `m` selects exactly the positions at which `c` is not null.
pub open spec fn selects_non_null(c: Seq<Option<Scalar>>, m: Seq<Option<Scalar>>) -> bool {
    &&& m.len() == c.len()
    &&& forall|i: int| 0 <= i < c.len() ==> (selects(#[trigger] m[i]) <==> c[i] is Some)
}

/// Whether no earlier cell equals the cell at `i` (two nulls are equal here).
pub open spec fn is_first(c: Seq<Option<Scalar>>, i: int) -> bool {
    forall|j: int| 0 <= j < i ==> c[j] != c[i]
}

/// The positions of the first occurrence of each distinct cell, ascending.
pub open spec fn first_occurrences(c: Seq<Option<Scalar>>) -> Seq<usize>
    decreases c.len(),
{
    if c.len() == 0 {
        Seq::empty()
    } else {
        let rest = first_occurrences(c.drop_last());
        if is_first(c, c.len() - 1) {
            rest.push((c.len() - 1) as usize)
        } else {
            rest
        }
    }
}

/// The integer a cell holds, if it holds one.
pub open spec fn int_value(a: Option<Scalar>) -> Option<int> {
    match a {
        Some(Scalar::Int(v)) => Some(v),
        _ => None,
    }
}

/// Sum of the non-null integers, as a mathematical integer.
pub open spec fn sum_of(c: Seq<Option<Scalar>>) -> int
    decreases c.len(),
{
    if c.len() == 0 {
        0
    } else {
        sum_of(c.drop_last()) + match c.last() {
            Some(Scalar::Int(v)) => v,
            _ => 0,
        }
    }
}

/// Least non-null integer, if there is one.
pub open spec fn min_of(c: Seq<Option<Scalar>>) -> Option<int>
    decreases c.len(),
{
    if c.len() == 0 {
        None
    } else {
        let rest = min_of(c.drop_last());
        match c.last() {
            Some(Scalar::Int(v)) => match rest {
                Some(m) => Some(if v < m { v } else { m }),
                None => Some(v),
            },
            _ => rest,
        }
    }
}

/// What a sum over a numeric kind yields: nothing if there is no non-null
/// element, else the sum wrapped into the kind.
pub open spec fn sum_spec(kind: DType, c: Seq<Option<Scalar>>) -> Option<int> {
    if null_count(c) == c.len() {
        None
    } else {
        Some(kind.wrap(sum_of(c)))
    }
}

/// Whether two series hold the same data: one kind and, position by position,
/// the same element or a null on both sides. The name plays no part.
pub open spec fn same_data(a: SeriesView, b: SeriesView) -> bool {
    a.dtype == b.dtype && a.cells == b.cells
}

} // verus!
