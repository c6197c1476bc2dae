//! The operator set of the algebra, the shape analysis that tells scalar
//! results from vector results, and the uniform application rule shared by
//! leaf expressions and branch nodes.

use vstd::prelude::*;

use crate::variable::VarV;
use crate::variable::v_abs;
use crate::variable::v_abs_ok;
use crate::variable::v_add;
use crate::variable::v_add_ok;
use crate::variable::v_length;
use crate::variable::v_length_ok;
use crate::variable::v_max;
use crate::variable::v_min;
use crate::variable::v_mul;
use crate::variable::v_mul_ok;
use crate::variable::v_sub;
use crate::variable::v_sub_ok;
use crate::variable::v_x;
use crate::variable::v_y;

verus! {

/// The binary operator set.
#[derive(Clone, Copy, Debug, PartialEq, Eq, Structural)]
pub enum BinaryOperator {
    Add,
    Sub,
    Mul,
    Max,
    Min,
}

/// The unary operator set. `X` and `Y` extract one component of a vector;
/// applying them to a scalar is a shape mismatch.
#[derive(Clone, Copy, Debug, PartialEq, Eq, Structural)]
pub enum UnaryOperator {
    Length,
    NoOp,
    Abs,
    X,
    Y,
}

/// The shape of a value: scalar or vector. The placeholder counts as a
/// vector, since substitution always turns it into one.
pub enum Shape {
    Scalar,
    Vector,
}

/// The shape of a value.
pub open spec fn shape_of(v: VarV) -> Shape {
    match v {
        VarV::Scalar(_) => Shape::Scalar,
        VarV::Vector(_, _) | VarV::Place(_, _) => Shape::Vector,
    }
}

/// The shape a unary operator produces from an operand shape, or `None` for
/// the one shape mismatch of the algebra: component extraction from a scalar.
pub open spec fn unary_shape(op: UnaryOperator, s: Shape) -> Option<Shape> {
    match op {
        UnaryOperator::NoOp => Some(s),
        UnaryOperator::Abs => Some(s),
        UnaryOperator::Length => Some(Shape::Scalar),
        UnaryOperator::X | UnaryOperator::Y => if s is Vector {
            Some(Shape::Scalar)
        } else {
            None
        },
    }
}

/// The shape a binary operator produces; every combination is defined.
pub open spec fn binary_shape(op: BinaryOperator, l: Shape, r: Shape) -> Shape {
    match op {
        BinaryOperator::Add | BinaryOperator::Sub | BinaryOperator::Max | BinaryOperator::Min => {
            if l is Scalar && r is Scalar {
                Shape::Scalar
            } else {
                Shape::Vector
            }
        },
        BinaryOperator::Mul => match (l, r) {
            (Shape::Scalar, Shape::Scalar) => Shape::Scalar,
            (Shape::Scalar, Shape::Vector) => Shape::Vector,
            (Shape::Vector, Shape::Scalar) => Shape::Vector,
            (Shape::Vector, Shape::Vector) => Shape::Scalar,
        },
    }
}

/// A unary operator applied to a resolved operand value.
pub open spec fn apply_unary(op: UnaryOperator, a: VarV) -> VarV {
    match op {
        UnaryOperator::NoOp => a,
        UnaryOperator::Abs => v_abs(a),
        UnaryOperator::Length => v_length(a),
        UnaryOperator::X => v_x(a),
        UnaryOperator::Y => v_y(a),
    }
}

/// A binary operator applied to two resolved operand values.
pub open spec fn apply_binary(op: BinaryOperator, a: VarV, b: VarV) -> VarV {
    match op {
        BinaryOperator::Add => v_add(a, b),
        BinaryOperator::Sub => v_sub(a, b),
        BinaryOperator::Mul => v_mul(a, b),
        BinaryOperator::Max => v_max(a, b),
        BinaryOperator::Min => v_min(a, b),
    }
}

/// The machine computation of a unary operator stays in range.
pub open spec fn unary_ok(op: UnaryOperator, a: VarV) -> bool {
    match op {
        UnaryOperator::NoOp => true,
        UnaryOperator::Abs => v_abs_ok(a),
        UnaryOperator::Length => v_length_ok(a),
        UnaryOperator::X | UnaryOperator::Y => true,
    }
}

/// The machine computation of a binary operator stays in range.
pub open spec fn binary_ok(op: BinaryOperator, a: VarV, b: VarV) -> bool {
    match op {
        BinaryOperator::Add => v_add_ok(a, b),
        BinaryOperator::Sub => v_sub_ok(a, b),
        BinaryOperator::Mul => v_mul_ok(a, b),
        BinaryOperator::Max | BinaryOperator::Min => true,
    }
}

/// A defined unary application produces the shape the operator assigns, and
/// never a placeholder, when the operand is itself no placeholder.
pub proof fn lemma_apply_unary_shape(op: UnaryOperator, a: VarV)
    requires
        !(a is Place),
        unary_shape(op, shape_of(a)) is Some,
    ensures
        unary_shape(op, shape_of(a)) == Some(shape_of(apply_unary(op, a))),
        !(apply_unary(op, a) is Place),
{
}

/// A binary application produces the shape the operator assigns, and never a
/// placeholder.
pub proof fn lemma_apply_binary_shape(op: BinaryOperator, a: VarV, b: VarV)
    ensures
        shape_of(apply_binary(op, a, b)) == binary_shape(op, shape_of(a), shape_of(b)),
        !(apply_binary(op, a, b) is Place),
{
}

} // verus!
