//! The atomic unit of computation: a non-recursive unary or binary operation
//! applied directly to one or two operands. Evaluation first substitutes the
//! sample position into every placeholder operand, then applies the operator.

use vstd::prelude::*;

use crate::math::abs_i64;
use crate::ops::BinaryOperator;
use crate::ops::Shape;
use crate::ops::UnaryOperator;
use crate::ops::apply_binary;
use crate::ops::apply_unary;
use crate::ops::binary_ok;
use crate::ops::binary_shape;
use crate::ops::lemma_apply_binary_shape;
use crate::ops::lemma_apply_unary_shape;
use crate::ops::shape_of;
use crate::ops::unary_ok;
use crate::ops::unary_shape;
use crate::variable::VarV;
use crate::variable::Variable;
use crate::variable::subst;
use crate::vec2::Vec2;

verus! {

/// A unary operation on one operand.
#[derive(Clone, Copy, Debug)]
pub struct UnaryExpression {
    pub var: Variable,
    pub op: UnaryOperator,
}

/// A binary operation on two operands.
#[derive(Clone, Copy, Debug)]
pub struct BinaryExpression {
    pub lhs: Variable,
    pub rhs: Variable,
    pub op: BinaryOperator,
}

/// A leaf computation: unary or binary.
#[derive(Clone, Copy, Debug)]
pub enum Expression {
    Unary(UnaryExpression),
    Binary(BinaryExpression),
}

impl UnaryExpression {
    /// The shape of the value this expression produces, or `None` when the
    /// operator does not apply to the operand's shape.
    pub open spec fn shape(self) -> Option<Shape> {
        unary_shape(self.op, shape_of(self.var@))
    }

    /// No shape mismatch: component extraction only from a vector operand.
    pub open spec fn wf(self) -> bool {
        self.shape() is Some
    }

    /// The value of this expression at a sample position.
    pub open spec fn spec_eval(self, pos: Vec2) -> VarV {
        apply_unary(self.op, subst(self.var@, pos))
    }

    /// The machine evaluation at this position stays in range.
    pub open spec fn in_bounds(self, pos: Vec2) -> bool {
        unary_ok(self.op, subst(self.var@, pos))
    }

    /// Substitutes the position into the operand, then applies the operator.
    pub fn evaluate(&self, pos: Vec2) -> (r: Variable)
        requires
            self.wf(),
            self.in_bounds(pos),
        ensures
            r@ == self.spec_eval(pos),
            !(r@ is Place),
    {
        let operand = self.var.resolved(pos);
        match self.op {
            UnaryOperator::NoOp => operand,
            UnaryOperator::Abs => match operand {
                Variable::NumConst(n) => Variable::NumConst(abs_i64(n)),
                Variable::VecConst(v) | Variable::Variable(v) => Variable::VecConst(v.abs()),
            },
            UnaryOperator::Length => match operand {
                Variable::NumConst(n) => Variable::NumConst(n),
                Variable::VecConst(v) | Variable::Variable(v) => Variable::NumConst(v.length()),
            },
            UnaryOperator::X => match operand {
                Variable::VecConst(v) | Variable::Variable(v) => Variable::NumConst(v.x),
                Variable::NumConst(n) => {
                    assert(false);
                    Variable::NumConst(n)
                },
            },
            UnaryOperator::Y => match operand {
                Variable::VecConst(v) | Variable::Variable(v) => Variable::NumConst(v.y),
                Variable::NumConst(n) => {
                    assert(false);
                    Variable::NumConst(n)
                },
            },
        }
    }

    /// The shape analysis predicts the shape of the evaluated value.
    pub proof fn lemma_shape(self, pos: Vec2)
        requires
            self.wf(),
        ensures
            self.shape() == Some(shape_of(self.spec_eval(pos))),
            !(self.spec_eval(pos) is Place),
    {
        lemma_apply_unary_shape(self.op, subst(self.var@, pos));
    }
}

impl Default for UnaryExpression {
    /// The neutral leaf: the zero constant, passed through unchanged.
    fn default() -> (r: Self)
        ensures
            r == (UnaryExpression { var: Variable::NumConst(0), op: UnaryOperator::NoOp }),
    {
        UnaryExpression { var: Variable::NumConst(0), op: UnaryOperator::NoOp }
    }
}

impl BinaryExpression {
    /// The shape of the value this expression produces; every binary
    /// combination is defined.
    pub open spec fn shape(self) -> Option<Shape> {
        Some(binary_shape(self.op, shape_of(self.lhs@), shape_of(self.rhs@)))
    }

    /// A binary expression is always well shaped.
    pub open spec fn wf(self) -> bool {
        self.shape() is Some
    }

    /// The value of this expression at a sample position.
    pub open spec fn spec_eval(self, pos: Vec2) -> VarV {
        apply_binary(self.op, subst(self.lhs@, pos), subst(self.rhs@, pos))
    }

    /// The machine evaluation at this position stays in range.
    pub open spec fn in_bounds(self, pos: Vec2) -> bool {
        binary_ok(self.op, subst(self.lhs@, pos), subst(self.rhs@, pos))
    }

    /// Substitutes the position into both operands, then applies the
    /// operator.
    pub fn evaluate(&self, pos: Vec2) -> (r: Variable)
        requires
            self.wf(),
            self.in_bounds(pos),
        ensures
            r@ == self.spec_eval(pos),
            !(r@ is Place),
    {
        let l = self.lhs.resolved(pos);
        let r = self.rhs.resolved(pos);
        proof {
            lemma_apply_binary_shape(self.op, subst(self.lhs@, pos), subst(self.rhs@, pos));
        }
        match self.op {
            BinaryOperator::Add => l.add(&r),
            BinaryOperator::Sub => l.sub(&r),
            BinaryOperator::Mul => l.mul(&r),
            BinaryOperator::Max => l.max(&r),
            BinaryOperator::Min => l.min(&r),
        }
    }

    /// The shape analysis predicts the shape of the evaluated value.
    pub proof fn lemma_shape(self, pos: Vec2)
        ensures
            self.shape() == Some(shape_of(self.spec_eval(pos))),
            !(self.spec_eval(pos) is Place),
    {
        lemma_apply_binary_shape(self.op, subst(self.lhs@, pos), subst(self.rhs@, pos));
    }
}

impl Default for BinaryExpression {
    /// The neutral leaf: the sum of two zero constants.
    fn default() -> (r: Self)
        ensures
            r == (BinaryExpression {
                lhs: Variable::NumConst(0),
                rhs: Variable::NumConst(0),
                op: BinaryOperator::Add,
            }),
    {
        BinaryExpression {
            lhs: Variable::NumConst(0),
            rhs: Variable::NumConst(0),
            op: BinaryOperator::Add,
        }
    }
}

impl Expression {
    /// The shape of the value this leaf produces, or `None` on a shape
    /// mismatch inside it.
    pub open spec fn shape(self) -> Option<Shape> {
        match self {
            Expression::Unary(e) => e.shape(),
            Expression::Binary(e) => e.shape(),
        }
    }

    /// No shape mismatch inside this leaf.
    pub open spec fn wf(self) -> bool {
        self.shape() is Some
    }

    /// The value of this leaf at a sample position.
    pub open spec fn spec_eval(self, pos: Vec2) -> VarV {
        match self {
            Expression::Unary(e) => e.spec_eval(pos),
            Expression::Binary(e) => e.spec_eval(pos),
        }
    }

    /// The machine evaluation at this position stays in range.
    pub open spec fn in_bounds(self, pos: Vec2) -> bool {
        match self {
            Expression::Unary(e) => e.in_bounds(pos),
            Expression::Binary(e) => e.in_bounds(pos),
        }
    }

    /// Evaluates the leaf at a sample position.
    pub fn evaluate(&self, pos: Vec2) -> (r: Variable)
        requires
            self.wf(),
            self.in_bounds(pos),
        ensures
            r@ == self.spec_eval(pos),
            !(r@ is Place),
    {
        match self {
            Expression::Unary(e) => e.evaluate(pos),
            Expression::Binary(e) => e.evaluate(pos),
        }
    }

    /// The shape analysis predicts the shape of the evaluated value.
    pub proof fn lemma_shape(self, pos: Vec2)
        requires
            self.wf(),
        ensures
            self.shape() == Some(shape_of(self.spec_eval(pos))),
            !(self.spec_eval(pos) is Place),
    {
        match self {
            Expression::Unary(e) => e.lemma_shape(pos),
            Expression::Binary(e) => e.lemma_shape(pos),
        }
    }
}

} // verus!
