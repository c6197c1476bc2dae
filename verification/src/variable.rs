//! The operand type carried by expressions: a constant scalar, a constant
//! vector, or the unresolved sample-position placeholder. Binary arithmetic
//! between two operands follows broadcasting rules; the placeholder behaves
//! exactly like a constant vector for arithmetic purposes.

use vstd::prelude::*;

use crate::math::in_i64;
use crate::math::isqrt;
use crate::vec2::Vec2;

verus! {

/// The mathematical value of a [`Variable`]: an unbounded scalar, an
/// unbounded vector, or the sample-position placeholder together with its
/// current payload.
pub enum VarV {
    Scalar(int),
    Vector(int, int),
    Place(int, int),
}

/// Substitution of the sample position: a placeholder becomes the position,
/// taken as a constant vector; constants are untouched.
pub open spec fn subst(v: VarV, pos: Vec2) -> VarV {
    match v {
        VarV::Place(_, _) => VarV::Vector(pos.x as int, pos.y as int),
        other => other,
    }
}

/// Broadcasting sum: scalar + scalar, a scalar broadcast to both components
/// of a vector, or the elementwise sum of two vectors.
pub open spec fn v_add(a: VarV, b: VarV) -> VarV {
    match a {
        VarV::Scalar(l) => match b {
            VarV::Scalar(r) => VarV::Scalar(l + r),
            VarV::Vector(x, y) | VarV::Place(x, y) => VarV::Vector(x + l, y + l),
        },
        VarV::Vector(lx, ly) | VarV::Place(lx, ly) => match b {
            VarV::Scalar(r) => VarV::Vector(lx + r, ly + r),
            VarV::Vector(rx, ry) | VarV::Place(rx, ry) => VarV::Vector(lx + rx, ly + ry),
        },
    }
}

/// Negation flips the sign of a scalar or of every component of a vector.
pub open spec fn v_neg(a: VarV) -> VarV {
    match a {
        VarV::Scalar(n) => VarV::Scalar(-n),
        VarV::Vector(x, y) | VarV::Place(x, y) => VarV::Vector(-x, -y),
    }
}

/// Subtraction is defined as addition of the negation.
pub open spec fn v_sub(a: VarV, b: VarV) -> VarV {
    v_add(a, v_neg(b))
}

/// Multiplication is the one operator whose result kind depends on both
/// operand kinds: scalar * scalar is a scalar, scalar * vector scales the
/// vector, and vector * vector is the dot-product scalar.
pub open spec fn v_mul(a: VarV, b: VarV) -> VarV {
    match a {
        VarV::Scalar(l) => match b {
            VarV::Scalar(r) => VarV::Scalar(l * r),
            VarV::Vector(x, y) | VarV::Place(x, y) => VarV::Vector(x * l, y * l),
        },
        VarV::Vector(lx, ly) | VarV::Place(lx, ly) => match b {
            VarV::Scalar(r) => VarV::Vector(lx * r, ly * r),
            VarV::Vector(rx, ry) | VarV::Place(rx, ry) => VarV::Scalar(lx * rx + ly * ry),
        },
    }
}

/// Broadcasting maximum.
pub open spec fn v_max(a: VarV, b: VarV) -> VarV {
    match a {
        VarV::Scalar(l) => match b {
            VarV::Scalar(r) => VarV::Scalar(vstd::math::max(l, r)),
            VarV::Vector(x, y) | VarV::Place(x, y) => VarV::Vector(
                vstd::math::max(l, x),
                vstd::math::max(l, y),
            ),
        },
        VarV::Vector(lx, ly) | VarV::Place(lx, ly) => match b {
            VarV::Scalar(r) => VarV::Vector(vstd::math::max(lx, r), vstd::math::max(ly, r)),
            VarV::Vector(rx, ry) | VarV::Place(rx, ry) => VarV::Vector(
                vstd::math::max(lx, rx),
                vstd::math::max(ly, ry),
            ),
        },
    }
}

/// Broadcasting minimum.
pub open spec fn v_min(a: VarV, b: VarV) -> VarV {
    match a {
        VarV::Scalar(l) => match b {
            VarV::Scalar(r) => VarV::Scalar(vstd::math::min(l, r)),
            VarV::Vector(x, y) | VarV::Place(x, y) => VarV::Vector(
                vstd::math::min(l, x),
                vstd::math::min(l, y),
            ),
        },
        VarV::Vector(lx, ly) | VarV::Place(lx, ly) => match b {
            VarV::Scalar(r) => VarV::Vector(vstd::math::min(lx, r), vstd::math::min(ly, r)),
            VarV::Vector(rx, ry) | VarV::Place(rx, ry) => VarV::Vector(
                vstd::math::min(lx, rx),
                vstd::math::min(ly, ry),
            ),
        },
    }
}

/// Scalar or elementwise absolute value.
pub open spec fn v_abs(a: VarV) -> VarV {
    match a {
        VarV::Scalar(n) => VarV::Scalar(vstd::math::abs(n) as int),
        VarV::Vector(x, y) | VarV::Place(x, y) => VarV::Vector(
            vstd::math::abs(x) as int,
            vstd::math::abs(y) as int,
        ),
    }
}

/// Euclidean norm of a vector, as a scalar; a scalar operand passes through
/// unchanged.
pub open spec fn v_length(a: VarV) -> VarV {
    match a {
        VarV::Scalar(n) => VarV::Scalar(n),
        VarV::Vector(x, y) | VarV::Place(x, y) => VarV::Scalar(isqrt(x * x + y * y)),
    }
}

/// First component of a vector, as a scalar. On a scalar operand the result
/// is immaterial: that application is a shape mismatch and every
/// well-formedness check rules it out.
pub open spec fn v_x(a: VarV) -> VarV {
    match a {
        VarV::Scalar(n) => VarV::Scalar(n),
        VarV::Vector(x, _) | VarV::Place(x, _) => VarV::Scalar(x),
    }
}

/// Second component of a vector, as a scalar; on a scalar operand, as
/// immaterial as [`v_x`].
pub open spec fn v_y(a: VarV) -> VarV {
    match a {
        VarV::Scalar(n) => VarV::Scalar(n),
        VarV::Vector(_, y) | VarV::Place(_, y) => VarV::Scalar(y),
    }
}

/// Every component of the value fits in the machine scalar kind.
pub open spec fn v_in_range(v: VarV) -> bool {
    match v {
        VarV::Scalar(n) => in_i64(n),
        VarV::Vector(x, y) | VarV::Place(x, y) => in_i64(x) && in_i64(y),
    }
}

/// The machine computation of `v_add` stays in range.
pub open spec fn v_add_ok(a: VarV, b: VarV) -> bool {
    v_in_range(v_add(a, b))
}

/// The machine computation of `v_neg` stays in range.
pub open spec fn v_neg_ok(a: VarV) -> bool {
    v_in_range(v_neg(a))
}

/// The machine computation of `v_sub` stays in range, negation step included.
pub open spec fn v_sub_ok(a: VarV, b: VarV) -> bool {
    v_neg_ok(b) && v_add_ok(a, v_neg(b))
}

/// The machine computation of `v_mul` stays in range; for the dot product the
/// two intermediate products must fit as well as their sum.
pub open spec fn v_mul_ok(a: VarV, b: VarV) -> bool {
    match a {
        VarV::Scalar(_) => v_in_range(v_mul(a, b)),
        VarV::Vector(lx, ly) | VarV::Place(lx, ly) => match b {
            VarV::Scalar(_) => v_in_range(v_mul(a, b)),
            VarV::Vector(rx, ry) | VarV::Place(rx, ry) => in_i64(lx * rx) && in_i64(ly * ry)
                && in_i64(lx * rx + ly * ry),
        },
    }
}

/// The machine computation of `v_abs` stays in range.
pub open spec fn v_abs_ok(a: VarV) -> bool {
    match a {
        VarV::Scalar(n) => n > i64::MIN,
        VarV::Vector(x, y) | VarV::Place(x, y) => x > i64::MIN && y > i64::MIN,
    }
}

/// The machine computation of `v_length` stays in range: the squared norm
/// must fit.
pub open spec fn v_length_ok(a: VarV) -> bool {
    match a {
        VarV::Scalar(_) => true,
        VarV::Vector(x, y) | VarV::Place(x, y) => x * x + y * y <= i64::MAX,
    }
}

/// The absolute value is idempotent: taking it twice is taking it once,
/// for a scalar as for a vector.
pub proof fn lemma_abs_idempotent(a: VarV)
    ensures
        v_abs(v_abs(a)) == v_abs(a),
{
}

/// A tagged operand value. The placeholder tag alone marks a leaf as
/// substitutable; the payload it carries is overwritten by each substitution
/// and never consulted by the tag check.
#[derive(Clone, Copy, Debug, PartialEq, Eq, Structural)]
pub enum Variable {
    VecConst(Vec2),
    NumConst(i64),
    Variable(Vec2),
}

impl View for Variable {
    type V = VarV;

    open spec fn view(&self) -> VarV {
        match self {
            Variable::VecConst(v) => VarV::Vector(v.x as int, v.y as int),
            Variable::NumConst(n) => VarV::Scalar(*n as int),
            Variable::Variable(v) => VarV::Place(v.x as int, v.y as int),
        }
    }
}

impl Variable {
    /// True exactly when the tag is the placeholder variant, independent of
    /// the payload.
    pub fn is_variable(&self) -> (r: bool)
        ensures
            r == (self@ is Place),
    {
        match self {
            Variable::Variable(_) => true,
            _ => false,
        }
    }

    /// A fresh placeholder, with the default payload.
    pub fn default_variable() -> (r: Variable)
        ensures
            r == (Variable::Variable(Vec2 { x: 0, y: 0 })),
    {
        Variable::Variable(Vec2::new(0, 0))
    }

    /// Substitution of the sample position: a placeholder leaf yields the
    /// position as a constant vector, every other operand yields itself.
    pub fn resolved(&self, pos: Vec2) -> (r: Variable)
        ensures
            r@ == subst(self@, pos),
            !(r@ is Place),
    {
        if self.is_variable() {
            Variable::VecConst(pos)
        } else {
            *self
        }
    }

    /// Broadcasting maximum of two operands.
    pub fn max(&self, other: &Variable) -> (r: Variable)
        ensures
            r@ == v_max(self@, other@),
    {
        match self {
            Variable::NumConst(n) => match other {
                Variable::NumConst(o) => Variable::NumConst(crate::math::max_i64(*n, *o)),
                Variable::VecConst(vo) | Variable::Variable(vo) => Variable::VecConst(
                    Vec2 {
                        x: crate::math::max_i64(*n, vo.x),
                        y: crate::math::max_i64(*n, vo.y),
                    },
                ),
            },
            Variable::VecConst(v) | Variable::Variable(v) => match other {
                Variable::NumConst(o) => Variable::VecConst(
                    Vec2 { x: crate::math::max_i64(v.x, *o), y: crate::math::max_i64(v.y, *o) },
                ),
                Variable::VecConst(vo) | Variable::Variable(vo) => Variable::VecConst(v.max(vo)),
            },
        }
    }

    /// Broadcasting minimum of two operands.
    pub fn min(&self, other: &Variable) -> (r: Variable)
        ensures
            r@ == v_min(self@, other@),
    {
        match self {
            Variable::NumConst(n) => match other {
                Variable::NumConst(o) => Variable::NumConst(crate::math::min_i64(*n, *o)),
                Variable::VecConst(vo) | Variable::Variable(vo) => Variable::VecConst(
                    Vec2 {
                        x: crate::math::min_i64(*n, vo.x),
                        y: crate::math::min_i64(*n, vo.y),
                    },
                ),
            },
            Variable::VecConst(v) | Variable::Variable(v) => match other {
                Variable::NumConst(o) => Variable::VecConst(
                    Vec2 { x: crate::math::min_i64(v.x, *o), y: crate::math::min_i64(v.y, *o) },
                ),
                Variable::VecConst(vo) | Variable::Variable(vo) => Variable::VecConst(v.min(vo)),
            },
        }
    }

    /// Broadcasting sum of two operands.
    pub fn add(&self, other: &Variable) -> (r: Variable)
        requires
            v_add_ok(self@, other@),
        ensures
            r@ == v_add(self@, other@),
    {
        match self {
            Variable::NumConst(l) => match other {
                Variable::NumConst(r) => Variable::NumConst(*l + *r),
                Variable::VecConst(v) | Variable::Variable(v) => Variable::VecConst(
                    v.add_scalar(*l),
                ),
            },
            Variable::VecConst(lv) | Variable::Variable(lv) => match other {
                Variable::NumConst(r) => Variable::VecConst(lv.add_scalar(*r)),
                Variable::VecConst(rv) | Variable::Variable(rv) => Variable::VecConst(lv.add(rv)),
            },
        }
    }

    /// Negation of an operand.
    pub fn neg(&self) -> (r: Variable)
        requires
            v_neg_ok(self@),
        ensures
            r@ == v_neg(self@),
    {
        match self {
            Variable::NumConst(n) => Variable::NumConst(-*n),
            Variable::VecConst(v) | Variable::Variable(v) => Variable::VecConst(v.neg()),
        }
    }

    /// Broadcasting difference: the sum with the negation.
    pub fn sub(&self, other: &Variable) -> (r: Variable)
        requires
            v_sub_ok(self@, other@),
        ensures
            r@ == v_sub(self@, other@),
    {
        self.add(&other.neg())
    }

    /// Product of two operands: scaling or dot product, by their kinds.
    pub fn mul(&self, other: &Variable) -> (r: Variable)
        requires
            v_mul_ok(self@, other@),
        ensures
            r@ == v_mul(self@, other@),
    {
        match self {
            Variable::NumConst(l) => match other {
                Variable::NumConst(r) => Variable::NumConst(*l * *r),
                Variable::VecConst(v) | Variable::Variable(v) => Variable::VecConst(v.scale(*l)),
            },
            Variable::VecConst(lv) | Variable::Variable(lv) => match other {
                Variable::NumConst(r) => Variable::VecConst(lv.scale(*r)),
                Variable::VecConst(rv) | Variable::Variable(rv) => Variable::NumConst(lv.dot(rv)),
            },
        }
    }
}

} // verus!
