//! The public handle owning a root node: sampling, and the shape combinators
//! union (pointwise minimum), intersection (pointwise maximum) and blend
//! (affine interpolation). A combinator builds a new tree; nothing is
//! evaluated until the tree is sampled.

use vstd::prelude::*;

use crate::expression::BinaryExpression;
use crate::expression::Expression;
use crate::expression::UnaryExpression;
use crate::math::in_i64;
use crate::node::BinaryNode;
use crate::node::Node;
use crate::node::NodeType;
use crate::ops::BinaryOperator;
use crate::ops::Shape;
use crate::ops::UnaryOperator;
use crate::variable::VarV;
use crate::variable::Variable;
use crate::vec2::Vec2;

verus! {

/// An expression tree denoting a signed distance field: negative inside the
/// shape, zero on its boundary, positive outside.
#[derive(Debug)]
pub struct Tree {
    pub root: Node,
}

impl Tree {
    /// A tree is well formed when no shape mismatch occurs inside it (no
    /// component extraction from a scalar) and its root reduces to a scalar
    /// rather than a vector. Both violations are construction errors, never
    /// runtime conditions: every tree this library builds from well-formed
    /// parts is well formed, and sampling demands it up front.
    pub open spec fn wf(self) -> bool {
        self.root.shape() == Some(Shape::Scalar)
    }

    /// The machine evaluation at this position stays in range everywhere in
    /// the tree.
    pub open spec fn in_bounds(self, pos: Vec2) -> bool {
        self.root.in_bounds(pos)
    }

    /// The signed distance this tree denotes at a sample position. Only a
    /// well-formed tree reduces to a scalar; on any other tree the value
    /// returned here is immaterial.
    pub open spec fn spec_sample(self, pos: Vec2) -> int {
        match self.root.spec_eval(pos) {
            VarV::Scalar(n) => n,
            VarV::Vector(x, _) | VarV::Place(x, _) => x,
        }
    }

    /// The signed distance at `position`.
    pub fn sign_at(&self, position: Vec2) -> (r: i64)
        requires
            self.wf(),
            self.in_bounds(position),
        ensures
            r == self.spec_sample(position),
    {
        proof {
            self.root.lemma_shape(position);
        }
        match self.root.evaluate(position) {
            Variable::NumConst(n) => n,
            Variable::VecConst(_) | Variable::Variable(_) => {
                assert(false);
                0
            },
        }
    }

    /// The tree `union` returns: the two roots joined under a pointwise
    /// minimum.
    pub open spec fn is_union_of(self, a: Tree, b: Tree) -> bool {
        &&& self.root matches Node::Binary(bn)
        &&& *bn.lhs == NodeType::Branch(a.root)
        &&& *bn.rhs == NodeType::Branch(b.root)
        &&& bn.op == BinaryOperator::Min
    }

    /// The tree `intersection` returns: the two roots joined under a
    /// pointwise maximum.
    pub open spec fn is_intersection_of(self, a: Tree, b: Tree) -> bool {
        &&& self.root matches Node::Binary(bn)
        &&& *bn.lhs == NodeType::Branch(a.root)
        &&& *bn.rhs == NodeType::Branch(b.root)
        &&& bn.op == BinaryOperator::Max
    }

    /// The tree `blend` returns: `(1 - factor) * a + factor * b`, with the
    /// factor folded into the tree as a constant.
    pub open spec fn is_blend_of(self, a: Tree, b: Tree, factor: i64) -> bool {
        &&& self.root matches Node::Binary(top)
        &&& top.op == BinaryOperator::Add
        &&& *top.lhs matches NodeType::Branch(la)
        &&& la matches Node::Binary(lb)
        &&& lb.op == BinaryOperator::Mul
        &&& *lb.lhs matches NodeType::Leaf(le)
        &&& le matches Expression::Binary(be)
        &&& be.lhs == Variable::NumConst(1)
        &&& be.rhs == Variable::NumConst(factor)
        &&& be.op == BinaryOperator::Sub
        &&& *lb.rhs == NodeType::Branch(a.root)
        &&& *top.rhs matches NodeType::Branch(rn)
        &&& rn matches Node::Binary(rb)
        &&& rb.op == BinaryOperator::Mul
        &&& *rb.lhs matches NodeType::Leaf(re)
        &&& re matches Expression::Unary(ue)
        &&& ue.var == Variable::NumConst(factor)
        &&& ue.op == UnaryOperator::NoOp
        &&& *rb.rhs == NodeType::Branch(b.root)
    }

    /// An SDF union is the pointwise minimum of the two constituent
    /// distances.
    pub proof fn lemma_union_sample(t: Tree, a: Tree, b: Tree, p: Vec2)
        requires
            t.is_union_of(a, b),
            a.wf(),
            b.wf(),
        ensures
            t.spec_sample(p) == vstd::math::min(a.spec_sample(p), b.spec_sample(p)),
    {
        a.root.lemma_shape(p);
        b.root.lemma_shape(p);
    }

    /// An SDF intersection is the pointwise maximum of the two constituent
    /// distances.
    pub proof fn lemma_intersection_sample(t: Tree, a: Tree, b: Tree, p: Vec2)
        requires
            t.is_intersection_of(a, b),
            a.wf(),
            b.wf(),
        ensures
            t.spec_sample(p) == vstd::math::max(a.spec_sample(p), b.spec_sample(p)),
    {
        a.root.lemma_shape(p);
        b.root.lemma_shape(p);
    }

    /// A blend samples as the affine interpolation, in the factor, of its
    /// constituents' samples.
    pub proof fn lemma_blend_sample(t: Tree, a: Tree, b: Tree, factor: i64, p: Vec2)
        requires
            t.is_blend_of(a, b, factor),
            a.wf(),
            b.wf(),
        ensures
            t.spec_sample(p) == (1 - factor) * a.spec_sample(p) + factor * b.spec_sample(p),
    {
        reveal_with_fuel(Node::spec_eval, 4);
        reveal_with_fuel(NodeType::spec_eval, 4);
        a.root.lemma_shape(p);
        b.root.lemma_shape(p);
    }

    /// Blending with factor 0 samples as the first tree alone.
    pub proof fn lemma_blend_zero(t: Tree, a: Tree, b: Tree, p: Vec2)
        requires
            t.is_blend_of(a, b, 0),
            a.wf(),
            b.wf(),
        ensures
            t.spec_sample(p) == a.spec_sample(p),
    {
        Self::lemma_blend_sample(t, a, b, 0, p);
    }

    /// Blending with factor 1 samples as the second tree alone.
    pub proof fn lemma_blend_one(t: Tree, a: Tree, b: Tree, p: Vec2)
        requires
            t.is_blend_of(a, b, 1),
            a.wf(),
            b.wf(),
        ensures
            t.spec_sample(p) == b.spec_sample(p),
    {
        Self::lemma_blend_sample(t, a, b, 1, p);
    }

    /// Sampling leaves no state behind: the distance is a function of the
    /// tree and the position alone, and `sign_at` borrows the tree immutably,
    /// so a sample taken at one position beforehand appears nowhere in what a
    /// later position yields. A tree that was sampled at `p1` therefore
    /// yields at `p2` exactly what a freshly built, structurally identical
    /// tree yields there.
    pub proof fn lemma_sample_repeatable(t: Tree, fresh: Tree, p1: Vec2, p2: Vec2)
        requires
            fresh == t,
        ensures
            t.spec_sample(p2) == fresh.spec_sample(p2),
    {
    }

    /// Union of two shapes: the pointwise minimum of their distances.
    pub fn union(a: Tree, b: Tree) -> (r: Tree)
        ensures
            r.is_union_of(a, b),
            r.wf() <==> a.wf() && b.wf(),
            forall|p: Vec2| #[trigger] r.in_bounds(p) <==> a.in_bounds(p) && b.in_bounds(p),
            a.wf() && b.wf() ==> forall|p: Vec2|
                #[trigger] r.spec_sample(p) == vstd::math::min(a.spec_sample(p), b.spec_sample(p)),
    {
        let ghost ga = a;
        let ghost gb = b;
        let r = Tree {
            root: Node::Binary(
                BinaryNode {
                    lhs: Box::new(NodeType::Branch(a.root)),
                    rhs: Box::new(NodeType::Branch(b.root)),
                    op: BinaryOperator::Min,
                },
            ),
        };
        proof {
            if ga.wf() && gb.wf() {
                assert forall|p: Vec2|
                    #[trigger] r.spec_sample(p) == vstd::math::min(
                        ga.spec_sample(p),
                        gb.spec_sample(p),
                    ) by {
                    Self::lemma_union_sample(r, ga, gb, p);
                }
            }
        }
        r
    }

    /// Intersection of two shapes: the pointwise maximum of their distances.
    pub fn intersection(a: Tree, b: Tree) -> (r: Tree)
        ensures
            r.is_intersection_of(a, b),
            r.wf() <==> a.wf() && b.wf(),
            forall|p: Vec2| #[trigger] r.in_bounds(p) <==> a.in_bounds(p) && b.in_bounds(p),
            a.wf() && b.wf() ==> forall|p: Vec2|
                #[trigger] r.spec_sample(p) == vstd::math::max(a.spec_sample(p), b.spec_sample(p)),
    {
        let ghost ga = a;
        let ghost gb = b;
        let r = Tree {
            root: Node::Binary(
                BinaryNode {
                    lhs: Box::new(NodeType::Branch(a.root)),
                    rhs: Box::new(NodeType::Branch(b.root)),
                    op: BinaryOperator::Max,
                },
            ),
        };
        proof {
            if ga.wf() && gb.wf() {
                assert forall|p: Vec2|
                    #[trigger] r.spec_sample(p) == vstd::math::max(
                        ga.spec_sample(p),
                        gb.spec_sample(p),
                    ) by {
                    Self::lemma_intersection_sample(r, ga, gb, p);
                }
            }
        }
        r
    }

    /// Smooth blend of two shapes: `(1 - factor) * a + factor * b`. The
    /// factor is folded into the tree as a constant; the tree stays lazily
    /// re-sampleable at any position afterward.
    pub fn blend(a: Tree, b: Tree, factor: i64) -> (r: Tree)
        ensures
            r.is_blend_of(a, b, factor),
            r.wf() <==> a.wf() && b.wf(),
            a.wf() && b.wf() ==> forall|p: Vec2|
                #[trigger] r.spec_sample(p) == (1 - factor) * a.spec_sample(p) + factor
                    * b.spec_sample(p),
            a.wf() && b.wf() ==> forall|p: Vec2|
                (#[trigger] r.in_bounds(p) <==> a.in_bounds(p) && b.in_bounds(p) && in_i64(
                    -factor as int,
                ) && in_i64(1 - factor) && in_i64((1 - factor) * a.spec_sample(p)) && in_i64(
                    factor * b.spec_sample(p),
                ) && in_i64(
                    (1 - factor) * a.spec_sample(p) + factor * b.spec_sample(p),
                )),
    {
        let ghost ga = a;
        let ghost gb = b;
        let blend_dist = BinaryExpression {
            lhs: Variable::NumConst(1),
            rhs: Variable::NumConst(factor),
            op: BinaryOperator::Sub,
        };

        let a_blend = BinaryNode {
            lhs: Box::new(NodeType::Leaf(Expression::Binary(blend_dist))),
            rhs: Box::new(NodeType::Branch(a.root)),
            op: BinaryOperator::Mul,
        };

        let b_blend = BinaryNode {
            lhs: Box::new(
                NodeType::Leaf(
                    Expression::Unary(
                        UnaryExpression { var: Variable::NumConst(factor), op: UnaryOperator::NoOp },
                    ),
                ),
            ),
            rhs: Box::new(NodeType::Branch(b.root)),
            op: BinaryOperator::Mul,
        };

        let combined_blend = BinaryNode {
            lhs: Box::new(NodeType::Branch(Node::Binary(a_blend))),
            rhs: Box::new(NodeType::Branch(Node::Binary(b_blend))),
            op: BinaryOperator::Add,
        };

        let r = Tree { root: Node::Binary(combined_blend) };
        proof {
            reveal_with_fuel(Node::shape, 4);
            reveal_with_fuel(NodeType::shape, 4);
            assert(r.wf() <==> ga.wf() && gb.wf());
            if ga.wf() && gb.wf() {
                assert forall|p: Vec2|
                    #[trigger] r.spec_sample(p) == (1 - factor) * ga.spec_sample(p) + factor
                        * gb.spec_sample(p) by {
                    Self::lemma_blend_sample(r, ga, gb, factor, p);
                }
                assert forall|p: Vec2|
                    (#[trigger] r.in_bounds(p) <==> ga.in_bounds(p) && gb.in_bounds(p) && in_i64(
                        -factor as int,
                    ) && in_i64(1 - factor) && in_i64((1 - factor) * ga.spec_sample(p)) && in_i64(
                        factor * gb.spec_sample(p),
                    ) && in_i64(
                        (1 - factor) * ga.spec_sample(p) + factor * gb.spec_sample(p),
                    )) by {
                    reveal_with_fuel(Node::spec_eval, 4);
                    reveal_with_fuel(NodeType::spec_eval, 4);
                    reveal_with_fuel(Node::in_bounds, 4);
                    reveal_with_fuel(NodeType::in_bounds, 4);
                    ga.root.lemma_shape(p);
                    gb.root.lemma_shape(p);
                }
            }
        }
        r
    }
}

} // verus!
