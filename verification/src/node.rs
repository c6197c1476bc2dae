//! The recursive tree: a unary or binary node whose operand slots hold
//! either a terminal leaf expression or a nested node. Evaluation reduces
//! each child to a concrete operand value, then applies the node's operator
//! exactly as a leaf expression would, so the same operator semantics hold
//! whether an operand came from a constant leaf or from a deep subtree.

use vstd::prelude::*;

use crate::expression::BinaryExpression;
use crate::expression::Expression;
use crate::expression::UnaryExpression;
use crate::ops::BinaryOperator;
use crate::ops::Shape;
use crate::ops::UnaryOperator;
use crate::ops::apply_binary;
use crate::ops::apply_unary;
use crate::ops::binary_ok;
use crate::ops::binary_shape;
use crate::ops::lemma_apply_binary_shape;
use crate::ops::lemma_apply_unary_shape;
use crate::ops::shape_of;
use crate::ops::unary_ok;
use crate::ops::unary_shape;
use crate::variable::VarV;
use crate::variable::Variable;
use crate::vec2::Vec2;

verus! {

/// A unary node over one child slot.
#[derive(Debug)]
pub struct UnaryNode {
    pub node: Box<NodeType>,
    pub op: UnaryOperator,
}

/// A binary node over two child slots.
#[derive(Debug)]
pub struct BinaryNode {
    pub lhs: Box<NodeType>,
    pub rhs: Box<NodeType>,
    pub op: BinaryOperator,
}

/// The recursive tree node.
#[derive(Debug)]
pub enum Node {
    Unary(UnaryNode),
    Binary(BinaryNode),
}

/// A child slot: a terminal leaf expression or a nested node.
#[derive(Debug)]
pub enum NodeType {
    Leaf(Expression),
    Branch(Node),
}

/// The neutral zero-constant leaf, used for any side a builder leaves unset.
pub open spec fn spec_zero_leaf() -> NodeType {
    NodeType::Leaf(
        Expression::Unary(UnaryExpression { var: Variable::NumConst(0), op: UnaryOperator::NoOp }),
    )
}

impl NodeType {
    /// The shape of the value this slot produces, or `None` on a shape
    /// mismatch anywhere inside it.
    pub open spec fn shape(self) -> Option<Shape>
        decreases self,
    {
        match self {
            NodeType::Leaf(e) => e.shape(),
            NodeType::Branch(n) => n.shape(),
        }
    }

    /// No shape mismatch anywhere inside this slot.
    pub open spec fn wf(self) -> bool {
        self.shape() is Some
    }

    /// The value of this slot at a sample position.
    pub open spec fn spec_eval(self, pos: Vec2) -> VarV
        decreases self,
    {
        match self {
            NodeType::Leaf(e) => e.spec_eval(pos),
            NodeType::Branch(n) => n.spec_eval(pos),
        }
    }

    /// The machine evaluation at this position stays in range, everywhere
    /// inside this slot.
    pub open spec fn in_bounds(self, pos: Vec2) -> bool
        decreases self,
    {
        match self {
            NodeType::Leaf(e) => e.in_bounds(pos),
            NodeType::Branch(n) => n.in_bounds(pos),
        }
    }

    /// The shape analysis predicts the shape of the evaluated value.
    pub proof fn lemma_shape(self, pos: Vec2)
        requires
            self.wf(),
        ensures
            self.shape() == Some(shape_of(self.spec_eval(pos))),
            !(self.spec_eval(pos) is Place),
        decreases self,
    {
        match self {
            NodeType::Leaf(e) => e.lemma_shape(pos),
            NodeType::Branch(n) => n.lemma_shape(pos),
        }
    }
}

impl Node {
    /// The shape of the value this node produces, or `None` on a shape
    /// mismatch anywhere inside it.
    pub open spec fn shape(self) -> Option<Shape>
        decreases self,
    {
        match self {
            Node::Unary(un) => match (*un.node).shape() {
                Some(s) => unary_shape(un.op, s),
                None => None,
            },
            Node::Binary(bn) => match ((*bn.lhs).shape(), (*bn.rhs).shape()) {
                (Some(l), Some(r)) => Some(binary_shape(bn.op, l, r)),
                _ => None,
            },
        }
    }

    /// No shape mismatch anywhere inside this node.
    pub open spec fn wf(self) -> bool {
        self.shape() is Some
    }

    /// The value of this node at a sample position: each child reduced to a
    /// value, then the node's operator applied to those values.
    pub open spec fn spec_eval(self, pos: Vec2) -> VarV
        decreases self,
    {
        match self {
            Node::Unary(un) => apply_unary(un.op, (*un.node).spec_eval(pos)),
            Node::Binary(bn) => apply_binary(
                bn.op,
                (*bn.lhs).spec_eval(pos),
                (*bn.rhs).spec_eval(pos),
            ),
        }
    }

    /// The machine evaluation at this position stays in range, everywhere
    /// inside this node.
    pub open spec fn in_bounds(self, pos: Vec2) -> bool
        decreases self,
    {
        match self {
            Node::Unary(un) => (*un.node).in_bounds(pos) && unary_ok(
                un.op,
                (*un.node).spec_eval(pos),
            ),
            Node::Binary(bn) => (*bn.lhs).in_bounds(pos) && (*bn.rhs).in_bounds(pos)
                && binary_ok(bn.op, (*bn.lhs).spec_eval(pos), (*bn.rhs).spec_eval(pos)),
        }
    }

    /// The shape analysis predicts the shape of the evaluated value.
    pub proof fn lemma_shape(self, pos: Vec2)
        requires
            self.wf(),
        ensures
            self.shape() == Some(shape_of(self.spec_eval(pos))),
            !(self.spec_eval(pos) is Place),
        decreases self,
    {
        match self {
            Node::Unary(un) => {
                (*un.node).lemma_shape(pos);
                lemma_apply_unary_shape(un.op, (*un.node).spec_eval(pos));
            },
            Node::Binary(bn) => {
                (*bn.lhs).lemma_shape(pos);
                (*bn.rhs).lemma_shape(pos);
                lemma_apply_binary_shape(bn.op, (*bn.lhs).spec_eval(pos), (*bn.rhs).spec_eval(pos));
            },
        }
    }

    /// Recursively reduces each child to a concrete operand value, then
    /// applies this node's operator to the resolved value(s) exactly as if
    /// they were the operands of a leaf expression.
    pub fn evaluate(&self, pos: Vec2) -> (r: Variable)
        requires
            self.wf(),
            self.in_bounds(pos),
        ensures
            r@ == self.spec_eval(pos),
            !(r@ is Place),
        decreases self,
    {
        match self {
            Node::Unary(un) => {
                let v: Variable = match &*un.node {
                    NodeType::Branch(node) => node.evaluate(pos),
                    NodeType::Leaf(leaf) => leaf.evaluate(pos),
                };
                proof {
                    (*un.node).lemma_shape(pos);
                }
                let expr = UnaryExpression { var: v, op: un.op };
                expr.evaluate(pos)
            },
            Node::Binary(bn) => {
                let l: Variable = match &*bn.lhs {
                    NodeType::Branch(node) => node.evaluate(pos),
                    NodeType::Leaf(leaf) => leaf.evaluate(pos),
                };
                let r: Variable = match &*bn.rhs {
                    NodeType::Branch(node) => node.evaluate(pos),
                    NodeType::Leaf(leaf) => leaf.evaluate(pos),
                };
                let expr = BinaryExpression { lhs: l, rhs: r, op: bn.op };
                expr.evaluate(pos)
            },
        }
    }
}

impl UnaryNode {
    /// A unary node over a terminal leaf expression.
    pub fn from_expression(expr: Expression, op: UnaryOperator) -> (r: Self)
        ensures
            *r.node == NodeType::Leaf(expr),
            r.op == op,
    {
        UnaryNode { node: Box::new(NodeType::Leaf(expr)), op }
    }

    /// A unary node over a nested subtree.
    pub fn from_node(node: Node, op: UnaryOperator) -> (r: Self)
        ensures
            *r.node == NodeType::Branch(node),
            r.op == op,
    {
        UnaryNode { node: Box::new(NodeType::Branch(node)), op }
    }
}

impl BinaryNode {
    /// A binary node over two nested subtrees.
    pub fn from_nodes(a: Node, b: Node, op: BinaryOperator) -> (r: Self)
        ensures
            *r.lhs == NodeType::Branch(a),
            *r.rhs == NodeType::Branch(b),
            r.op == op,
    {
        BinaryNode {
            lhs: Box::new(NodeType::Branch(a)),
            rhs: Box::new(NodeType::Branch(b)),
            op,
        }
    }

    /// The neutral binary node: the sum of two zero-constant leaves.
    pub fn new() -> (r: Self)
        ensures
            *r.lhs == spec_zero_leaf(),
            *r.rhs == spec_zero_leaf(),
            r.op == BinaryOperator::Add,
    {
        BinaryNode {
            lhs: Box::new(NodeType::Leaf(Expression::Unary(UnaryExpression::default()))),
            rhs: Box::new(NodeType::Leaf(Expression::Unary(UnaryExpression::default()))),
            op: BinaryOperator::Add,
        }
    }
}

/// The sanctioned way to assemble a binary node: either side may be set to a
/// leaf expression or to a full subtree independently; a side left unset
/// defaults to the neutral zero-constant leaf.
pub struct BinaryNodeBuilder {
    pub lhs: NodeType,
    pub rhs: NodeType,
}

impl BinaryNodeBuilder {
    /// A builder with both sides at the zero-constant default.
    pub fn new() -> (r: Self)
        ensures
            r.lhs == spec_zero_leaf(),
            r.rhs == spec_zero_leaf(),
    {
        BinaryNodeBuilder {
            lhs: NodeType::Leaf(Expression::Unary(UnaryExpression::default())),
            rhs: NodeType::Leaf(Expression::Unary(UnaryExpression::default())),
        }
    }

    /// Sets the left side to a subtree.
    pub fn with_lhs_node(self, lhs: Node) -> (r: Self)
        ensures
            r.lhs == NodeType::Branch(lhs),
            r.rhs == self.rhs,
    {
        BinaryNodeBuilder { lhs: NodeType::Branch(lhs), rhs: self.rhs }
    }

    /// Sets the left side to a leaf expression.
    pub fn with_lhs_leaf(self, lhs: Expression) -> (r: Self)
        ensures
            r.lhs == NodeType::Leaf(lhs),
            r.rhs == self.rhs,
    {
        BinaryNodeBuilder { lhs: NodeType::Leaf(lhs), rhs: self.rhs }
    }

    /// Sets the right side to a subtree.
    pub fn with_rhs_node(self, rhs: Node) -> (r: Self)
        ensures
            r.lhs == self.lhs,
            r.rhs == NodeType::Branch(rhs),
    {
        BinaryNodeBuilder { lhs: self.lhs, rhs: NodeType::Branch(rhs) }
    }

    /// Sets the right side to a leaf expression.
    pub fn with_rhs_leaf(self, rhs: Expression) -> (r: Self)
        ensures
            r.lhs == self.lhs,
            r.rhs == NodeType::Leaf(rhs),
    {
        BinaryNodeBuilder { lhs: self.lhs, rhs: NodeType::Leaf(rhs) }
    }

    /// Finalizes both sides with the binary operator.
    pub fn build(self, op: BinaryOperator) -> (r: BinaryNode)
        ensures
            *r.lhs == self.lhs,
            *r.rhs == self.rhs,
            r.op == op,
    {
        BinaryNode { lhs: Box::new(self.lhs), rhs: Box::new(self.rhs), op }
    }
}

} // verus!
