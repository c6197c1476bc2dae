//! Primitive shape factories. They are clients of the core: they assemble
//! trees through the public construction API, and each one's contract gives
//! the closed-form signed distance its tree denotes.

use vstd::prelude::*;

use crate::expression::BinaryExpression;
use crate::expression::Expression;
use crate::expression::UnaryExpression;
use crate::math::in_i64;
use crate::math::isqrt;
use crate::math::lemma_is_sqrt_bound;
use crate::math::lemma_isqrt_is_sqrt;
use crate::node::BinaryNodeBuilder;
use crate::node::Node;
use crate::node::NodeType;
use crate::node::UnaryNode;
use crate::node::spec_zero_leaf;
use crate::ops::BinaryOperator;
use crate::ops::UnaryOperator;
use crate::tree::Tree;
use crate::variable::VarV;
use crate::variable::Variable;
use crate::vec2::Vec2;

verus! {

/// Squared Euclidean distance between a position and a center.
pub open spec fn circle_dist2(center: Vec2, p: Vec2) -> int {
    (p.x - center.x) * (p.x - center.x) + (p.y - center.y) * (p.y - center.y)
}

/// The circle's signed distance at `p`: the distance from the center, minus
/// the radius.
pub open spec fn circle_sdf(center: Vec2, radius: i64, p: Vec2) -> int {
    isqrt(circle_dist2(center, p)) - radius
}

/// The machine evaluation of the circle tree stays in range at `p`.
pub open spec fn circle_in_bounds(center: Vec2, radius: i64, p: Vec2) -> bool {
    &&& in_i64(-(center.x as int))
    &&& in_i64(-(center.y as int))
    &&& in_i64(p.x - center.x)
    &&& in_i64(p.y - center.y)
    &&& circle_dist2(center, p) <= i64::MAX
    &&& in_i64(isqrt(circle_dist2(center, p)) - radius)
}

/// The tree `circle` builds: the length of the offset from the center, plus
/// the negated radius.
pub open spec fn is_circle_tree(t: Tree, center: Vec2, radius: i64) -> bool {
    &&& t.root matches Node::Binary(top)
    &&& top.op == BinaryOperator::Add
    &&& *top.lhs matches NodeType::Branch(ln)
    &&& ln matches Node::Unary(un)
    &&& un.op == UnaryOperator::Length
    &&& *un.node matches NodeType::Leaf(le)
    &&& le matches Expression::Binary(be)
    &&& be.lhs == (Variable::Variable(Vec2 { x: 0, y: 0 }))
    &&& be.rhs == Variable::VecConst(center)
    &&& be.op == BinaryOperator::Sub
    &&& *top.rhs matches NodeType::Leaf(re)
    &&& re matches Expression::Unary(ue)
    &&& ue.var matches Variable::NumConst(nr)
    &&& nr as int == -(radius as int)
    &&& ue.op == UnaryOperator::NoOp
}

/// A circle of the given center and radius: its distance at `p` is the
/// distance from `p` to the center, minus the radius.
pub fn circle(center: &Vec2, radius: i64) -> (r: Tree)
    requires
        radius > i64::MIN,
    ensures
        is_circle_tree(r, *center, radius),
        r.wf(),
        forall|p: Vec2| #[trigger] r.in_bounds(p) <==> circle_in_bounds(*center, radius, p),
        forall|p: Vec2|
            circle_in_bounds(*center, radius, p) ==> #[trigger] r.spec_sample(p) == circle_sdf(
                *center,
                radius,
                p,
            ),
{
    let center_sub = BinaryExpression {
        lhs: Variable::default_variable(),
        rhs: Variable::VecConst(*center),
        op: BinaryOperator::Sub,
    };

    let dist_from_center = UnaryNode::from_expression(
        Expression::Binary(center_sub),
        UnaryOperator::Length,
    );

    let radius_neg = UnaryExpression { var: Variable::NumConst(-radius), op: UnaryOperator::NoOp };

    let radius_sub = BinaryNodeBuilder::new()
        .with_lhs_node(Node::Unary(dist_from_center))
        .with_rhs_leaf(Expression::Unary(radius_neg))
        .build(BinaryOperator::Add);

    let r = Tree { root: Node::Binary(radius_sub) };
    proof {
        reveal_with_fuel(Node::shape, 4);
        reveal_with_fuel(NodeType::shape, 4);
        assert(r.wf());
        assert forall|p: Vec2|
            #[trigger] r.in_bounds(p) <==> circle_in_bounds(*center, radius, p) by {
            reveal_with_fuel(Node::spec_eval, 4);
            reveal_with_fuel(NodeType::spec_eval, 4);
            reveal_with_fuel(Node::in_bounds, 4);
            reveal_with_fuel(NodeType::in_bounds, 4);
        }
        assert forall|p: Vec2| circle_in_bounds(*center, radius, p) implies #[trigger] r.spec_sample(
            p,
        ) == circle_sdf(*center, radius, p) by {
            reveal_with_fuel(Node::spec_eval, 4);
            reveal_with_fuel(NodeType::spec_eval, 4);
        }
    }
    r
}

/// First component of `q`, the elementwise distance from the symmetric
/// rectangle: `|p.x| - width`.
pub open spec fn rect_qx(width: u32, height: u32, p: Vec2) -> int {
    vstd::math::abs(p.x as int) - width
}

/// Second component of `q`: `|p.y| - height`.
pub open spec fn rect_qy(width: u32, height: u32, p: Vec2) -> int {
    vstd::math::abs(p.y as int) - height
}

/// First component of `max(q, 0)`, the outside-distance vector.
pub open spec fn rect_mx(width: u32, height: u32, p: Vec2) -> int {
    vstd::math::max(rect_qx(width, height, p), 0)
}

/// Second component of `max(q, 0)`.
pub open spec fn rect_my(width: u32, height: u32, p: Vec2) -> int {
    vstd::math::max(rect_qy(width, height, p), 0)
}

/// The rectangle's signed distance at `p`:
/// `length(max(q, 0)) + min(max(q.x, q.y), 0)` where `q = abs(p) - (w, h)`.
pub open spec fn rectangle_sdf(width: u32, height: u32, p: Vec2) -> int {
    isqrt(
        rect_mx(width, height, p) * rect_mx(width, height, p) + rect_my(width, height, p) * rect_my(
            width,
            height,
            p,
        ),
    ) + vstd::math::min(vstd::math::max(rect_qx(width, height, p), rect_qy(width, height, p)), 0)
}

/// The machine evaluation of the rectangle tree stays in range at `p`.
pub open spec fn rectangle_in_bounds(width: u32, height: u32, p: Vec2) -> bool {
    &&& p.x > i64::MIN
    &&& p.y > i64::MIN
    &&& rect_mx(width, height, p) * rect_mx(width, height, p) + rect_my(width, height, p)
        * rect_my(width, height, p) <= i64::MAX
}

/// The `q` subtree of the rectangle: `abs(P) - (width, height)`, with the
/// sample position `P` in a placeholder leaf.
pub open spec fn is_rect_q_node(n: Node, width: u32, height: u32) -> bool {
    &&& n matches Node::Binary(bd)
    &&& bd.op == BinaryOperator::Sub
    &&& *bd.lhs matches NodeType::Leaf(al)
    &&& al matches Expression::Unary(ae)
    &&& ae.op == UnaryOperator::Abs
    &&& ae.var == (Variable::Variable(Vec2 { x: 0, y: 0 }))
    &&& *bd.rhs matches NodeType::Leaf(wl)
    &&& wl matches Expression::Unary(we)
    &&& we.op == UnaryOperator::NoOp
    &&& we.var == (Variable::VecConst(Vec2 { x: width as i64, y: height as i64 }))
}

/// The tree `rectangle` builds: `length(max(q, 0)) + min(max(q.x, q.y), 0)`,
/// with the `q` subtree appearing three times.
pub open spec fn is_rectangle_tree(t: Tree, width: u32, height: u32) -> bool {
    &&& t.root matches Node::Binary(top)
    &&& top.op == BinaryOperator::Add
    &&& *top.lhs matches NodeType::Branch(lenn)
    &&& lenn matches Node::Unary(lu)
    &&& lu.op == UnaryOperator::Length
    &&& *lu.node matches NodeType::Branch(maxn)
    &&& maxn matches Node::Binary(mb)
    &&& mb.op == BinaryOperator::Max
    &&& *mb.lhs matches NodeType::Branch(d1)
    &&& is_rect_q_node(d1, width, height)
    &&& *mb.rhs == spec_zero_leaf()
    &&& *top.rhs matches NodeType::Branch(minn)
    &&& minn matches Node::Binary(minb)
    &&& minb.op == BinaryOperator::Min
    &&& *minb.rhs == spec_zero_leaf()
    &&& *minb.lhs matches NodeType::Branch(mxy)
    &&& mxy matches Node::Binary(mxyb)
    &&& mxyb.op == BinaryOperator::Max
    &&& *mxyb.lhs matches NodeType::Branch(dxn)
    &&& dxn matches Node::Unary(dxu)
    &&& dxu.op == UnaryOperator::X
    &&& *dxu.node matches NodeType::Branch(d2)
    &&& is_rect_q_node(d2, width, height)
    &&& *mxyb.rhs matches NodeType::Branch(dyn2)
    &&& dyn2 matches Node::Unary(dyu)
    &&& dyu.op == UnaryOperator::Y
    &&& *dyu.node matches NodeType::Branch(d3)
    &&& is_rect_q_node(d3, width, height)
}

/// What the `q` subtree denotes: the vector `(q.x, q.y)`, well shaped, and
/// in machine range exactly when both position components have an absolute
/// value.
pub proof fn lemma_rect_q_node(n: Node, width: u32, height: u32, p: Vec2)
    requires
        is_rect_q_node(n, width, height),
    ensures
        n.shape() == Some(crate::ops::Shape::Vector),
        n.spec_eval(p) == VarV::Vector(rect_qx(width, height, p), rect_qy(width, height, p)),
        n.in_bounds(p) <==> p.x > i64::MIN && p.y > i64::MIN,
{
    reveal_with_fuel(Node::shape, 2);
    reveal_with_fuel(NodeType::shape, 2);
    reveal_with_fuel(Node::spec_eval, 2);
    reveal_with_fuel(NodeType::spec_eval, 2);
    reveal_with_fuel(Node::in_bounds, 2);
    reveal_with_fuel(NodeType::in_bounds, 2);
}

/// What the rectangle tree denotes: a well-formed scalar field equal to the
/// rectangle's closed-form signed distance wherever the machine evaluation
/// stays in range.
pub proof fn lemma_rectangle_props(t: Tree, width: u32, height: u32, p: Vec2)
    requires
        is_rectangle_tree(t, width, height),
    ensures
        t.wf(),
        t.in_bounds(p) <==> rectangle_in_bounds(width, height, p),
        rectangle_in_bounds(width, height, p) ==> t.spec_sample(p) == rectangle_sdf(
            width,
            height,
            p,
        ),
{
    let qx = rect_qx(width, height, p);
    let qy = rect_qy(width, height, p);
    let mx = rect_mx(width, height, p);
    let my = rect_my(width, height, p);
    let m2 = mx * mx + my * my;
    let pb = p.x > i64::MIN && p.y > i64::MIN;

    let top = t.root->Binary_0;
    let lenn = (*top.lhs)->Branch_0;
    let lu = lenn->Unary_0;
    let maxn = (*lu.node)->Branch_0;
    let mb = maxn->Binary_0;
    let d1 = (*mb.lhs)->Branch_0;
    let minn = (*top.rhs)->Branch_0;
    let minb = minn->Binary_0;
    let mxy = (*minb.lhs)->Branch_0;
    let mxyb = mxy->Binary_0;
    let dxn = (*mxyb.lhs)->Branch_0;
    let dxu = dxn->Unary_0;
    let d2 = (*dxu.node)->Branch_0;
    let dyn2 = (*mxyb.rhs)->Branch_0;
    let dyu = dyn2->Unary_0;
    let d3 = (*dyu.node)->Branch_0;

    lemma_rect_q_node(d1, width, height, p);
    lemma_rect_q_node(d2, width, height, p);
    lemma_rect_q_node(d3, width, height, p);

    // The neutral zero leaf that closes the `max(q, 0)` and `min(.., 0)`
    // nodes.
    assert(spec_zero_leaf().shape() == Some(crate::ops::Shape::Scalar));
    assert(spec_zero_leaf().spec_eval(p) == VarV::Scalar(0));
    assert(spec_zero_leaf().in_bounds(p));

    // The `length(max(q, 0))` side, layer by layer.
    assert((*mb.lhs).shape() == Some(crate::ops::Shape::Vector));
    assert((*mb.lhs).spec_eval(p) == VarV::Vector(qx, qy));
    assert((*mb.lhs).in_bounds(p) <==> pb);
    assert(maxn.shape() == Some(crate::ops::Shape::Vector));
    assert(maxn.spec_eval(p) == VarV::Vector(mx, my));
    assert(maxn.in_bounds(p) <==> pb);
    assert((*lu.node).shape() == Some(crate::ops::Shape::Vector));
    assert((*lu.node).spec_eval(p) == VarV::Vector(mx, my));
    assert((*lu.node).in_bounds(p) <==> pb);
    assert(lenn.shape() == Some(crate::ops::Shape::Scalar));
    assert(lenn.spec_eval(p) == VarV::Scalar(isqrt(m2)));
    assert(lenn.in_bounds(p) <==> pb && m2 <= i64::MAX);
    assert((*top.lhs).shape() == Some(crate::ops::Shape::Scalar));
    assert((*top.lhs).spec_eval(p) == VarV::Scalar(isqrt(m2)));
    assert((*top.lhs).in_bounds(p) <==> pb && m2 <= i64::MAX);

    // The `min(max(q.x, q.y), 0)` side, layer by layer.
    assert((*dxu.node).spec_eval(p) == VarV::Vector(qx, qy));
    assert((*dxu.node).shape() == Some(crate::ops::Shape::Vector));
    assert((*dxu.node).in_bounds(p) <==> pb);
    assert((*dyu.node).spec_eval(p) == VarV::Vector(qx, qy));
    assert((*dyu.node).shape() == Some(crate::ops::Shape::Vector));
    assert((*dyu.node).in_bounds(p) <==> pb);
    assert(dxn.shape() == Some(crate::ops::Shape::Scalar));
    assert(dxn.spec_eval(p) == VarV::Scalar(qx));
    assert(dxn.in_bounds(p) <==> pb);
    assert(dyn2.shape() == Some(crate::ops::Shape::Scalar));
    assert(dyn2.spec_eval(p) == VarV::Scalar(qy));
    assert(dyn2.in_bounds(p) <==> pb);
    assert((*mxyb.lhs).shape() == Some(crate::ops::Shape::Scalar));
    assert((*mxyb.lhs).spec_eval(p) == VarV::Scalar(qx));
    assert((*mxyb.lhs).in_bounds(p) <==> pb);
    assert((*mxyb.rhs).shape() == Some(crate::ops::Shape::Scalar));
    assert((*mxyb.rhs).spec_eval(p) == VarV::Scalar(qy));
    assert((*mxyb.rhs).in_bounds(p) <==> pb);
    assert(mxy.shape() == Some(crate::ops::Shape::Scalar));
    assert(mxy.spec_eval(p) == VarV::Scalar(vstd::math::max(qx, qy)));
    assert(mxy.in_bounds(p) <==> pb);
    assert((*minb.lhs).shape() == Some(crate::ops::Shape::Scalar));
    assert((*minb.lhs).spec_eval(p) == VarV::Scalar(vstd::math::max(qx, qy)));
    assert((*minb.lhs).in_bounds(p) <==> pb);
    let minv = vstd::math::min(vstd::math::max(qx, qy), 0);
    assert(minn.shape() == Some(crate::ops::Shape::Scalar));
    assert(minn.spec_eval(p) == VarV::Scalar(minv));
    assert(minn.in_bounds(p) <==> pb);
    assert((*top.rhs).shape() == Some(crate::ops::Shape::Scalar));
    assert((*top.rhs).spec_eval(p) == VarV::Scalar(minv));
    assert((*top.rhs).in_bounds(p) <==> pb);

    // The root: the sum of both sides.
    assert(t.root.shape() == Some(crate::ops::Shape::Scalar));
    assert(t.root.spec_eval(p) == VarV::Scalar(isqrt(m2) + minv));

    if pb && m2 <= i64::MAX {
        assert(mx * mx >= 0) by (nonlinear_arith);
        assert(my * my >= 0) by (nonlinear_arith);
        lemma_isqrt_is_sqrt(m2);
        lemma_is_sqrt_bound(m2, isqrt(m2));
        assert(in_i64(isqrt(m2) + minv));
    }
    assert(t.root.in_bounds(p) <==> pb && m2 <= i64::MAX && in_i64(isqrt(m2) + minv));
    assert(t.in_bounds(p) <==> rectangle_in_bounds(width, height, p));
}

/// Builds the `q` subtree, `abs(P) - (width, height)`; the rectangle uses
/// three structurally identical copies of it.
fn rect_q_node(width: u32, height: u32) -> (r: Node)
    ensures
        is_rect_q_node(r, width, height),
{
    let abs_var = UnaryExpression { var: Variable::default_variable(), op: UnaryOperator::Abs };

    let w_h = UnaryExpression {
        var: Variable::VecConst(Vec2::new(width as i64, height as i64)),
        op: UnaryOperator::NoOp,
    };

    Node::Binary(
        BinaryNodeBuilder::new()
            .with_lhs_leaf(Expression::Unary(abs_var))
            .with_rhs_leaf(Expression::Unary(w_h))
            .build(BinaryOperator::Sub),
    )
}

/// An origin-centered rectangle of the given half-extents: its distance at
/// `p` is `length(max(q, 0)) + min(max(q.x, q.y), 0)` for
/// `q = abs(p) - (width, height)`.
pub fn rectangle(width: u32, height: u32) -> (r: Tree)
    ensures
        is_rectangle_tree(r, width, height),
        r.wf(),
        forall|p: Vec2| #[trigger] r.in_bounds(p) <==> rectangle_in_bounds(width, height, p),
        forall|p: Vec2|
            rectangle_in_bounds(width, height, p) ==> #[trigger] r.spec_sample(p) == rectangle_sdf(
                width,
                height,
                p,
            ),
{
    let max = BinaryNodeBuilder::new()
        .with_lhs_node(rect_q_node(width, height))
        .with_rhs_leaf(Expression::Unary(UnaryExpression::default()))
        .build(BinaryOperator::Max);

    let length = UnaryNode::from_node(Node::Binary(max), UnaryOperator::Length);

    let d_x = UnaryNode::from_node(rect_q_node(width, height), UnaryOperator::X);
    let d_y = UnaryNode::from_node(rect_q_node(width, height), UnaryOperator::Y);

    let max_x_y = BinaryNodeBuilder::new()
        .with_lhs_node(Node::Unary(d_x))
        .with_rhs_node(Node::Unary(d_y))
        .build(BinaryOperator::Max);

    let min_0 = BinaryNodeBuilder::new()
        .with_lhs_node(Node::Binary(max_x_y))
        .with_rhs_leaf(Expression::Unary(UnaryExpression::default()))
        .build(BinaryOperator::Min);

    let distance = BinaryNodeBuilder::new()
        .with_lhs_node(Node::Unary(length))
        .with_rhs_node(Node::Binary(min_0))
        .build(BinaryOperator::Add);

    let r = Tree { root: Node::Binary(distance) };
    proof {
        assert(is_rectangle_tree(r, width, height));
        lemma_rectangle_props(r, width, height, Vec2 { x: 0, y: 0 });
        assert forall|p: Vec2|
            #[trigger] r.in_bounds(p) <==> rectangle_in_bounds(width, height, p) by {
            lemma_rectangle_props(r, width, height, p);
        }
        assert forall|p: Vec2|
            rectangle_in_bounds(width, height, p) implies #[trigger] r.spec_sample(p)
            == rectangle_sdf(width, height, p) by {
            lemma_rectangle_props(r, width, height, p);
        }
    }
    r
}

} // verus!
