use sdf_algebra::Tree;
use sdf_algebra::circle;
use sdf_algebra::expression::BinaryExpression;
use sdf_algebra::expression::Expression;
use sdf_algebra::expression::UnaryExpression;
use sdf_algebra::math::int_sqrt;
use sdf_algebra::node::BinaryNodeBuilder;
use sdf_algebra::node::Node;
use sdf_algebra::node::NodeType;
use sdf_algebra::node::UnaryNode;
use sdf_algebra::ops::BinaryOperator;
use sdf_algebra::ops::UnaryOperator;
use sdf_algebra::rectangle;
use sdf_algebra::variable::Variable;
use sdf_algebra::vec2::Vec2;

fn simple_tree_tree() -> Tree {
    Tree {
        root: Node::Unary(UnaryNode {
            node: Box::new(NodeType::Leaf(Expression::Binary(BinaryExpression {
                lhs: Variable::default_variable(),
                rhs: Variable::NumConst(1),
                op: BinaryOperator::Add,
            }))),
            op: UnaryOperator::Length,
        }),
    }
}

#[test]
fn simple_circle() {
    let center = Vec2::new(0, -1);
    let circle = circle(&center, 10);

    assert_eq!(-10, circle.sign_at(Vec2::new(0, -1)));
    assert_eq!(0, circle.sign_at(Vec2::new(10, -1)));
    assert_eq!(10, circle.sign_at(Vec2::new(20, -1)));
}

#[test]
fn simple_tree() {
    let tree = simple_tree_tree();

    assert_eq!(2, tree.sign_at(Vec2::new(1, -1)));
    assert_eq!(3, tree.sign_at(Vec2::new(2, -1)));
}

#[test]
fn circle_off_axis() {
    // Distance from (3, 4) to the origin is exactly 5.
    let center = Vec2::new(0, 0);
    let c = circle(&center, 2);
    assert_eq!(3, c.sign_at(Vec2::new(3, 4)));
    // A non-square distance rounds down: isqrt(2) == 1.
    assert_eq!(-1, c.sign_at(Vec2::new(1, 1)));
}

#[test]
fn rectangle_quadrants() {
    let r = rectangle(3, 2);
    // Deep inside: q = (-3, -2), so min(max(-3, -2), 0) = -2.
    assert_eq!(-2, r.sign_at(Vec2::new(0, 0)));
    // On the right edge: q = (0, -2).
    assert_eq!(0, r.sign_at(Vec2::new(3, 0)));
    // Outside along one axis: q = (2, -2), m = (2, 0).
    assert_eq!(2, r.sign_at(Vec2::new(5, 0)));
    // Outside a corner: q = (2, 4), length(2, 4) = isqrt(20) = 4.
    assert_eq!(4, r.sign_at(Vec2::new(5, 6)));
    // Symmetric in both signs.
    assert_eq!(4, r.sign_at(Vec2::new(-5, -6)));
}

#[test]
fn rectangle_degenerate() {
    let r = rectangle(0, 0);
    assert_eq!(0, r.sign_at(Vec2::new(0, 0)));
    assert_eq!(2, r.sign_at(Vec2::new(2, 0)));
    assert_eq!(5, r.sign_at(Vec2::new(3, 4)));
}

#[test]
fn union_is_pointwise_min() {
    let samples = [
        Vec2::new(0, 0),
        Vec2::new(20, 0),
        Vec2::new(10, 0),
        Vec2::new(-7, 3),
        Vec2::new(100, -50),
    ];
    for p in samples {
        let a = circle(&Vec2::new(0, 0), 10);
        let b = circle(&Vec2::new(20, 0), 5);
        let u = Tree::union(circle(&Vec2::new(0, 0), 10), circle(&Vec2::new(20, 0), 5));
        assert_eq!(u.sign_at(p), a.sign_at(p).min(b.sign_at(p)));
    }
}

#[test]
fn intersection_is_pointwise_max() {
    let samples = [
        Vec2::new(0, 0),
        Vec2::new(20, 0),
        Vec2::new(10, 0),
        Vec2::new(-7, 3),
        Vec2::new(100, -50),
    ];
    for p in samples {
        let a = circle(&Vec2::new(0, 0), 10);
        let b = circle(&Vec2::new(20, 0), 5);
        let i = Tree::intersection(circle(&Vec2::new(0, 0), 10), circle(&Vec2::new(20, 0), 5));
        assert_eq!(i.sign_at(p), a.sign_at(p).max(b.sign_at(p)));
    }
}

#[test]
fn blend_endpoints() {
    let p = Vec2::new(4, -3);
    let a = circle(&Vec2::new(0, 0), 10);
    let b = rectangle(2, 2);

    let only_a = Tree::blend(circle(&Vec2::new(0, 0), 10), rectangle(2, 2), 0);
    assert_eq!(only_a.sign_at(p), a.sign_at(p));

    let only_b = Tree::blend(circle(&Vec2::new(0, 0), 10), rectangle(2, 2), 1);
    assert_eq!(only_b.sign_at(p), b.sign_at(p));
}

#[test]
fn blend_is_affine_in_factor() {
    let p = Vec2::new(7, 1);
    let a = circle(&Vec2::new(0, 0), 10);
    let b = rectangle(2, 2);
    let sa = a.sign_at(p);
    let sb = b.sign_at(p);
    for factor in [-2, -1, 0, 1, 2, 5] {
        let t = Tree::blend(circle(&Vec2::new(0, 0), 10), rectangle(2, 2), factor);
        assert_eq!(t.sign_at(p), (1 - factor) * sa + factor * sb);
    }
}

#[test]
fn sampling_leaves_no_state() {
    let p1 = Vec2::new(1, -1);
    let p2 = Vec2::new(2, -1);

    let tree = simple_tree_tree();
    let _ = tree.sign_at(p1);
    let after_two_samples = tree.sign_at(p2);

    let fresh = simple_tree_tree();
    assert_eq!(after_two_samples, fresh.sign_at(p2));

    // And the earlier position answers the same again afterward.
    assert_eq!(tree.sign_at(p1), fresh.sign_at(p1));
}

#[test]
fn length_is_nonnegative() {
    assert_eq!(5, Vec2::new(3, 4).length());
    assert_eq!(5, Vec2::new(-3, -4).length());
    assert_eq!(0, Vec2::new(0, 0).length());
    // Rounds down between squares.
    assert_eq!(1, Vec2::new(1, 1).length());
    assert_eq!(2, Vec2::new(2, 2).length());
    for v in [Vec2::new(-9, 2), Vec2::new(0, -17), Vec2::new(1000, -1000)] {
        assert!(v.length() >= 0);
    }
}

#[test]
fn abs_is_idempotent() {
    for v in [Vec2::new(-3, 4), Vec2::new(0, 0), Vec2::new(7, -9)] {
        let once = v.abs();
        let twice = once.abs();
        assert_eq!(once, twice);
        assert!(once.x >= 0 && once.y >= 0);
    }
}

#[test]
fn vec2_elementwise_ops() {
    let a = Vec2::new(3, -2);
    let b = Vec2::new(1, 5);
    assert_eq!(Vec2::new(3, 5), a.max(&b));
    assert_eq!(Vec2::new(1, -2), a.min(&b));
    assert_eq!(Vec2::new(3, 2), a.abs());
    assert_eq!(Vec2::new(4, 3), a.add(&b));
    assert_eq!(Vec2::new(5, 0), a.add_scalar(2));
    assert_eq!(Vec2::new(-3, 2), a.neg());
    assert_eq!(Vec2::new(6, -4), a.scale(2));
    assert_eq!(3 * 1 + -2 * 5, a.dot(&b));
}

#[test]
fn variable_broadcasting_table() {
    let s = Variable::NumConst(2);
    let v = Variable::VecConst(Vec2::new(-1, 5));

    // scalar op scalar
    assert_eq!(Variable::NumConst(5), s.add(&Variable::NumConst(3)));
    assert_eq!(Variable::NumConst(6), s.mul(&Variable::NumConst(3)));
    assert_eq!(Variable::NumConst(2), s.max(&Variable::NumConst(-7)));
    assert_eq!(Variable::NumConst(-7), s.min(&Variable::NumConst(-7)));

    // scalar broadcast to both components
    assert_eq!(Variable::VecConst(Vec2::new(1, 7)), s.add(&v));
    assert_eq!(Variable::VecConst(Vec2::new(2, 5)), s.max(&v));
    assert_eq!(Variable::VecConst(Vec2::new(-1, 2)), s.min(&v));
    assert_eq!(Variable::VecConst(Vec2::new(-2, 10)), s.mul(&v));

    // vector op vector
    let w = Variable::VecConst(Vec2::new(4, 4));
    assert_eq!(Variable::VecConst(Vec2::new(3, 9)), v.add(&w));
    assert_eq!(Variable::VecConst(Vec2::new(-5, 1)), v.sub(&w));
    assert_eq!(Variable::VecConst(Vec2::new(4, 5)), v.max(&w));
    assert_eq!(Variable::VecConst(Vec2::new(-1, 4)), v.min(&w));
    // vector * vector is the dot product
    assert_eq!(Variable::NumConst(-4 + 20), v.mul(&w));
}

#[test]
fn placeholder_behaves_like_its_payload_vector() {
    let held = Variable::Variable(Vec2::new(-1, 5));
    let w = Variable::VecConst(Vec2::new(4, 4));
    assert_eq!(Variable::VecConst(Vec2::new(3, 9)), held.add(&w));
    assert!(held.is_variable());
    assert!(!w.is_variable());
    assert!(Variable::default_variable().is_variable());
}

#[test]
fn subtraction_is_addition_of_negation() {
    let a = Variable::NumConst(10);
    let b = Variable::NumConst(4);
    assert_eq!(a.sub(&b), a.add(&b.neg()));
    assert_eq!(Variable::NumConst(6), a.sub(&b));
}

#[test]
fn length_passes_a_scalar_through() {
    let e = UnaryExpression { var: Variable::NumConst(-5), op: UnaryOperator::Length };
    assert_eq!(Variable::NumConst(-5), e.evaluate(Vec2::new(0, 0)));
}

#[test]
fn component_extraction() {
    let v = Variable::VecConst(Vec2::new(3, 9));
    let x = UnaryExpression { var: v, op: UnaryOperator::X };
    let y = UnaryExpression { var: v, op: UnaryOperator::Y };
    assert_eq!(Variable::NumConst(3), x.evaluate(Vec2::new(0, 0)));
    assert_eq!(Variable::NumConst(9), y.evaluate(Vec2::new(0, 0)));
}

#[test]
fn builder_defaults_to_zero_leaves() {
    let node = BinaryNodeBuilder::new().build(BinaryOperator::Add);
    let t = Tree { root: Node::Binary(node) };
    assert_eq!(0, t.sign_at(Vec2::new(9, 9)));

    let seven = Expression::Unary(UnaryExpression {
        var: Variable::NumConst(7),
        op: UnaryOperator::NoOp,
    });
    let node = BinaryNodeBuilder::new().with_lhs_leaf(seven).build(BinaryOperator::Add);
    let t = Tree { root: Node::Binary(node) };
    assert_eq!(7, t.sign_at(Vec2::new(9, 9)));
}

#[test]
fn nested_combinators() {
    let p = Vec2::new(6, 0);
    let a = circle(&Vec2::new(0, 0), 1);
    let b = circle(&Vec2::new(4, 0), 1);
    let c = circle(&Vec2::new(8, 0), 1);
    let u = Tree::union(
        Tree::union(circle(&Vec2::new(0, 0), 1), circle(&Vec2::new(4, 0), 1)),
        circle(&Vec2::new(8, 0), 1),
    );
    let expected = a.sign_at(p).min(b.sign_at(p)).min(c.sign_at(p));
    assert_eq!(expected, u.sign_at(p));
}

#[test]
fn int_sqrt_exact_values() {
    assert_eq!(0, int_sqrt(0));
    assert_eq!(1, int_sqrt(1));
    assert_eq!(1, int_sqrt(2));
    assert_eq!(1, int_sqrt(3));
    assert_eq!(2, int_sqrt(4));
    assert_eq!(9, int_sqrt(99));
    assert_eq!(10, int_sqrt(100));
    assert_eq!(3037000499, int_sqrt(i64::MAX as u64));
    assert_eq!(4294967295, int_sqrt(u64::MAX));
}
