use z3::algebraic::{Algebraic, AlgebraicOp};
use z3::ast::{eq, ne, Ast, Bool, Dynamic, Model, Real};
use z3::ast_vector::AstVector;
use z3::context::Context;
use z3::polynomial::Polynomial;
use z3::quantifier_elimination::{LightQuantifierElimination, QeKind, QuantifierElimination};

fn ctx(id: u64) -> Context {
    Context { id }
}

#[test]
fn context_identity() {
    assert!(ctx(1).same_as(&ctx(1)));
    assert!(!ctx(1).same_as(&ctx(2)));
}

#[test]
fn algebraic_add_builds_request_in_shared_context() {
    let c = ctx(9);
    let a = Real::wrap(&c, 100);
    let b = Real::wrap(&c, 200);
    let call = Algebraic::add(&a, &b);
    assert_eq!(call.ctx, c);
    assert_eq!(call.op, AlgebraicOp::Add);
    assert_eq!(call.lhs, 100);
    assert_eq!(call.rhs, Some(200));
}

#[test]
fn algebraic_binary_operations_keep_operand_order() {
    let c = ctx(9);
    let a = Algebraic::wrap(&c, 1);
    let b = Dynamic::wrap(&c, 2);
    let ops = [
        (Algebraic::sub(&a, &b), AlgebraicOp::Sub),
        (Algebraic::mul(&a, &b), AlgebraicOp::Mul),
        (Algebraic::div(&a, &b), AlgebraicOp::Div),
        (Algebraic::lt(&a, &b), AlgebraicOp::Lt),
        (Algebraic::gt(&a, &b), AlgebraicOp::Gt),
        (Algebraic::eq_algebraic(&a, &b), AlgebraicOp::Eq),
    ];
    for (call, op) in ops {
        assert_eq!(call.op, op);
        assert_eq!((call.lhs, call.rhs), (1, Some(2)));
        assert_eq!(call.ctx, c);
    }
    let swapped = Algebraic::sub(&b, &a);
    assert_eq!((swapped.lhs, swapped.rhs), (2, Some(1)));
}

#[test]
fn algebraic_root_and_power_carry_exponent() {
    let c = ctx(9);
    let a = Algebraic::wrap(&c, 5);
    let r = a.root(3);
    assert_eq!(r.op, AlgebraicOp::Root(3));
    assert_eq!((r.lhs, r.rhs), (5, None));
    let p = a.power(2);
    assert_eq!(p.op, AlgebraicOp::Power(2));
    assert_eq!(p.ctx, c);
}

#[test]
fn subresultants_request_names_all_three_terms() {
    let c = ctx(4);
    let p = Dynamic::wrap(&c, 1);
    let q = Dynamic::wrap(&c, 2);
    let x = Dynamic::wrap(&c, 3);
    let call = Polynomial::subresultants(&p, &q, &x);
    assert_eq!(call.ctx, c);
    assert_eq!((call.p, call.q, call.x), (1, 2, 3));
}

#[test]
fn existential_elimination_is_outermost_only() {
    let c = ctx(4);
    let f = Dynamic::wrap(&c, 77);
    let call = QuantifierElimination::eliminate_existential_quantifiers(&f);
    assert_eq!(call.formula, 77);
    assert!(matches!(call.kind, QeKind::Eliminate { eliminate_all: false }));
    let all = QuantifierElimination::eliminate_quantifiers(&f, true);
    assert!(matches!(all.kind, QeKind::Eliminate { eliminate_all: true }));
}

#[test]
fn model_guided_elimination_projects_no_variables() {
    let c = ctx(4);
    let f = Dynamic::wrap(&c, 77);
    let m = Model::wrap(&c, 55);
    let call = QuantifierElimination::eliminate_quantifiers_with_model(&f, Some(&m), true);
    match call.kind {
        QeKind::Project { model, vars } => {
            assert_eq!(model, Some(55));
            assert!(vars.is_empty());
        }
        _ => panic!("expected a projection"),
    }
    let bare = QuantifierElimination::eliminate_quantifiers_with_model(&f, None, false);
    assert!(matches!(bare.kind, QeKind::Project { model: None, .. }));
}

#[test]
fn project_variables_lists_variables_in_order() {
    let c = ctx(4);
    let f = Dynamic::wrap(&c, 77);
    let m = Model::wrap(&c, 55);
    let vars = [Dynamic::wrap(&c, 8), Dynamic::wrap(&c, 6)];
    let call = QuantifierElimination::project_variables(&m, &vars, &f);
    assert_eq!(call.ctx, c);
    match call.kind {
        QeKind::Project { model, vars } => {
            assert_eq!(model, Some(55));
            assert_eq!(vars, vec![8, 6]);
        }
        _ => panic!("expected a projection"),
    }
}

#[test]
fn light_and_simplify_requests() {
    let c = ctx(4);
    let f = Dynamic::wrap(&c, 12);
    assert!(matches!(LightQuantifierElimination::eliminate(&f).kind, QeKind::Light));
    assert!(matches!(QuantifierElimination::simplify_with_qe(&f).kind, QeKind::Simplify));
    let vars = AstVector::wrap(&c, vec![3, 4]);
    match QuantifierElimination::lite(&vars, &f).kind {
        QeKind::Lite { vars } => assert_eq!(vars, vec![3, 4]),
        _ => panic!("expected lite"),
    }
}

#[test]
fn equality_requests() {
    let c = ctx(3);
    let a = Dynamic::wrap(&c, 10);
    let b = Bool::wrap(&c, 11);
    let e = eq(&a, &b);
    assert_eq!((e.ctx, e.lhs, e.rhs, e.negated), (c, 10, 11, false));
    let n = ne(&a, &a);
    assert_eq!((n.lhs, n.rhs, n.negated), (10, 10, true));
}

#[test]
fn dynamic_view_keeps_handle() {
    let c = ctx(3);
    let r = Real::wrap(&c, 64);
    let d = Dynamic::from_ast(&r);
    assert_eq!((d.get_ctx(), d.get_z3_ast()), (c, 64));
}
