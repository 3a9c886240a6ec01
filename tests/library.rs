use convexify::analysis::{
    fold_of, get_free_vars_data, is_gt_zero, is_not_one, is_not_zero, not_has_log, Meta,
    Data, DidMerge, Fold, FoldOp,
};
use convexify::driver::{
    convexify_check, convexify_check_and_print, convexify_check_expression,
    convexify_check_expression_and_print, problem_text, ConvexifyError,
};
use convexify::cost::cost;
use convexify::curvature::Curvature;
use convexify::explain::{
    get_rewrite_name_and_direction, steps_from_explanation, Direction, FlatStep, FlatTerm,
};
use convexify::num::Num;
use convexify::rules::{rules, GuardKind};
use convexify::term::{is_exp, Optimization};
use core::cmp::Ordering;
use convexify::curvature::Curvature::{Affine, Concave, Constant, Convex, Unknown, Valid};

const ALL: [Curvature; 6] = [
    Curvature::Convex,
    Curvature::Concave,
    Curvature::Affine,
    Curvature::Constant,
    Curvature::Valid,
    Curvature::Unknown,
];

fn num(f: f64) -> Num {
    Num { bits: f.to_bits() }
}

fn data(vars: &[(usize, &str)], constant: Option<f64>) -> Data {
    Data {
        free_vars: vars.iter().map(|(i, s)| (*i, s.to_string())).collect(),
        constant: constant.map(|f| (num(f), Fold::Lit(num(f)))),
        has_log: false,
        has_exp: false,
    }
}

#[test]
fn lattice_laws_hold_on_every_pair() {
    for a in ALL {
        assert!(a.le(&a));
        assert_eq!(a.partial_cmp(&a), Some(Ordering::Equal));
        assert!(a.le(&Unknown));
    }
    assert!(Constant.le(&Affine) && Affine.le(&Convex) && Affine.le(&Concave));
    assert!(Constant < Convex);
    assert_eq!(Convex.partial_cmp(&Concave), None);
    for c in [Convex, Concave, Affine, Constant] {
        assert_eq!(Valid.partial_cmp(&c), None);
        assert_eq!(c.partial_cmp(&Valid), None);
    }
    assert_eq!(Unknown.partial_cmp(&Valid), Some(Ordering::Greater));
    assert!(!Unknown.le(&Convex));
    assert!(Affine.lt(&Convex) && !Convex.lt(&Convex));
}

#[test]
fn curvature_names_and_flips() {
    assert_eq!(Curvature::Convex.name(), "Convex");
    assert_eq!(Curvature::Valid.name(), "Valid");
    assert_eq!(Curvature::Convex.flip(), Curvature::Concave);
    assert_eq!(Curvature::Affine.flip(), Curvature::Affine);
}

#[test]
fn number_signs_from_bits() {
    assert!(num(0.0).is_zero() && num(-0.0).is_zero());
    assert!(num(1.0).is_one() && num(1.0).is_pos());
    assert!(num(-3.5).is_neg() && !num(-3.5).is_pos());
    assert!(!num(-0.0).is_neg() && !num(0.0).is_pos());
    assert!(num(0.0).same_as(&num(-0.0)));
    assert!(!num(2.0).same_as(&num(3.0)));
    assert!(Num::from_bits(f64::NAN.to_bits()).is_none());
    assert_eq!(Num::from_bits(2.5f64.to_bits()), Some(num(2.5)));
    assert!(Num::from_bits(f64::INFINITY.to_bits()).is_some());
}

fn c1(node: Optimization, k: Curvature) -> Curvature {
    cost(&node, &vec![k], &vec![None])
}

fn c2(node: Optimization, a: Curvature, b: Curvature) -> Curvature {
    cost(&node, &vec![a, b], &vec![None, None])
}

#[test]
fn cost_of_leaves_and_shapes() {
    assert_eq!(cost(&Optimization::Constant(num(3.0)), &vec![], &vec![]), Constant);
    assert_eq!(cost(&Optimization::Symbol("x".to_string()), &vec![], &vec![]), Unknown);
    assert_eq!(c1(Optimization::Var(0), Unknown), Affine);
    assert_eq!(c1(Optimization::Param(0), Unknown), Constant);
    assert_eq!(c1(Optimization::ObjFun(0), Convex), Convex);
    assert_eq!(c2(Optimization::Prob(0, 1), Affine, Valid), Affine);
    assert_eq!(c2(Optimization::Prob(0, 1), Affine, Unknown), Unknown);
    let cons = Optimization::Constraints(vec![1, 2, 3]);
    assert_eq!(cost(&cons, &vec![Valid, Valid, Valid], &vec![None, None, None]), Valid);
    assert_eq!(cost(&cons, &vec![Valid, Convex, Valid], &vec![None, None, None]), Unknown);
    assert_eq!(cost(&Optimization::Constraints(vec![]), &vec![], &vec![]), Valid);
}

#[test]
fn cost_of_propositions() {
    assert_eq!(c2(Optimization::Le(0, 1), Constant, Affine), Valid);
    assert_eq!(c2(Optimization::Le(0, 1), Constant, Convex), Unknown);
    assert_eq!(c2(Optimization::Le(0, 1), Convex, Concave), Valid);
    assert_eq!(c2(Optimization::Le(0, 1), Convex, Convex), Unknown);
    assert_eq!(c2(Optimization::Le(0, 1), Concave, Concave), Unknown);
    assert_eq!(c2(Optimization::Eq(0, 1), Affine, Constant), Valid);
    assert_eq!(c2(Optimization::NEq(0, 1), Affine, Convex), Unknown);
}

#[test]
fn cost_of_scalar_operations() {
    assert_eq!(c1(Optimization::Neg(0), Convex), Concave);
    assert_eq!(c1(Optimization::Neg(0), Valid), Unknown);
    assert_eq!(c1(Optimization::Sqrt(0), Affine), Concave);
    assert_eq!(c1(Optimization::Sqrt(0), Constant), Concave);
    assert_eq!(c1(Optimization::Sqrt(0), Convex), Unknown);
    assert_eq!(c1(Optimization::Log(0), Concave), Concave);
    assert_eq!(c1(Optimization::Log(0), Constant), Constant);
    assert_eq!(c1(Optimization::Log(0), Convex), Unknown);
    assert_eq!(c1(Optimization::Exp(0), Convex), Convex);
    assert_eq!(c1(Optimization::Exp(0), Concave), Unknown);
    assert_eq!(c2(Optimization::Add(0, 1), Convex, Affine), Convex);
    assert_eq!(c2(Optimization::Add(0, 1), Convex, Concave), Unknown);
    assert_eq!(c2(Optimization::Add(0, 1), Constant, Concave), Concave);
    assert_eq!(c2(Optimization::Add(0, 1), Constant, Constant), Constant);
    assert_eq!(c2(Optimization::Add(0, 1), Affine, Constant), Affine);
    assert_eq!(c2(Optimization::Sub(0, 1), Convex, Concave), Convex);
    assert_eq!(c2(Optimization::Sub(0, 1), Affine, Convex), Concave);
    assert_eq!(c2(Optimization::Sub(0, 1), Convex, Convex), Unknown);
    assert_eq!(c2(Optimization::Pow(0, 1), Constant, Constant), Unknown);
    assert_eq!(c2(Optimization::MatVecMul(0, 1), Constant, Convex), Convex);
    assert_eq!(c2(Optimization::MatVecMul(0, 1), Affine, Affine), Unknown);
}

#[test]
fn cost_of_products_and_quotients() {
    let mul = Optimization::Mul(0, 1);
    let div = Optimization::Div(0, 1);
    assert_eq!(cost(&mul, &vec![Constant, Convex], &vec![Some(num(-2.0)), None]), Concave);
    assert_eq!(cost(&mul, &vec![Convex, Constant], &vec![None, Some(num(2.0))]), Convex);
    assert_eq!(cost(&mul, &vec![Constant, Convex], &vec![Some(num(0.0)), None]), Constant);
    assert_eq!(cost(&mul, &vec![Constant, Valid], &vec![Some(num(2.0)), None]), Valid);
    assert_eq!(cost(&mul, &vec![Constant, Constant], &vec![Some(num(2.0)), None]), Constant);
    assert_eq!(cost(&mul, &vec![Unknown, Constant], &vec![None, Some(num(-2.0))]), Unknown);
    assert_eq!(cost(&div, &vec![Constant, Constant], &vec![None, Some(num(2.0))]), Constant);
    assert_eq!(cost(&div, &vec![Convex, Constant], &vec![None, Some(num(-2.0))]), Concave);
    assert_eq!(cost(&mul, &vec![Affine, Affine], &vec![None, None]), Unknown);
    assert_eq!(cost(&mul, &vec![Constant, Constant], &vec![Some(num(1.0)), Some(num(2.0))]), Constant);
    assert_eq!(cost(&div, &vec![Concave, Constant], &vec![None, Some(num(-4.0))]), Convex);
    assert_eq!(cost(&div, &vec![Affine, Constant], &vec![None, Some(num(0.0))]), Unknown);
    assert_eq!(cost(&div, &vec![Constant, Affine], &vec![Some(num(1.0)), None]), Unknown);
}

#[test]
fn make_collects_variables_and_flags() {
    let sym = Optimization::Symbol("x".to_string());
    let v = Meta::make(&Optimization::Var(4), &vec![data(&[], None)], Some(&sym), None);
    assert_eq!(v.free_vars, vec![(4, "x".to_string())]);
    let no_sym = Meta::make(&Optimization::Var(4), &vec![data(&[], None)], Some(&Optimization::Constant(num(1.0))), None);
    assert!(no_sym.free_vars.is_empty());
    let p = Meta::make(&Optimization::Param(4), &vec![data(&[(4, "x")], None)], Some(&sym), None);
    assert!(p.free_vars.is_empty());
    let kids = vec![data(&[(1, "x"), (2, "y")], None), data(&[(2, "y"), (3, "z")], None)];
    let sum = Meta::make(&Optimization::Add(0, 1), &kids, None, None);
    assert_eq!(sum.free_vars.len(), 3);
    assert!(sum.constant.is_none());
    let log = Meta::make(&Optimization::Log(0), &vec![sum.clone()], None, None);
    assert!(log.has_log && !log.has_exp);
    let exp = Meta::make(&Optimization::Exp(0), &vec![log.clone()], None, None);
    assert!(exp.has_log && exp.has_exp);
    assert!(is_exp(&Optimization::Exp(0)) && !is_exp(&Optimization::Log(0)));
}

#[test]
fn make_folds_constants() {
    let lit = Meta::make(&Optimization::Constant(num(3.0)), &vec![], None, None);
    assert_eq!(lit.constant, Some((num(3.0), Fold::Lit(num(3.0)))));
    let kids = vec![data(&[], Some(3.0)), data(&[], Some(4.0))];
    let w = fold_of(&Optimization::Mul(0, 1), &kids);
    assert_eq!(w, Some(Fold::Binary(FoldOp::Mul, num(3.0), num(4.0))));
    let m = Meta::make(&Optimization::Mul(0, 1), &kids, None, Some(num(12.0)));
    assert_eq!(m.constant, Some((num(12.0), Fold::Binary(FoldOp::Mul, num(3.0), num(4.0)))));
    assert_eq!(fold_of(&Optimization::Pow(0, 1), &kids), None);
    let nan = Meta::make(&Optimization::Sqrt(0), &vec![data(&[], Some(-4.0))], None, None);
    assert!(nan.constant.is_none());
    let half = vec![data(&[], Some(3.0)), data(&[(1, "x")], None)];
    assert_eq!(fold_of(&Optimization::Add(0, 1), &half), None);
    assert_eq!(
        fold_of(&Optimization::Neg(0), &vec![data(&[], Some(2.0))]),
        Some(Fold::Unary(FoldOp::Neg, num(2.0)))
    );
}

#[test]
fn merge_intersects_and_reports_changes() {
    let mut to = data(&[(1, "x"), (2, "y")], None);
    let from = data(&[(2, "y")], Some(5.0));
    let d = Meta.merge(&mut to, from).unwrap();
    assert_eq!(d, DidMerge(true, false));
    assert_eq!(to.free_vars, vec![(2, "y".to_string())]);
    assert_eq!(to.constant.map(|c| c.0), Some(num(5.0)));
    let mut same = data(&[(2, "y")], Some(5.0));
    assert_eq!(Meta.merge(&mut same, data(&[(2, "y")], Some(5.0))), Some(DidMerge(false, false)));
    let mut wider = data(&[(2, "y")], None);
    let mut other = data(&[(2, "y"), (3, "z")], None);
    other.has_log = true;
    assert_eq!(Meta.merge(&mut wider, other), Some(DidMerge(true, true)));
    assert!(wider.has_log);
}

#[test]
fn merge_reports_a_different_witness_or_zero_sign() {
    let folded = |w: Fold| Data { free_vars: vec![], constant: Some((num(6.0), w)), has_log: false, has_exp: false };
    let mut to = folded(Fold::Binary(FoldOp::Mul, num(2.0), num(3.0)));
    let from = folded(Fold::Binary(FoldOp::Add, num(3.0), num(3.0)));
    assert_eq!(Meta.merge(&mut to, from), Some(DidMerge(false, true)));
    assert_eq!(to.constant.map(|c| c.1), Some(Fold::Binary(FoldOp::Mul, num(2.0), num(3.0))));
    let mut pos = data(&[], Some(0.0));
    assert_eq!(Meta.merge(&mut pos, data(&[], Some(-0.0))), Some(DidMerge(false, true)));
    assert_eq!(pos.constant.map(|c| c.0), Some(num(0.0)));
}

#[test]
fn merge_refuses_conflicting_constants() {
    let mut to = data(&[], Some(1.0));
    assert_eq!(Meta.merge(&mut to, data(&[], Some(2.0))), None);
    assert_eq!(to.constant.map(|c| c.0), Some(num(1.0)));
    let mut zero = data(&[], Some(0.0));
    assert!(Meta.merge(&mut zero, data(&[], Some(-0.0))).is_some());
}

#[test]
fn guards_are_optimistic() {
    let unknown = data(&[(1, "x")], None);
    assert!(is_not_zero(&unknown) && is_not_one(&unknown) && is_gt_zero(&unknown));
    assert!(!is_not_zero(&data(&[], Some(0.0))));
    assert!(!is_not_one(&data(&[], Some(1.0))));
    assert!(is_not_one(&data(&[], Some(2.0))));
    assert!(!is_gt_zero(&data(&[], Some(-1.0))));
    assert!(is_gt_zero(&data(&[], Some(0.5))));
    let mut logged = data(&[], None);
    assert!(not_has_log(&logged));
    logged.has_log = true;
    assert!(!not_has_log(&logged));
}

#[test]
fn rule_set_lists_guarded_rewrites() {
    let rs = rules();
    assert_eq!(rs.len(), 40);
    assert_eq!(rs[0].name, "eq-add");
    assert_eq!(rs[0].lhs, "(eq ?a (add ?b ?c))");
    let log_mul = rs.iter().find(|r| r.name == "log-mul").unwrap();
    assert_eq!(log_mul.guards.len(), 2);
    assert!(log_mul.guards.iter().all(|g| g.kind == GuardKind::GtZero));
    let map = rs.iter().find(|r| r.name == "map-objFun-log").unwrap();
    assert_eq!(map.rhs, "(objFun (log ?a))");
    assert!(map.guards.iter().any(|g| g.kind == GuardKind::NotHasLog && g.var == "?a"));
    let one = rs.iter().find(|r| r.name == "le-div-one").unwrap();
    assert!(one.guards[1].holds(&data(&[], Some(2.0))));
    assert!(!one.guards[1].holds(&data(&[], Some(1.0))));
}

fn leaf() -> FlatTerm {
    FlatTerm { backward_rule: None, forward_rule: None, children: vec![] }
}

#[test]
fn rewrite_annotation_is_found_in_children() {
    assert!(get_rewrite_name_and_direction(&leaf()).is_none());
    let own = FlatTerm { backward_rule: Some("b".to_string()), forward_rule: Some("f".to_string()), children: vec![] };
    assert_eq!(get_rewrite_name_and_direction(&own), Some(("b".to_string(), Direction::Backward)));
    let inner = FlatTerm { backward_rule: None, forward_rule: Some("le-log".to_string()), children: vec![] };
    let nested = FlatTerm { backward_rule: None, forward_rule: None, children: vec![leaf(), inner] };
    assert_eq!(get_rewrite_name_and_direction(&nested), Some(("le-log".to_string(), Direction::Forward)));
}

#[test]
fn steps_come_from_annotated_intermediates() {
    let flat = vec![
        FlatStep { term: leaf(), text: "(le 1 (exp (var x)))".to_string() },
        FlatStep {
            term: FlatTerm { backward_rule: None, forward_rule: Some("le-log".to_string()), children: vec![] },
            text: "(le (log 1) (log (exp (var x))))".to_string(),
        },
    ];
    let steps = steps_from_explanation(Curvature::Affine, &flat).unwrap();
    assert_eq!(steps.len(), 1);
    assert_eq!(steps[0].rewrite_name, "le-log");
    assert_eq!(steps[0].direction, Direction::Forward);
    assert_eq!(steps[0].expected_term, "(le (log 1) (log (exp (var x))))");
    assert!(steps_from_explanation(Curvature::Valid, &flat).is_some());
    assert!(steps_from_explanation(Curvature::Concave, &flat).is_none());
    assert!(steps_from_explanation(Curvature::Unknown, &flat).is_none());
    let check = convexify_check_expression("(le 1 (exp (var x)))");
    assert_eq!(check.finish(Curvature::Unknown, &flat).unwrap_err(), ConvexifyError::NoDcpForm);
    assert_eq!(check.finish(Curvature::Convex, &flat).unwrap().len(), 1);
}

#[test]
fn problems_are_assembled_into_one_term() {
    let m = convexify::driver::make("(var x)", vec!["(le 1 (exp (var x)))", "(le 0 (var x))"]);
    assert_eq!(m.constrs[0].0, "h0");
    assert_eq!(m.constrs[1].0, "h1");
    assert_eq!(
        problem_text(&m),
        "(prob (objFun (var x)) (constraints (le 1 (exp (var x))) (le 0 (var x))))"
    );
    let many: Vec<&str> = vec!["(le 0 (var x))"; 12];
    assert_eq!(convexify::driver::make("(var x)", many).constrs[11].0, "h11");
    let c = convexify_check("(var x)", vec!["(le 1 (exp (var x)))"]);
    assert_eq!(c.target, "(prob (objFun (var x)) (constraints (le 1 (exp (var x)))))");
    assert!(!c.print);
    assert!(convexify_check_and_print("(var x)", vec![]).print);
    assert_eq!(convexify_check("(var x)", vec![]).target, "(prob (objFun (var x)) (constraints))");
    assert_eq!(convexify_check_expression_and_print("(exp (var x))").target, "(exp (var x))");
}

#[test]
fn binder_variable_comes_from_symbol_head() {
    assert_eq!(get_free_vars_data(3, &Optimization::Symbol("x".to_string())), Some((3, "x".to_string())));
    assert_eq!(get_free_vars_data(3, &Optimization::Var(1)), None);
}
