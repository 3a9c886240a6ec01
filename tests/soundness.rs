use convexify::rules::rules;
use egg::{Id, RecExpr, SymbolLang};

#[derive(Debug, Clone, Copy)]
enum Value {
    Real(f64),
    Truth(bool),
}

fn close(x: f64, y: f64) -> bool {
    (x - y).abs() <= 1e-9 * (1.0 + x.abs().max(y.abs()))
}

fn eval(e: &RecExpr<SymbolLang>, id: Id, env: &[f64; 3]) -> Value {
    let n = &e[id];
    let r = |i: usize| match eval(e, n.children[i], env) {
        Value::Real(x) => x,
        Value::Truth(_) => panic!("proposition used as a number"),
    };
    match n.op.as_str() {
        "a" => Value::Real(env[0]),
        "b" => Value::Real(env[1]),
        "c" => Value::Real(env[2]),
        "eq" => Value::Truth(close(r(0), r(1))),
        "le" => Value::Truth(r(0) <= r(1) || close(r(0), r(1))),
        "neg" => Value::Real(-r(0)),
        "sqrt" => Value::Real(r(0).sqrt()),
        "log" => Value::Real(r(0).ln()),
        "exp" => Value::Real(r(0).exp()),
        "add" => Value::Real(r(0) + r(1)),
        "sub" => Value::Real(r(0) - r(1)),
        "mul" => Value::Real(r(0) * r(1)),
        "div" => Value::Real(r(0) / r(1)),
        "pow" => Value::Real(r(0).powf(r(1))),
        s => Value::Real(s.parse::<f64>().unwrap()),
    }
}

fn parse(pattern: &str) -> RecExpr<SymbolLang> {
    pattern.replace('?', "").parse().unwrap()
}

fn root(e: &RecExpr<SymbolLang>) -> Id {
    Id::from(e.as_ref().len() - 1)
}

#[test]
fn every_rule_preserves_value_on_positive_reals() {
    let mut seed: u64 = 0x2545_f491_4f6c_dd1d;
    let mut next = move || {
        seed ^= seed << 13;
        seed ^= seed >> 7;
        seed ^= seed << 17;
        0.1 + 2.9 * ((seed >> 11) as f64 / (1u64 << 53) as f64)
    };
    let mut checked = 0;
    for rule in rules() {
        if rule.name == "map-objFun-log" {
            continue;
        }
        let lhs = parse(rule.lhs);
        let rhs = parse(rule.rhs);
        for _ in 0..300 {
            let mut env = [next(), next(), next()];
            // Half of the equations are drawn so that they hold.
            if rule.lhs.starts_with("(eq ?a") && checked % 2 == 0 {
                if let Value::Real(v) = eval(&lhs, lhs[root(&lhs)].children[1], &env) {
                    env[0] = v;
                }
            }
            match (eval(&lhs, root(&lhs), &env), eval(&rhs, root(&rhs), &env)) {
                (Value::Real(x), Value::Real(y)) => assert!(close(x, y), "{}: {} vs {}", rule.name, x, y),
                (Value::Truth(x), Value::Truth(y)) => assert_eq!(x, y, "{} at {:?}", rule.name, env),
                _ => panic!("{} changes the sort of its term", rule.name),
            }
            checked += 1;
        }
    }
    assert!(checked > 10000);
}
