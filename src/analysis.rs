use vstd::prelude::*;
use crate::num::Num;
use crate::term::Optimization;

verus! {

/// An operation that constant folding evaluates.
#[derive(Debug, Clone, Copy, PartialEq, Eq, Structural)]
pub enum FoldOp {
    Neg,
    Sqrt,
    Log,
    Exp,
    Add,
    Sub,
    Mul,
    Div,
}

/// The syntactic witness of a folded constant: a literal, or one operation
/// applied to folded operands.
#[derive(Debug, Clone, Copy, PartialEq, Eq, Structural)]
pub enum Fold {
    Lit(Num),
    Unary(FoldOp, Num),
    Binary(FoldOp, Num, Num),
}

/// The analysis data of one equivalence class.
#[derive(Debug, Clone)]
pub struct Data {
    /// Pairs (class of the binding symbol, symbol name), without repeats.
    pub free_vars: Vec<(usize, String)>,
    /// The folded value and its witness.
    pub constant: Option<(Num, Fold)>,
    pub has_log: bool,
    pub has_exp: bool,
}

pub open spec fn var_view(p: (usize, String)) -> (usize, Seq<char>) {
    (p.0, p.1@)
}

/// The set of free variables that a list holds.
pub open spec fn var_set(v: Seq<(usize, String)>) -> Set<(usize, Seq<char>)> {
    Set::new(|q: (usize, Seq<char>)| exists|i: int| 0 <= i < v.len() && #[trigger] var_view(v[i]) == q)
}

pub open spec fn distinct_vars(v: Seq<(usize, String)>) -> bool {
    forall|i: int, j: int|
        0 <= i < j < v.len() ==> #[trigger] var_view(v[i]) != #[trigger] var_view(v[j])
}

impl Data {
    /// The free variables as a set.
    pub open spec fn vars(&self) -> Set<(usize, Seq<char>)> {
        var_set(self.free_vars@)
    }

    pub open spec fn wf(&self) -> bool {
        &&& distinct_vars(self.free_vars@)
        &&& self.constant matches Some(c) ==> c.0.wf()
    }
}

fn contains_var(v: &Vec<(usize, String)>, p: &(usize, String)) -> (r: bool)
    ensures
        r == var_set(v@).contains(var_view(*p)),
{
    let mut i: usize = 0;
    while i < v.len()
        invariant
            0 <= i <= v.len(),
            forall|j: int| 0 <= j < i ==> var_view(#[trigger] v@[j]) != var_view(*p),
        decreases v.len() - i,
    {
        if v[i].0 == p.0 && v[i].1 == p.1 {
            assert(var_view(v@[i as int]) == var_view(*p));
            return true;
        }
        i = i + 1;
    }
    false
}

/// Appending a pair adds its view to the set.
proof fn lemma_var_set_push(s: Seq<(usize, String)>, p: (usize, String))
    ensures
        var_set(s.push(p)) == var_set(s).insert(var_view(p)),
{
    let t = s.push(p);
    assert(var_view(t[s.len() as int]) == var_view(p));
    assert forall|q: (usize, Seq<char>)| var_set(t).contains(q) implies var_set(s).insert(var_view(p)).contains(q) by {
        let i = choose|i: int| 0 <= i < t.len() && #[trigger] var_view(t[i]) == q;
        if i < s.len() {
            assert(var_view(s[i]) == q);
        }
    }
    assert forall|q: (usize, Seq<char>)| var_set(s).insert(var_view(p)).contains(q) implies var_set(t).contains(q) by {
        if q != var_view(p) {
            let i = choose|i: int| 0 <= i < s.len() && #[trigger] var_view(s[i]) == q;
            assert(var_view(t[i]) == q);
        }
    }
    assert(var_set(t) =~= var_set(s).insert(var_view(p)));
}

/// Extending a prefix by one element adds that element's view to the set.
proof fn lemma_var_set_prefix(s: Seq<(usize, String)>, i: int)
    requires
        0 <= i < s.len(),
    ensures
        var_set(s.subrange(0, i + 1)) == var_set(s.subrange(0, i)).insert(var_view(s[i])),
{
    assert(s.subrange(0, i + 1) =~= s.subrange(0, i).push(s[i]));
    lemma_var_set_push(s.subrange(0, i), s[i]);
}

fn insert_var(v: &mut Vec<(usize, String)>, p: (usize, String))
    requires
        distinct_vars(old(v)@),
    ensures
        distinct_vars(final(v)@),
        var_set(final(v)@) == var_set(old(v)@).insert(var_view(p)),
{
    if !contains_var(v, &p) {
        v.push(p);
        proof {
            lemma_var_set_push(old(v)@, p);
        }
    } else {
        assert(var_set(v@) =~= var_set(old(v)@).insert(var_view(p)));
    }
}

fn extend_vars(v: &mut Vec<(usize, String)>, src: &Vec<(usize, String)>)
    requires
        distinct_vars(old(v)@),
    ensures
        distinct_vars(final(v)@),
        var_set(final(v)@) == var_set(old(v)@).union(var_set(src@)),
{
    let mut i: usize = 0;
    while i < src.len()
        invariant
            0 <= i <= src.len(),
            distinct_vars(v@),
            var_set(v@) == var_set(old(v)@).union(var_set(src@.subrange(0, i as int))),
        decreases src.len() - i,
    {
        let p: (usize, String) = (src[i].0, src[i].1.clone());
        insert_var(v, p);
        proof {
            lemma_var_set_prefix(src@, i as int);
        }
        assert(var_set(v@) =~= var_set(old(v)@).union(var_set(src@.subrange(0, i + 1))));
        i = i + 1;
    }
    assert(src@.subrange(0, src@.len() as int) =~= src@);
}

fn vars_subset(a: &Vec<(usize, String)>, b: &Vec<(usize, String)>) -> (r: bool)
    ensures
        r == var_set(a@).subset_of(var_set(b@)),
{
    let mut i: usize = 0;
    while i < a.len()
        invariant
            0 <= i <= a.len(),
            forall|j: int| 0 <= j < i ==> var_set(b@).contains(#[trigger] var_view(a@[j])),
        decreases a.len() - i,
    {
        if !contains_var(b, &a[i]) {
            assert(var_set(a@).contains(var_view(a@[i as int])));
            return false;
        }
        i = i + 1;
    }
    assert forall|q: (usize, Seq<char>)| var_set(a@).contains(q) implies var_set(b@).contains(q) by {
        let j = choose|j: int| 0 <= j < a@.len() && #[trigger] var_view(a@[j]) == q;
    }
    true
}

fn intersect_vars(a: &Vec<(usize, String)>, b: &Vec<(usize, String)>) -> (r: Vec<(usize, String)>)
    ensures
        distinct_vars(r@),
        var_set(r@) == var_set(a@).intersect(var_set(b@)),
{
    let mut r: Vec<(usize, String)> = Vec::new();
    let mut i: usize = 0;
    assert(var_set(r@) =~= var_set(a@.subrange(0, 0)).intersect(var_set(b@)));
    while i < a.len()
        invariant
            0 <= i <= a.len(),
            distinct_vars(r@),
            var_set(r@) == var_set(a@.subrange(0, i as int)).intersect(var_set(b@)),
        decreases a.len() - i,
    {
        proof {
            lemma_var_set_prefix(a@, i as int);
        }
        if contains_var(b, &a[i]) {
            let p: (usize, String) = (a[i].0, a[i].1.clone());
            insert_var(&mut r, p);
        }
        assert(var_set(r@) =~= var_set(a@.subrange(0, i + 1)).intersect(var_set(b@)));
        i = i + 1;
    }
    assert(a@.subrange(0, a@.len() as int) =~= a@);
    r
}

/// The free variable that a binder contributes: the child class together with
/// the symbol of its first node, when that node is a symbol.
pub fn get_free_vars_data(a: usize, first: &Optimization) -> (r: Option<(usize, String)>)
    ensures
        r == (match *first {
            Optimization::Symbol(s) => Some((a, s)),
            _ => None,
        }),
{
    match first {
        Optimization::Symbol(s) => Some((a, s.clone())),
        _ => None,
    }
}

/// The variables free in some subterm among the first `n`.
pub open spec fn kids_vars(kids: Seq<Data>, n: int) -> Set<(usize, Seq<char>)> {
    Set::new(|q: (usize, Seq<char>)| exists|i: int| 0 <= i < n && (#[trigger] kids[i]).vars().contains(q))
}

/// The free variables of a new node: a binder's own variable, nothing for a
/// parameter, otherwise those of its subterms.
pub open spec fn make_vars_spec(n: Optimization, kids: Seq<Data>, head: Option<&Optimization>) -> Set<(usize, Seq<char>)> {
    if n.is_binder() {
        match head {
            Some(h) => match *h {
                Optimization::Symbol(s) => set![(n.children_spec()[0], s@)],
                _ => Set::empty(),
            },
            _ => Set::empty(),
        }
    } else if n is Param {
        Set::empty()
    } else {
        kids_vars(kids, kids.len() as int)
    }
}

pub open spec fn any_log(kids: Seq<Data>) -> bool {
    exists|i: int| 0 <= i < kids.len() && (#[trigger] kids[i]).has_log
}

pub open spec fn any_exp(kids: Seq<Data>) -> bool {
    exists|i: int| 0 <= i < kids.len() && (#[trigger] kids[i]).has_exp
}

pub open spec fn unary_fold(op: FoldOp, k: Data) -> Option<Fold> {
    match k.constant {
        Some(c) => Some(Fold::Unary(op, c.0)),
        None => None,
    }
}

pub open spec fn binary_fold(op: FoldOp, k1: Data, k2: Data) -> Option<Fold> {
    match (k1.constant, k2.constant) {
        (Some(c1), Some(c2)) => Some(Fold::Binary(op, c1.0, c2.0)),
        _ => None,
    }
}

/// What a new node folds to: a literal folds to itself; `neg`, `sqrt`, `log`
/// and `exp` of a folded subterm, and `add`, `sub`, `mul` and `div` of two
/// folded subterms, fold to that operation. Nothing else folds (`pow` neither).
pub open spec fn fold_spec(n: Optimization, kids: Seq<Data>) -> Option<Fold> {
    match n {
        Optimization::Constant(f) => Some(Fold::Lit(f)),
        Optimization::Neg(_) => unary_fold(FoldOp::Neg, kids[0]),
        Optimization::Sqrt(_) => unary_fold(FoldOp::Sqrt, kids[0]),
        Optimization::Log(_) => unary_fold(FoldOp::Log, kids[0]),
        Optimization::Exp(_) => unary_fold(FoldOp::Exp, kids[0]),
        Optimization::Add(_, _) => binary_fold(FoldOp::Add, kids[0], kids[1]),
        Optimization::Sub(_, _) => binary_fold(FoldOp::Sub, kids[0], kids[1]),
        Optimization::Mul(_, _) => binary_fold(FoldOp::Mul, kids[0], kids[1]),
        Optimization::Div(_, _) => binary_fold(FoldOp::Div, kids[0], kids[1]),
        _ => None,
    }
}

/// The folded constant of a new node: a literal's own value, otherwise
/// `value`, which the caller has evaluated from the witness; `None` when that
/// evaluation gave no number (a NaN).
pub open spec fn make_constant_spec(n: Optimization, kids: Seq<Data>, value: Option<Num>) -> Option<(Num, Fold)> {
    match fold_spec(n, kids) {
        None => None,
        Some(Fold::Lit(f)) => Some((f, Fold::Lit(f))),
        Some(w) => match value {
            Some(v) => Some((v, w)),
            None => None,
        },
    }
}

fn unary_fold_of(op: FoldOp, k: &Data) -> (r: Option<Fold>)
    ensures
        r == unary_fold(op, *k),
{
    match &k.constant {
        Some(c) => Some(Fold::Unary(op, c.0)),
        None => None,
    }
}

fn binary_fold_of(op: FoldOp, k1: &Data, k2: &Data) -> (r: Option<Fold>)
    ensures
        r == binary_fold(op, *k1, *k2),
{
    match (&k1.constant, &k2.constant) {
        (Some(c1), Some(c2)) => Some(Fold::Binary(op, c1.0, c2.0)),
        _ => None,
    }
}

/// The witness that a new node folds to, if it folds; the caller evaluates a
/// witness other than a literal and hands the value to `make`.
pub fn fold_of(enode: &Optimization, kids: &Vec<Data>) -> (r: Option<Fold>)
    requires
        kids.len() == enode.children_spec().len(),
    ensures
        r == fold_spec(*enode, kids@),
{
    match enode {
        Optimization::Constant(f) => Some(Fold::Lit(*f)),
        Optimization::Neg(_) => unary_fold_of(FoldOp::Neg, &kids[0]),
        Optimization::Sqrt(_) => unary_fold_of(FoldOp::Sqrt, &kids[0]),
        Optimization::Log(_) => unary_fold_of(FoldOp::Log, &kids[0]),
        Optimization::Exp(_) => unary_fold_of(FoldOp::Exp, &kids[0]),
        Optimization::Add(_, _) => binary_fold_of(FoldOp::Add, &kids[0], &kids[1]),
        Optimization::Sub(_, _) => binary_fold_of(FoldOp::Sub, &kids[0], &kids[1]),
        Optimization::Mul(_, _) => binary_fold_of(FoldOp::Mul, &kids[0], &kids[1]),
        Optimization::Div(_, _) => binary_fold_of(FoldOp::Div, &kids[0], &kids[1]),
        _ => None,
    }
}

fn union_kids_vars(kids: &Vec<Data>) -> (r: Vec<(usize, String)>)
    requires
        forall|i: int| 0 <= i < kids.len() ==> (#[trigger] kids@[i]).wf(),
    ensures
        distinct_vars(r@),
        var_set(r@) == kids_vars(kids@, kids.len() as int),
{
    let mut r: Vec<(usize, String)> = Vec::new();
    let mut i: usize = 0;
    assert(var_set(r@) =~= kids_vars(kids@, 0));
    while i < kids.len()
        invariant
            0 <= i <= kids.len(),
            distinct_vars(r@),
            var_set(r@) == kids_vars(kids@, i as int),
        decreases kids.len() - i,
    {
        extend_vars(&mut r, &kids[i].free_vars);
        assert(var_set(r@) =~= kids_vars(kids@, i + 1)) by {
            assert forall|q: (usize, Seq<char>)| kids_vars(kids@, i + 1).contains(q) implies var_set(r@).contains(q) by {
                let j = choose|j: int| 0 <= j < i + 1 && (#[trigger] kids@[j]).vars().contains(q);
                if j < i {
                    assert(kids_vars(kids@, i as int).contains(q));
                }
            }
            assert forall|q: (usize, Seq<char>)| var_set(r@).contains(q) implies kids_vars(kids@, i + 1).contains(q) by {
                if kids_vars(kids@, i as int).contains(q) {
                    let j = choose|j: int| 0 <= j < i && (#[trigger] kids@[j]).vars().contains(q);
                    assert(kids@[j].vars().contains(q));
                } else {
                    assert(kids@[i as int].vars().contains(q));
                }
            }
        }
        i = i + 1;
    }
    r
}

fn kids_flags(kids: &Vec<Data>) -> (r: (bool, bool))
    ensures
        r.0 == any_log(kids@),
        r.1 == any_exp(kids@),
{
    let mut log = false;
    let mut exp = false;
    let mut i: usize = 0;
    while i < kids.len()
        invariant
            0 <= i <= kids.len(),
            log == exists|j: int| 0 <= j < i && (#[trigger] kids@[j]).has_log,
            exp == exists|j: int| 0 <= j < i && (#[trigger] kids@[j]).has_exp,
        decreases kids.len() - i,
    {
        log = log || kids[i].has_log;
        exp = exp || kids[i].has_exp;
        i = i + 1;
    }
    (log, exp)
}

fn same_constant(a: &Option<(Num, Fold)>, b: &Option<(Num, Fold)>) -> (r: bool)
    ensures
        r == (*a == *b),
{
    match (a, b) {
        (Some(x), Some(y)) => x.0 == y.0 && x.1 == y.1,
        (None, None) => true,
        _ => false,
    }
}

/// The outcome of a merge that found no conflict: whether the surviving data
/// changed, and whether it differs from the data merged into it.
#[derive(Debug, Clone, Copy, PartialEq, Eq, Structural)]
pub struct DidMerge(pub bool, pub bool);

/// Two classes whose folded constants disagree cannot be merged.
pub open spec fn conflicts(a: Data, b: Data) -> bool {
    match (a.constant, b.constant) {
        (Some(x), Some(y)) => !x.0.same_value(y.0),
        _ => false,
    }
}

/// `r` is the merge of `from` into `to`: the free variables of both, either
/// flag of either, and the constant of whichever side has one.
pub open spec fn merged(to: Data, from: Data, r: Data) -> bool {
    &&& r.vars() == to.vars().intersect(from.vars())
    &&& r.has_log == (to.has_log || from.has_log)
    &&& r.has_exp == (to.has_exp || from.has_exp)
    &&& r.constant == (if to.constant is Some { to.constant } else { from.constant })
}

/// `after` is what a merge of `from` into `before` leaves: `before` itself
/// where the constants conflict, the merged data otherwise.
pub open spec fn merge_step(before: Data, from: Data, after: Data) -> bool {
    if conflicts(before, from) { after == before } else { merged(before, from, after) }
}

/// `after` knows at least what `before` knew: no more free variables, no flag
/// lowered, and a defined constant kept as it was.
pub open spec fn refines(before: Data, after: Data) -> bool {
    &&& after.vars().subset_of(before.vars())
    &&& before.has_log ==> after.has_log
    &&& before.has_exp ==> after.has_exp
    &&& before.constant is Some ==> after.constant == before.constant
}

/// The analysis that the e-graph keeps per class: free variables, folded
/// constant, and whether a `log` or an `exp` occurs.
#[derive(Debug, Clone, Copy, PartialEq, Eq, Structural)]
pub struct Meta;

impl Meta {
    /// The analysis data of a new node. `kids[i]` is the data of its `i`-th
    /// subterm's class; `head` is the first node of a binder's child class; and
    /// `value` is the evaluation of `fold_of(enode, kids)` where that is an
    /// operation rather than a literal, `None` where it is not a number.
    pub fn make(enode: &Optimization, kids: &Vec<Data>, head: Option<&Optimization>, value: Option<Num>) -> (r: Data)
        requires
            kids.len() == enode.children_spec().len(),
            forall|i: int| 0 <= i < kids.len() ==> (#[trigger] kids@[i]).wf(),
            value matches Some(v) ==> v.wf(),
            *enode matches Optimization::Constant(f) ==> f.wf(),
        ensures
            r.wf(),
            r.vars() == make_vars_spec(*enode, kids@, head),
            r.constant == make_constant_spec(*enode, kids@, value),
            r.has_log == (*enode is Log || any_log(kids@)),
            r.has_exp == (*enode is Exp || any_exp(kids@)),
    {
        let free_vars = match enode {
            Optimization::Var(a) | Optimization::VecVar(a) | Optimization::MatVar(a) => {
                let mut v: Vec<(usize, String)> = Vec::new();
                if let Some(h) = head {
                    if let Some(d) = get_free_vars_data(*a, h) {
                        v.push(d);
                        assert(var_set(v@) =~= set![var_view(v@[0])]) by {
                            assert forall|q: (usize, Seq<char>)| var_set(v@).contains(q) implies q == var_view(v@[0]) by {
                                let j = choose|j: int| 0 <= j < v@.len() && #[trigger] var_view(v@[j]) == q;
                            }
                            assert(var_view(v@[0]) == var_view(v@[0]));
                        }
                    }
                }
                assert(var_set(v@) =~= make_vars_spec(*enode, kids@, head));
                v
            },
            Optimization::Param(_) => {
                let v: Vec<(usize, String)> = Vec::new();
                assert(var_set(v@) =~= Set::empty());
                v
            },
            _ => union_kids_vars(kids),
        };
        let constant = match fold_of(enode, kids) {
            None => None,
            Some(Fold::Lit(f)) => Some((f, Fold::Lit(f))),
            Some(w) => match value {
                Some(v) => Some((v, w)),
                None => None,
            },
        };
        let (log, exp) = kids_flags(kids);
        Data {
            free_vars,
            constant,
            has_log: log || matches!(enode, Optimization::Log(_)),
            has_exp: exp || matches!(enode, Optimization::Exp(_)),
        }
    }

    /// Merges the data of class `from` into `to`. On conflicting constants nothing
    /// changes and `None` comes back.
    pub fn merge(&mut self, to: &mut Data, from: Data) -> (r: Option<DidMerge>)
        requires
            old(to).wf(),
            from.wf(),
        ensures
            conflicts(*old(to), from) <==> r is None,
            r is None ==> *final(to) == *old(to),
            r is Some ==> final(to).wf() && merged(*old(to), from, *final(to)),
        merge_step(*old(to), from, *final(to)),
        refines(*old(to), *final(to)),
            r matches Some(d) ==> d.0 == (final(to).vars() != old(to).vars()
                || final(to).has_log != old(to).has_log || final(to).has_exp != old(to).has_exp
                || final(to).constant != old(to).constant),
            r matches Some(d) ==> d.1 == (final(to).vars() != from.vars()
                || final(to).has_log != from.has_log || final(to).has_exp != from.has_exp
                || final(to).constant != from.constant),
    {
        if let (Some(a), Some(b)) = (&to.constant, &from.constant) {
            if !a.0.same_as(&b.0) {
                return None;
            }
        }
        let ghost old_vars = to.vars();
        let shrinks = !vars_subset(&to.free_vars, &from.free_vars);
        let grows = !vars_subset(&from.free_vars, &to.free_vars);
        let vars = intersect_vars(&to.free_vars, &from.free_vars);
        let flags_changed = (!to.has_log && from.has_log) || (!to.has_exp && from.has_exp);
        let constant_new = to.constant.is_none() && from.constant.is_some();
        to.free_vars = vars;
        to.has_log = to.has_log || from.has_log;
        to.has_exp = to.has_exp || from.has_exp;
        if constant_new {
            to.constant = from.constant;
        }
        proof {
            if shrinks {
                let p = choose|p: (usize, Seq<char>)| old_vars.contains(p) && !from.vars().contains(p);
                assert(!to.vars().contains(p));
            } else {
                assert(to.vars() =~= old_vars);
            }
            if grows {
                let p = choose|p: (usize, Seq<char>)| from.vars().contains(p) && !old_vars.contains(p);
                assert(!to.vars().contains(p));
            } else {
                assert(to.vars() =~= from.vars());
            }
        }
        let differs = grows || to.has_log != from.has_log || to.has_exp != from.has_exp
            || !same_constant(&to.constant, &from.constant);
        Some(DidMerge(shrinks || flags_changed || constant_new, differs))
    }
}

/// A merge, conflicting or not, only adds knowledge.
pub proof fn lemma_merge_refines(to: Data, from: Data, r: Data)
    requires
        merge_step(to, from, r),
    ensures
        refines(to, r),
{
}

proof fn lemma_refines_trans(a: Data, b: Data, c: Data)
    requires
        refines(a, b),
        refines(b, c),
    ensures
        refines(a, c),
{
}

/// Along any sequence of merges, where `states[i + 1]` is what merging
/// `froms[i]` into `states[i]` leaves (conflicting merges included), the free
/// variables never grow, `has_log` and `has_exp` never fall back to false, and
/// a folded constant once defined never changes.
pub proof fn lemma_monotone_over_merges(states: Seq<Data>, froms: Seq<Data>, i: int, j: int)
    requires
        states.len() == froms.len() + 1,
        forall|k: int| 0 <= k < froms.len() ==> merge_step(states[k], #[trigger] froms[k], states[k + 1]),
        0 <= i <= j < states.len(),
    ensures
        refines(states[i], states[j]),
    decreases j - i,
{
    if i < j {
        lemma_monotone_over_merges(states, froms, i, j - 1);
        lemma_merge_refines(states[j - 1], froms[j - 1], states[j]);
        lemma_refines_trans(states[i], states[j - 1], states[j]);
    }
}

/// The `?v != 0` guard: permits unless `v` is known to be zero.
pub fn is_not_zero(d: &Data) -> (r: bool)
    ensures
        r == (match d.constant {
            Some(c) => !c.0.is_zero_spec(),
            None => true,
        }),
{
    match &d.constant {
        Some(c) => !c.0.is_zero(),
        None => true,
    }
}

/// The `?v != 1` guard: permits unless `v` is known to be one.
pub fn is_not_one(d: &Data) -> (r: bool)
    ensures
        r == (match d.constant {
            Some(c) => !c.0.is_one_spec(),
            None => true,
        }),
{
    match &d.constant {
        Some(c) => !c.0.is_one(),
        None => true,
    }
}

/// The `?v > 0` guard: permits unless `v` is known not to be positive.
pub fn is_gt_zero(d: &Data) -> (r: bool)
    ensures
        r == (match d.constant {
            Some(c) => c.0.is_pos_spec(),
            None => true,
        }),
{
    match &d.constant {
        Some(c) => c.0.is_pos(),
        None => true,
    }
}

/// The guard that `v` contains no `log`.
pub fn not_has_log(d: &Data) -> (r: bool)
    ensures
        r == !d.has_log,
{
    !d.has_log
}

/// Two nodes that apply the same operator (the same literal, for leaves),
/// whatever classes their subterms are in.
pub open spec fn same_operator(n1: Optimization, n2: Optimization) -> bool {
    match (n1, n2) {
        (Optimization::Prob(_, _), Optimization::Prob(_, _)) => true,
        (Optimization::Eq(_, _), Optimization::Eq(_, _)) => true,
        (Optimization::NEq(_, _), Optimization::NEq(_, _)) => true,
        (Optimization::Le(_, _), Optimization::Le(_, _)) => true,
        (Optimization::Add(_, _), Optimization::Add(_, _)) => true,
        (Optimization::Sub(_, _), Optimization::Sub(_, _)) => true,
        (Optimization::Mul(_, _), Optimization::Mul(_, _)) => true,
        (Optimization::Div(_, _), Optimization::Div(_, _)) => true,
        (Optimization::Pow(_, _), Optimization::Pow(_, _)) => true,
        (Optimization::MatVecMul(_, _), Optimization::MatVecMul(_, _)) => true,
        (Optimization::ObjFun(_), Optimization::ObjFun(_)) => true,
        (Optimization::Var(_), Optimization::Var(_)) => true,
        (Optimization::VecVar(_), Optimization::VecVar(_)) => true,
        (Optimization::MatVar(_), Optimization::MatVar(_)) => true,
        (Optimization::Param(_), Optimization::Param(_)) => true,
        (Optimization::Neg(_), Optimization::Neg(_)) => true,
        (Optimization::Sqrt(_), Optimization::Sqrt(_)) => true,
        (Optimization::Log(_), Optimization::Log(_)) => true,
        (Optimization::Exp(_), Optimization::Exp(_)) => true,
        (Optimization::VecSum(_), Optimization::VecSum(_)) => true,
        (Optimization::MatDiag(_), Optimization::MatDiag(_)) => true,
        (Optimization::MatDiagonal(_), Optimization::MatDiagonal(_)) => true,
        (Optimization::Constraints(a), Optimization::Constraints(b)) => a.len() == b.len(),
        (Optimization::Symbol(a), Optimization::Symbol(b)) => a@ == b@,
        (Optimization::Constant(a), Optimization::Constant(b)) => a == b,
        _ => false,
    }
}

/// The values folded in a class, without their witnesses.
pub open spec fn folded_value(d: Data) -> Option<Num> {
    match d.constant {
        Some(c) => Some(c.0),
        None => None,
    }
}

/// Constant folding is confluent: two nodes with the same operator, over
/// subterms whose classes hold the same folded values, fold to the same
/// witness, and so to the same constant once that witness is evaluated.
pub proof fn lemma_folding_confluent(
    n1: Optimization,
    kids1: Seq<Data>,
    n2: Optimization,
    kids2: Seq<Data>,
    value: Option<Num>,
)
    requires
        same_operator(n1, n2),
        kids1.len() == n1.children_spec().len(),
        kids2.len() == kids1.len(),
        forall|i: int| 0 <= i < kids1.len() ==> folded_value(#[trigger] kids1[i]) == folded_value(kids2[i]),
    ensures
        fold_spec(n1, kids1) == fold_spec(n2, kids2),
        make_constant_spec(n1, kids1, value) == make_constant_spec(n2, kids2, value),
{
    if kids1.len() > 0 {
        assert(folded_value(kids1[0]) == folded_value(kids2[0]));
    }
    if kids1.len() > 1 {
        assert(folded_value(kids1[1]) == folded_value(kids2[1]));
    }
}

} // verus!
