//! Expression evaluation: from an `Expression`, the interpreter state and
//! an evaluation budget to a value, threading every state effect exactly
//! as the specification mirror `eval_expr_s` states.

use vstd::prelude::*;

use crate::ast::Expression;
use crate::ast::FuncParam;
use crate::ast::KiroType;
use crate::ast::Program;
use crate::semantics::Fault;
use crate::tables::Table;
use crate::compiler::expression::expr_size;
use crate::compiler::expression::exprs_size;
use crate::compiler::expression::fields_size;
use crate::compiler::expression::pairs_size;
use super::IState;
use super::Interpreter;
use super::StmtRes;
use super::give_s;
use super::rv_res_matches;
use super::take_s;
use super::statement::exec_block_s;
use super::values::FuncEntry;
use super::values::RuntimeVal;
use super::values::Val;
use super::values::Value;
use super::values::assoc_find_v;
use super::values::exports_vw;
use super::values::find_field;
use super::values::funcs_vw;
use super::values::items_vw;
use super::values::lemma_items_vw;
use super::values::lemma_pairs_vw;
use super::values::num_lit_s;
use super::values::pairs_vw;
use super::values::parse_num_lit;
use super::values::render;
use super::values::truthy;
use super::values::val_eq;
use super::values::val_ord;
use super::values::vw;

verus! {

/// A number, or the fault the original value draws.
pub open spec fn as_num_s(v: Val) -> Result<i64, Fault> {
    match v {
        Val::Num(n) => Ok(n),
        _ => Err(Fault::TypeError),
    }
}

/// Addition: two numbers add (checked); a string concatenates with the
/// printed form of the other operand; anything else is a type error.
pub open spec fn add_vals_s(a: Val, b: Val) -> Result<Val, Fault> {
    match (a, b) {
        (Val::Num(x), Val::Num(y)) => {
            match x.checked_add(y) {
                Some(s) => Ok(Val::Num(s)),
                None => Err(Fault::NumOverflow),
            }
        },
        (Val::Str(x), _) => Ok(Val::Str(x + render(b))),
        (_, Val::Str(y)) => Ok(Val::Str(render(a) + y)),
        _ => Err(Fault::TypeError),
    }
}

/// The environment after binding arguments to parameters positionally.
pub open spec fn bind_params(
    env: Map<Seq<char>, (Val, bool)>,
    ps: Seq<FuncParam>,
    vs: Seq<Val>,
    is_mut: bool,
) -> Map<Seq<char>, (Val, bool)>
    decreases ps.len(),
{
    if ps.len() == 0 {
        env
    } else {
        bind_params(env, ps.drop_last(), vs.drop_last(), is_mut).insert(
            ps.last().name@,
            (vs.last(), is_mut),
        )
    }
}

/// Whether an argument handed to a pure function has a mutable variable at
/// the root of its field-access chain.
pub open spec fn bad_pure_arg_i(st: IState, e: Expression) -> bool {
    match crate::compiler::expression::arg_root(e) {
        Expression::Variable(av) => st.env.contains_key(av.value@) && st.env[av.value@].1,
        _ => false,
    }
}

pub open spec fn any_bad_pure_arg_i(st: IState, args: Seq<Expression>) -> bool
    decreases args.len(),
{
    if args.len() == 0 {
        false
    } else {
        bad_pure_arg_i(st, args.first()) || any_bad_pure_arg_i(st, args.drop_first())
    }
}

/// The mock value a host-backed call yields in the interpreter, by its
/// declared return type; the compiled program calls the real host glue.
pub open spec fn host_mock(rt: KiroType) -> Val {
    match rt {
        KiroType::Num => Val::Num(0),
        KiroType::Str => Val::Str("MOCK_STRING"@),
        KiroType::Bool => Val::Bool(false),
        KiroType::List(_) => Val::List(Seq::empty()),
        KiroType::MapOf(_, _) => Val::MapVal(Seq::empty()),
        _ => Val::Void,
    }
}

/// Mirror of expression evaluation: the value or fault, and the state
/// afterwards. The budget `fuel` bounds call depth and loop iterations.
#[verifier::opaque]
pub open spec fn eval_expr_s(
    mods: Map<Seq<char>, Program>,
    st: IState,
    e: Expression,
    fuel: nat,
) -> (Result<Val, Fault>, IState)
    decreases fuel, expr_size(e), 2nat,
{
    match e {
        Expression::MoveExpr(ident) => {
            let n = ident.value@;
            if st.pure_mode {
                (Err(Fault::PurityViolation), st)
            } else if !st.env.contains_key(n) {
                (Err(Fault::UnknownVariable), st)
            } else if !st.env[n].1 {
                (Err(Fault::InvalidMove), st)
            } else {
                (
                    Ok(st.env[n].0),
                    IState { env: st.env.insert(n, (Val::Moved, st.env[n].1)), ..st },
                )
            }
        },
        Expression::Variable(v) => {
            let n = v.value@;
            if st.errors.contains_key(n) {
                (Ok(Val::ErrorVal(n, st.errors[n])), st)
            } else if st.pure_mode && !st.pure_names.contains(n) {
                (Err(Fault::PurityViolation), st)
            } else if !st.env.contains_key(n) {
                (Err(Fault::UnknownVariable), st)
            } else if st.env[n].0 is Moved {
                (Err(Fault::UseAfterMove), st)
            } else {
                (Ok(st.env[n].0), st)
            }
        },
        Expression::Number(nv) => (
            match num_lit_s(nv.value@) {
                Ok(n) => Ok(Val::Num(n)),
                Err(f) => Err(f),
            },
            st,
        ),
        Expression::StringLit(sv) => {
            let s = sv.value@;
            if s.len() >= 2 {
                (Ok(Val::Str(s.subrange(1, s.len() - 1))), st)
            } else {
                (Err(Fault::TypeError), st)
            }
        },
        Expression::BoolLit(b) => (
            Ok(
                match b {
                    crate::ast::BoolVal::True => Val::Bool(true),
                    crate::ast::BoolVal::False => Val::Bool(false),
                },
            ),
            st,
        ),
        Expression::PipeInit(_) => (
            Ok(Val::Pipe(st.channels.len() as int)),
            IState { channels: st.channels.push((Seq::empty(), false)), ..st },
        ),
        Expression::AdrInit(_) => (Ok(Val::Void), st),
        Expression::StructInit(name, fields) => {
            let (r, st1) = eval_fields_s(mods, st, fields@, fuel);
            match r {
                Ok(ps) => (Ok(Val::Struct(name.value@, ps)), st1),
                Err(f) => (Err(f), st1),
            }
        },
        Expression::FieldAccess(target, field) => {
            let (r, st1) = eval_expr_s(mods, st, *target, fuel);
            match r {
                Ok(v) => {
                    match v {
                        Val::Struct(_, flds) => {
                            match assoc_find_v(flds, field.value@) {
                                Some(x) => (Ok(x), st1),
                                None => (Err(Fault::UnknownField), st1),
                            }
                        },
                        Val::Module(exports, _) => {
                            if exports.contains_key(field.value@) {
                                (Ok(exports[field.value@]), st1)
                            } else {
                                (Err(Fault::UnknownField), st1)
                            }
                        },
                        _ => (Err(Fault::NotAStruct), st1),
                    }
                },
                Err(f) => (Err(f), st1),
            }
        },
        Expression::Take(ch) => {
            if st.pure_mode {
                (Err(Fault::PurityViolation), st)
            } else {
                let (r, st1) = eval_expr_s(mods, st, *ch, fuel);
                match r {
                    Ok(Val::Pipe(id)) => {
                        let (tr, st2) = take_s(st1, id);
                        match tr {
                            Ok(x) => (Ok(Val::Num(x)), st2),
                            Err(f) => (Err(f), st2),
                        }
                    },
                    Ok(_) => (Err(Fault::TypeError), st1),
                    Err(f) => (Err(f), st1),
                }
            }
        },
        Expression::Ref(t) => eval_expr_s(mods, st, *t, fuel),
        Expression::Deref(t) => eval_expr_s(mods, st, *t, fuel),
        Expression::ListInit(_, items) => {
            let (r, st1) = evals_s(mods, st, items@, fuel);
            match r {
                Ok(vs) => (Ok(Val::List(vs)), st1),
                Err(f) => (Err(f), st1),
            }
        },
        Expression::MapInit(_, _, pairs) => {
            let (r, st1) = eval_pairs_s(mods, st, pairs@, fuel);
            match r {
                Ok(ps) => (Ok(Val::MapVal(ps)), st1),
                Err(f) => (Err(f), st1),
            }
        },
        Expression::At(col, key) => {
            let (r, st1) = eval_expr_s(mods, st, *col, fuel);
            match r {
                Ok(cv) => {
                    let (r2, st2) = eval_expr_s(mods, st1, *key, fuel);
                    match r2 {
                        Ok(kv) => {
                            match cv {
                                Val::List(l) => {
                                    match as_num_s(kv) {
                                        Ok(i) => {
                                            if 0 <= i < l.len() {
                                                (Ok(l[i as int]), st2)
                                            } else {
                                                (Err(Fault::IndexOutOfBounds), st2)
                                            }
                                        },
                                        Err(f) => (Err(f), st2),
                                    }
                                },
                                Val::MapVal(m) => {
                                    match assoc_find_v(m, render(kv)) {
                                        Some(x) => (Ok(x), st2),
                                        None => (Err(Fault::KeyNotFound), st2),
                                    }
                                },
                                _ => (Err(Fault::TypeError), st2),
                            }
                        },
                        Err(f) => (Err(f), st2),
                    }
                },
                Err(f) => (Err(f), st1),
            }
        },
        Expression::Push(c, v) => {
            let (r, st1) = eval_expr_s(mods, st, *c, fuel);
            match r {
                Ok(_) => {
                    let (r2, st2) = eval_expr_s(mods, st1, *v, fuel);
                    match r2 {
                        Ok(_) => (Ok(Val::Void), st2),
                        Err(f) => (Err(f), st2),
                    }
                },
                Err(f) => (Err(f), st1),
            }
        },
        Expression::Range(a, b) => {
            let (r, st1) = eval_expr_s(mods, st, *a, fuel);
            match r {
                Ok(av) => {
                    match as_num_s(av) {
                        Ok(x) => {
                            let (r2, st2) = eval_expr_s(mods, st1, *b, fuel);
                            match r2 {
                                Ok(bv) => {
                                    match as_num_s(bv) {
                                        Ok(y) => (Ok(Val::Range(x, y)), st2),
                                        Err(f) => (Err(f), st2),
                                    }
                                },
                                Err(f) => (Err(f), st2),
                            }
                        },
                        Err(f) => (Err(f), st1),
                    }
                },
                Err(f) => (Err(f), st1),
            }
        },
        Expression::Add(l, r) => {
            let (rl, st1) = eval_expr_s(mods, st, *l, fuel);
            match rl {
                Ok(lv) => {
                    let (rr, st2) = eval_expr_s(mods, st1, *r, fuel);
                    match rr {
                        Ok(rv) => (add_vals_s(lv, rv), st2),
                        Err(f) => (Err(f), st2),
                    }
                },
                Err(f) => (Err(f), st1),
            }
        },
        Expression::Len(t) => {
            let (r, st1) = eval_expr_s(mods, st, *t, fuel);
            match r {
                Ok(v) => {
                    match v {
                        Val::Str(s) => {
                            if s.len() <= i64::MAX {
                                (Ok(Val::Num(s.len() as i64)), st1)
                            } else {
                                (Err(Fault::NumOverflow), st1)
                            }
                        },
                        Val::List(l) => {
                            if l.len() <= i64::MAX {
                                (Ok(Val::Num(l.len() as i64)), st1)
                            } else {
                                (Err(Fault::NumOverflow), st1)
                            }
                        },
                        Val::MapVal(m) => {
                            if m.len() <= i64::MAX {
                                (Ok(Val::Num(m.len() as i64)), st1)
                            } else {
                                (Err(Fault::NumOverflow), st1)
                            }
                        },
                        _ => (Err(Fault::TypeError), st1),
                    }
                },
                Err(f) => (Err(f), st1),
            }
        },
        Expression::Sub(l, r) => eval_num_binop_s(mods, st, *l, *r, NumOp::Sub, fuel),
        Expression::Mul(l, r) => eval_num_binop_s(mods, st, *l, *r, NumOp::Mul, fuel),
        Expression::Div(l, r) => eval_num_binop_s(mods, st, *l, *r, NumOp::Div, fuel),
        Expression::Eq(l, r) => {
            let (rl, st1) = eval_expr_s(mods, st, *l, fuel);
            match rl {
                Ok(lv) => {
                    let (rr, st2) = eval_expr_s(mods, st1, *r, fuel);
                    match rr {
                        Ok(rv) => (Ok(Val::Bool(val_eq(lv, rv))), st2),
                        Err(f) => (Err(f), st2),
                    }
                },
                Err(f) => (Err(f), st1),
            }
        },
        Expression::Neq(l, r) => {
            let (rl, st1) = eval_expr_s(mods, st, *l, fuel);
            match rl {
                Ok(lv) => {
                    let (rr, st2) = eval_expr_s(mods, st1, *r, fuel);
                    match rr {
                        Ok(rv) => (Ok(Val::Bool(!val_eq(lv, rv))), st2),
                        Err(f) => (Err(f), st2),
                    }
                },
                Err(f) => (Err(f), st1),
            }
        },
        Expression::Gt(l, r) => eval_cmp_s(mods, st, *l, *r, CmpOp::Gt, fuel),
        Expression::Lt(l, r) => eval_cmp_s(mods, st, *l, *r, CmpOp::Lt, fuel),
        Expression::Geq(l, r) => eval_cmp_s(mods, st, *l, *r, CmpOp::Geq, fuel),
        Expression::Leq(l, r) => eval_cmp_s(mods, st, *l, *r, CmpOp::Leq, fuel),
        Expression::Call(func, args) => eval_call_s(mods, st, *func, args@, fuel),
        Expression::RunCall(ce) => eval_expr_s(mods, st, *ce, fuel),
    }
}

pub enum NumOp {
    Sub,
    Mul,
    Div,
}

pub enum CmpOp {
    Gt,
    Lt,
    Geq,
    Leq,
}

/// Checked numeric operation on two numbers; division by zero and
/// overflow fail.
pub open spec fn num_op_s(op: NumOp, x: i64, y: i64) -> Result<Val, Fault> {
    match op {
        NumOp::Sub => match x.checked_sub(y) {
            Some(s) => Ok(Val::Num(s)),
            None => Err(Fault::NumOverflow),
        },
        NumOp::Mul => match x.checked_mul(y) {
            Some(s) => Ok(Val::Num(s)),
            None => Err(Fault::NumOverflow),
        },
        NumOp::Div => {
            if y == 0 {
                Err(Fault::DivByZero)
            } else {
                match x.checked_div(y) {
                    Some(q) => Ok(Val::Num(q)),
                    None => Err(Fault::NumOverflow),
                }
            }
        },
    }
}

pub open spec fn eval_num_binop_s(
    mods: Map<Seq<char>, Program>,
    st: IState,
    l: Expression,
    r: Expression,
    op: NumOp,
    fuel: nat,
) -> (Result<Val, Fault>, IState)
    decreases fuel, expr_size(l) + expr_size(r), 2nat,
{
    let (rl, st1) = eval_expr_s(mods, st, l, fuel);
    match rl {
        Ok(lv) => {
            let (rr, st2) = eval_expr_s(mods, st1, r, fuel);
            match rr {
                Ok(rv) => {
                    match (as_num_s(lv), as_num_s(rv)) {
                        (Ok(x), Ok(y)) => (num_op_s(op, x, y), st2),
                        _ => (Err(Fault::TypeError), st2),
                    }
                },
                Err(f) => (Err(f), st2),
            }
        },
        Err(f) => (Err(f), st1),
    }
}

/// The outcome of a comparison: an incomparable pair yields `false`.
pub open spec fn cmp_outcome(op: CmpOp, ord: Option<int>) -> bool {
    match ord {
        Some(o) => match op {
            CmpOp::Gt => o > 0,
            CmpOp::Lt => o < 0,
            CmpOp::Geq => o >= 0,
            CmpOp::Leq => o <= 0,
        },
        None => false,
    }
}

pub open spec fn eval_cmp_s(
    mods: Map<Seq<char>, Program>,
    st: IState,
    l: Expression,
    r: Expression,
    op: CmpOp,
    fuel: nat,
) -> (Result<Val, Fault>, IState)
    decreases fuel, expr_size(l) + expr_size(r), 2nat,
{
    let (rl, st1) = eval_expr_s(mods, st, l, fuel);
    match rl {
        Ok(lv) => {
            let (rr, st2) = eval_expr_s(mods, st1, r, fuel);
            match rr {
                Ok(rv) => (Ok(Val::Bool(cmp_outcome(op, val_ord(lv, rv)))), st2),
                Err(f) => (Err(f), st2),
            }
        },
        Err(f) => (Err(f), st1),
    }
}

/// Arguments evaluated in order.
pub open spec fn evals_s(
    mods: Map<Seq<char>, Program>,
    st: IState,
    es: Seq<Expression>,
    fuel: nat,
) -> (Result<Seq<Val>, Fault>, IState)
    decreases fuel, exprs_size(es), 0nat,
{
    if es.len() == 0 {
        (Ok(Seq::empty()), st)
    } else {
        let (r, st1) = eval_expr_s(mods, st, es.first(), fuel);
        match r {
            Ok(v) => {
                let (rr, st2) = evals_s(mods, st1, es.drop_first(), fuel);
                match rr {
                    Ok(vs) => (Ok(seq![v] + vs), st2),
                    Err(f) => (Err(f), st2),
                }
            },
            Err(f) => (Err(f), st1),
        }
    }
}

/// Struct-literal fields evaluated in order.
pub open spec fn eval_fields_s(
    mods: Map<Seq<char>, Program>,
    st: IState,
    fs: Seq<crate::ast::FieldInit>,
    fuel: nat,
) -> (Result<Seq<(Seq<char>, Val)>, Fault>, IState)
    decreases fuel, fields_size(fs), 0nat,
{
    if fs.len() == 0 {
        (Ok(Seq::empty()), st)
    } else {
        let (r, st1) = eval_expr_s(mods, st, fs.first().value, fuel);
        match r {
            Ok(v) => {
                let (rr, st2) = eval_fields_s(mods, st1, fs.drop_first(), fuel);
                match rr {
                    Ok(ps) => (Ok(seq![(fs.first().name.value@, v)] + ps), st2),
                    Err(f) => (Err(f), st2),
                }
            },
            Err(f) => (Err(f), st1),
        }
    }
}

/// Map-literal entries evaluated in order; the key is the printed form of
/// its value.
pub open spec fn eval_pairs_s(
    mods: Map<Seq<char>, Program>,
    st: IState,
    ps: Seq<crate::ast::MapPair>,
    fuel: nat,
) -> (Result<Seq<(Seq<char>, Val)>, Fault>, IState)
    decreases fuel, pairs_size(ps), 0nat,
{
    if ps.len() == 0 {
        (Ok(Seq::empty()), st)
    } else {
        let (r, st1) = eval_expr_s(mods, st, ps.first().key, fuel);
        match r {
            Ok(kv) => {
                let (r2, st2) = eval_expr_s(mods, st1, ps.first().value, fuel);
                match r2 {
                    Ok(v) => {
                        let (rr, st3) = eval_pairs_s(mods, st2, ps.drop_first(), fuel);
                        match rr {
                            Ok(rest) => (Ok(seq![(render(kv), v)] + rest), st3),
                            Err(f) => (Err(f), st3),
                        }
                    },
                    Err(f) => (Err(f), st2),
                }
            },
            Err(f) => (Err(f), st1),
        }
    }
}

/// Mirror of a call: resolve the callee (a name, or a module member),
/// check pure-argument safety, evaluate the arguments, match the arity,
/// then run the body in a fresh frame (restored afterwards, also on an
/// early return or a fault) or produce the host mock value.
pub open spec fn eval_call_s(
    mods: Map<Seq<char>, Program>,
    st: IState,
    func: Expression,
    args: Seq<Expression>,
    fuel: nat,
) -> (Result<Val, Fault>, IState)
    decreases fuel, expr_size(func) + exprs_size(args), 3nat,
{
    let (re, st0) = match func {
        Expression::Variable(v) => {
            if st.funcs.contains_key(v.value@) {
                (Ok(st.funcs[v.value@]), st)
            } else {
                (Err(Fault::UnknownFunction), st)
            }
        },
        Expression::FieldAccess(target, field) => {
            let (r, st1) = eval_expr_s(mods, st, *target, fuel);
            match r {
                Ok(Val::Module(_, mfuncs)) => {
                    if mfuncs.contains_key(field.value@) {
                        (Ok(mfuncs[field.value@]), st1)
                    } else {
                        (Err(Fault::UnknownFunction), st1)
                    }
                },
                Ok(_) => (Err(Fault::NotAModule), st1),
                Err(f) => (Err(f), st1),
            }
        },
        _ => (Err(Fault::NotAFunction), st),
    };
    match re {
        Ok(entry) => {
            match entry {
                FuncEntry::User(def) => {
                    if def.is_pure && any_bad_pure_arg_i(st0, args) {
                        (Err(Fault::MutableArgToPureFn), st0)
                    } else {
                        let (ra, st1) = evals_s(mods, st0, args, fuel);
                        match ra {
                            Ok(vs) => {
                                if def.params@.len() != vs.len() {
                                    (Err(Fault::ArityMismatch), st1)
                                } else if fuel == 0 {
                                    (Err(Fault::FuelExhausted), st1)
                                } else {
                                    let st_call = IState {
                                        env: bind_params(st1.env, def.params@, vs, !def.is_pure),
                                        pure_mode: st1.pure_mode || def.is_pure,
                                        pure_names: if def.is_pure {
                                            crate::compiler::statement::params_set(def.params@)
                                        } else {
                                            st1.pure_names
                                        },
                                        ..st1
                                    };
                                    let (rb, st2) = exec_block_s(
                                        mods,
                                        st_call,
                                        def.body,
                                        (fuel - 1) as nat,
                                    );
                                    let st3 = IState {
                                        env: st1.env,
                                        pure_mode: st1.pure_mode,
                                        pure_names: st1.pure_names,
                                        ..st2
                                    };
                                    match rb {
                                        Ok(StmtRes::Normal(v)) => (Ok(v), st3),
                                        Ok(StmtRes::Return(v)) => (Ok(v), st3),
                                        Ok(_) => (Err(Fault::ControlLeak), st3),
                                        Err(f) => (Err(f), st3),
                                    }
                                }
                            },
                            Err(f) => (Err(f), st1),
                        }
                    }
                },
                FuncEntry::Host(decl) => {
                    let (ra, st1) = evals_s(mods, st0, args, fuel);
                    match ra {
                        Ok(vs) => {
                            if decl.params@.len() != vs.len() {
                                (Err(Fault::ArityMismatch), st1)
                            } else {
                                (Ok(host_mock(decl.return_type)), st1)
                            }
                        },
                        Err(f) => (Err(f), st1),
                    }
                },
            }
        },
        Err(f) => (Err(f), st0),
    }
}

fn rv_as_num(v: &RuntimeVal) -> (r: Result<i64, Fault>)
    ensures
        r == as_num_s(vw(*v)),
{
    match v {
        RuntimeVal::Num(n) => Ok(*n),
        _ => Err(Fault::TypeError),
    }
}

fn rv_add(a: RuntimeVal, b: RuntimeVal) -> (r: Result<RuntimeVal, Fault>)
    ensures
        rv_res_matches(r, add_vals_s(vw(a), vw(b))),
{
    match (a, b) {
        (RuntimeVal::Num(x), RuntimeVal::Num(y)) => {
            match x.checked_add(y) {
                Some(s) => Ok(RuntimeVal::Num(s)),
                None => Err(Fault::NumOverflow),
            }
        },
        (RuntimeVal::Str(x), other) => {
            let mut out = x;
            let rt = other.render_val();
            out.append(rt.as_str());
            Ok(RuntimeVal::Str(out))
        },
        (other, RuntimeVal::Str(y)) => {
            let mut out = other.render_val();
            out.append(y.as_str());
            Ok(RuntimeVal::Str(out))
        },
        _ => Err(Fault::TypeError),
    }
}

impl Interpreter {
    /// Evaluates one expression, as `eval_expr_s` states.
    #[verifier::rlimit(100)]
    #[verifier::spinoff_prover]
    pub fn eval_expr(&mut self, mods: &Table<Program>, expr: &Expression, fuel: u64) -> (r: Result<
        RuntimeVal,
        Fault,
    >)
        ensures
            ({
                let (m, st) = eval_expr_s(mods@, old(self)@, *expr, fuel as nat);
                final(self)@ == st && rv_res_matches(r, m)
            }),
        decreases fuel, expr_size(*expr), 2nat,
    {
        proof {
            reveal_with_fuel(eval_expr_s, 1);
        }
        match expr {
            Expression::MoveExpr(ident) => {
                if self.in_pure_mode {
                    return Err(Fault::PurityViolation);
                }
                let (data, mflag) = match self.env_get(&ident.value) {
                    Some(v) => {
                        if !v.is_mutable {
                            return Err(Fault::InvalidMove);
                        }
                        (v.data.duplicate(), v.is_mutable)
                    },
                    None => {
                        return Err(Fault::UnknownVariable);
                    },
                };
                self.env_put(
                    ident.value.clone(),
                    Value { data: RuntimeVal::Moved, is_mutable: mflag },
                );
                Ok(data)
            },
            Expression::Variable(v) => {
                match self.error_types.get(&v.value) {
                    Some(desc) => {
                        return Ok(RuntimeVal::ErrorVal(v.value.clone(), desc.clone()));
                    },
                    None => {},
                }
                if self.in_pure_mode && !self.pure_scope_params.contains(&v.value) {
                    return Err(Fault::PurityViolation);
                }
                match self.env_get(&v.value) {
                    Some(entry) => {
                        if let RuntimeVal::Moved = &entry.data {
                            Err(Fault::UseAfterMove)
                        } else {
                            Ok(entry.data.duplicate())
                        }
                    },
                    None => Err(Fault::UnknownVariable),
                }
            },
            Expression::Number(_) => self.eval_expr_lit(mods, expr, fuel),
            Expression::StringLit(_) => self.eval_expr_lit(mods, expr, fuel),
            Expression::BoolLit(_) => self.eval_expr_lit(mods, expr, fuel),
            Expression::PipeInit(_) => self.eval_expr_lit(mods, expr, fuel),
            Expression::AdrInit(_) => self.eval_expr_lit(mods, expr, fuel),
            Expression::StructInit(_, _) => self.eval_expr_lit(mods, expr, fuel),
            Expression::FieldAccess(_, _) => self.eval_expr_lit(mods, expr, fuel),
            Expression::Take(_) => self.eval_expr_lit(mods, expr, fuel),
            Expression::Ref(t) => self.eval_expr(mods, t, fuel),
            Expression::Deref(t) => self.eval_expr(mods, t, fuel),
            Expression::ListInit(_, _) => self.eval_expr_coll(mods, expr, fuel),
            Expression::MapInit(_, _, _) => self.eval_expr_coll(mods, expr, fuel),
            Expression::At(_, _) => self.eval_expr_coll(mods, expr, fuel),
            Expression::Push(_, _) => self.eval_expr_coll(mods, expr, fuel),
            Expression::Range(_, _) => self.eval_expr_coll(mods, expr, fuel),
            Expression::Add(_, _) => self.eval_expr_coll(mods, expr, fuel),
            Expression::Len(_) => self.eval_expr_coll(mods, expr, fuel),
            Expression::Sub(l, r) => self.eval_num_binop(mods, l, r, NumOp::Sub, fuel),
            Expression::Mul(l, r) => self.eval_num_binop(mods, l, r, NumOp::Mul, fuel),
            Expression::Div(l, r) => self.eval_num_binop(mods, l, r, NumOp::Div, fuel),
            Expression::Eq(l, r) => {
                let lv = match self.eval_expr(mods, l, fuel) {
                    Ok(t) => t,
                    Err(f) => {
                        return Err(f);
                    },
                };
                let rv = match self.eval_expr(mods, r, fuel) {
                    Ok(t) => t,
                    Err(f) => {
                        return Err(f);
                    },
                };
                Ok(RuntimeVal::Bool(lv.eq_val(&rv)))
            },
            Expression::Neq(l, r) => {
                let lv = match self.eval_expr(mods, l, fuel) {
                    Ok(t) => t,
                    Err(f) => {
                        return Err(f);
                    },
                };
                let rv = match self.eval_expr(mods, r, fuel) {
                    Ok(t) => t,
                    Err(f) => {
                        return Err(f);
                    },
                };
                Ok(RuntimeVal::Bool(!lv.eq_val(&rv)))
            },
            Expression::Gt(l, r) => self.eval_cmp(mods, l, r, CmpOp::Gt, fuel),
            Expression::Lt(l, r) => self.eval_cmp(mods, l, r, CmpOp::Lt, fuel),
            Expression::Geq(l, r) => self.eval_cmp(mods, l, r, CmpOp::Geq, fuel),
            Expression::Leq(l, r) => self.eval_cmp(mods, l, r, CmpOp::Leq, fuel),
            Expression::Call(func, args) => self.eval_call(mods, func, args, fuel),
            Expression::RunCall(ce) => self.eval_expr(mods, ce, fuel),
        }
    }

    #[verifier::rlimit(100)]
    #[verifier::spinoff_prover]
    fn eval_expr_lit(&mut self, mods: &Table<Program>, expr: &Expression, fuel: u64) -> (r: Result<
        RuntimeVal,
        Fault,
    >)
        requires
            expr matches Expression::Number(_) || expr matches Expression::StringLit(_)
                || expr matches Expression::BoolLit(_) || expr matches Expression::PipeInit(_)
                || expr matches Expression::AdrInit(_) || expr matches Expression::StructInit(_, _)
                || expr matches Expression::FieldAccess(_, _) || expr matches Expression::Take(_),
        ensures
            ({
                let (m, st) = eval_expr_s(mods@, old(self)@, *expr, fuel as nat);
                final(self)@ == st && rv_res_matches(r, m)
            }),
        decreases fuel, expr_size(*expr), 1nat,
    {
        proof {
            reveal_with_fuel(eval_expr_s, 1);
        }
        match expr {
            Expression::Number(nv) => {
                match parse_num_lit(&nv.value) {
                    Ok(n) => Ok(RuntimeVal::Num(n)),
                    Err(f) => Err(f),
                }
            },
            Expression::StringLit(sv) => {
                let n = sv.value.as_str().unicode_len();
                if n >= 2 {
                    let inner = sv.value.as_str().substring_char(1, n - 1);
                    Ok(RuntimeVal::Str(String::from_str(inner)))
                } else {
                    Err(Fault::TypeError)
                }
            },
            Expression::BoolLit(b) => {
                match b {
                    crate::ast::BoolVal::True => Ok(RuntimeVal::Bool(true)),
                    crate::ast::BoolVal::False => Ok(RuntimeVal::Bool(false)),
                }
            },
            Expression::PipeInit(_) => {
                let id = self.chan_create();
                Ok(RuntimeVal::Pipe(id))
            },
            Expression::AdrInit(_) => Ok(RuntimeVal::Void),
            Expression::StructInit(name, fields) => {
                let ps = match self.eval_fields(mods, fields.as_slice(), fuel) {
                    Ok(p) => p,
                    Err(f) => {
                        return Err(f);
                    },
                };
                Ok(RuntimeVal::Struct(name.value.clone(), ps))
            },
            Expression::FieldAccess(target, field) => {
                let tv = match self.eval_expr(mods, target, fuel) {
                    Ok(t) => t,
                    Err(f) => {
                        return Err(f);
                    },
                };
                match tv {
                    RuntimeVal::Struct(_, flds) => {
                        match find_field(&flds, &field.value) {
                            Some(x) => Ok(x.duplicate()),
                            None => Err(Fault::UnknownField),
                        }
                    },
                    RuntimeVal::Module(exports, _) => {
                        match crate::interpreter::values::exports_find(&exports, &field.value) {
                            Some(x) => Ok(x.duplicate()),
                            None => Err(Fault::UnknownField),
                        }
                    },
                    _ => Err(Fault::NotAStruct),
                }
            },
            Expression::Take(ch) => {
                if self.in_pure_mode {
                    return Err(Fault::PurityViolation);
                }
                let cv = match self.eval_expr(mods, ch, fuel) {
                    Ok(t) => t,
                    Err(f) => {
                        return Err(f);
                    },
                };
                match cv {
                    RuntimeVal::Pipe(id) => {
                        match self.chan_take(id) {
                            Ok(x) => Ok(RuntimeVal::Num(x)),
                            Err(f) => Err(f),
                        }
                    },
                    _ => Err(Fault::TypeError),
                }
            },
            _ => Err(Fault::TypeError),
        }
    }

    #[verifier::rlimit(100)]
    #[verifier::spinoff_prover]
    fn eval_expr_coll(&mut self, mods: &Table<Program>, expr: &Expression, fuel: u64) -> (r:
        Result<RuntimeVal, Fault>)
        requires
            expr matches Expression::ListInit(_, _) || expr matches Expression::MapInit(_, _, _)
                || expr matches Expression::At(_, _) || expr matches Expression::Push(_, _)
                || expr matches Expression::Range(_, _) || expr matches Expression::Add(_, _)
                || expr matches Expression::Len(_),
        ensures
            ({
                let (m, st) = eval_expr_s(mods@, old(self)@, *expr, fuel as nat);
                final(self)@ == st && rv_res_matches(r, m)
            }),
        decreases fuel, expr_size(*expr), 1nat,
    {
        proof {
            reveal_with_fuel(eval_expr_s, 1);
        }
        match expr {
            Expression::ListInit(_, items) => {
                let vs = match self.eval_args(mods, items.as_slice(), fuel) {
                    Ok(v) => v,
                    Err(f) => {
                        return Err(f);
                    },
                };
                Ok(RuntimeVal::List(vs))
            },
            Expression::MapInit(_, _, pairs) => {
                let ps = match self.eval_pairs(mods, pairs.as_slice(), fuel) {
                    Ok(p) => p,
                    Err(f) => {
                        return Err(f);
                    },
                };
                Ok(RuntimeVal::MapVal(ps))
            },
            Expression::At(col, key) => {
                let cv = match self.eval_expr(mods, col, fuel) {
                    Ok(t) => t,
                    Err(f) => {
                        return Err(f);
                    },
                };
                let kv = match self.eval_expr(mods, key, fuel) {
                    Ok(t) => t,
                    Err(f) => {
                        return Err(f);
                    },
                };
                match cv {
                    RuntimeVal::List(l) => {
                        let i = match rv_as_num(&kv) {
                            Ok(i) => i,
                            Err(f) => {
                                return Err(f);
                            },
                        };
                        proof {
                            lemma_items_vw(l@);
                        }
                        if i >= 0 && (i as u64) < (l.len() as u64) {
                            Ok(l[i as usize].duplicate())
                        } else {
                            Err(Fault::IndexOutOfBounds)
                        }
                    },
                    RuntimeVal::MapVal(m) => {
                        let k = kv.render_val();
                        match find_field(&m, &k) {
                            Some(x) => Ok(x.duplicate()),
                            None => Err(Fault::KeyNotFound),
                        }
                    },
                    _ => Err(Fault::TypeError),
                }
            },
            Expression::Push(c, v) => {
                match self.eval_expr(mods, c, fuel) {
                    Ok(_) => {},
                    Err(f) => {
                        return Err(f);
                    },
                }
                match self.eval_expr(mods, v, fuel) {
                    Ok(_) => {},
                    Err(f) => {
                        return Err(f);
                    },
                }
                Ok(RuntimeVal::Void)
            },
            Expression::Range(a, b) => {
                let av = match self.eval_expr(mods, a, fuel) {
                    Ok(t) => t,
                    Err(f) => {
                        return Err(f);
                    },
                };
                let x = match rv_as_num(&av) {
                    Ok(x) => x,
                    Err(f) => {
                        return Err(f);
                    },
                };
                let bv = match self.eval_expr(mods, b, fuel) {
                    Ok(t) => t,
                    Err(f) => {
                        return Err(f);
                    },
                };
                let y = match rv_as_num(&bv) {
                    Ok(y) => y,
                    Err(f) => {
                        return Err(f);
                    },
                };
                Ok(RuntimeVal::Range(x, y))
            },
            Expression::Add(l, r) => {
                let lv = match self.eval_expr(mods, l, fuel) {
                    Ok(t) => t,
                    Err(f) => {
                        return Err(f);
                    },
                };
                let rv = match self.eval_expr(mods, r, fuel) {
                    Ok(t) => t,
                    Err(f) => {
                        return Err(f);
                    },
                };
                rv_add(lv, rv)
            },
            Expression::Len(t) => {
                let v = match self.eval_expr(mods, t, fuel) {
                    Ok(t) => t,
                    Err(f) => {
                        return Err(f);
                    },
                };
                match v {
                    RuntimeVal::Str(s) => {
                        let n = s.as_str().unicode_len();
                        if (n as u64) <= (i64::MAX as u64) {
                            Ok(RuntimeVal::Num(n as i64))
                        } else {
                            Err(Fault::NumOverflow)
                        }
                    },
                    RuntimeVal::List(l) => {
                        proof {
                            lemma_items_vw(l@);
                        }
                        if (l.len() as u64) <= (i64::MAX as u64) {
                            Ok(RuntimeVal::Num(l.len() as i64))
                        } else {
                            Err(Fault::NumOverflow)
                        }
                    },
                    RuntimeVal::MapVal(m) => {
                        proof {
                            lemma_pairs_vw(m@);
                        }
                        if (m.len() as u64) <= (i64::MAX as u64) {
                            Ok(RuntimeVal::Num(m.len() as i64))
                        } else {
                            Err(Fault::NumOverflow)
                        }
                    },
                    _ => Err(Fault::TypeError),
                }
            },
            _ => Err(Fault::TypeError),
        }
    }

    fn eval_num_binop(
        &mut self,
        mods: &Table<Program>,
        l: &Expression,
        r: &Expression,
        op: NumOp,
        fuel: u64,
    ) -> (res: Result<RuntimeVal, Fault>)
        ensures
            ({
                let (m, st) = eval_num_binop_s(mods@, old(self)@, *l, *r, op, fuel as nat);
                final(self)@ == st && rv_res_matches(res, m)
            }),
        decreases fuel, expr_size(*l) + expr_size(*r), 2nat,
    {
        proof {
            reveal_with_fuel(eval_expr_s, 1);
            reveal_with_fuel(eval_num_binop_s, 1);
        }
        let lv = match self.eval_expr(mods, l, fuel) {
            Ok(t) => t,
            Err(f) => {
                return Err(f);
            },
        };
        let rv = match self.eval_expr(mods, r, fuel) {
            Ok(t) => t,
            Err(f) => {
                return Err(f);
            },
        };
        let x = match rv_as_num(&lv) {
            Ok(x) => x,
            Err(_) => {
                return Err(Fault::TypeError);
            },
        };
        let y = match rv_as_num(&rv) {
            Ok(y) => y,
            Err(_) => {
                return Err(Fault::TypeError);
            },
        };
        match op {
            NumOp::Sub => {
                match x.checked_sub(y) {
                    Some(s) => Ok(RuntimeVal::Num(s)),
                    None => Err(Fault::NumOverflow),
                }
            },
            NumOp::Mul => {
                match x.checked_mul(y) {
                    Some(s) => Ok(RuntimeVal::Num(s)),
                    None => Err(Fault::NumOverflow),
                }
            },
            NumOp::Div => {
                if y == 0 {
                    Err(Fault::DivByZero)
                } else {
                    match x.checked_div(y) {
                        Some(q) => Ok(RuntimeVal::Num(q)),
                        None => Err(Fault::NumOverflow),
                    }
                }
            },
        }
    }

    fn eval_cmp(
        &mut self,
        mods: &Table<Program>,
        l: &Expression,
        r: &Expression,
        op: CmpOp,
        fuel: u64,
    ) -> (res: Result<RuntimeVal, Fault>)
        ensures
            ({
                let (m, st) = eval_cmp_s(mods@, old(self)@, *l, *r, op, fuel as nat);
                final(self)@ == st && rv_res_matches(res, m)
            }),
        decreases fuel, expr_size(*l) + expr_size(*r), 2nat,
    {
        proof {
            reveal_with_fuel(eval_expr_s, 1);
            reveal_with_fuel(eval_cmp_s, 1);
        }
        let lv = match self.eval_expr(mods, l, fuel) {
            Ok(t) => t,
            Err(f) => {
                return Err(f);
            },
        };
        let rv = match self.eval_expr(mods, r, fuel) {
            Ok(t) => t,
            Err(f) => {
                return Err(f);
            },
        };
        let b = match lv.cmp_val(&rv) {
            Some(o) => {
                match op {
                    CmpOp::Gt => o > 0,
                    CmpOp::Lt => o < 0,
                    CmpOp::Geq => o >= 0,
                    CmpOp::Leq => o <= 0,
                }
            },
            None => false,
        };
        Ok(RuntimeVal::Bool(b))
    }

    fn eval_args(&mut self, mods: &Table<Program>, es: &[Expression], fuel: u64) -> (r: Result<
        Vec<RuntimeVal>,
        Fault,
    >)
        ensures
            ({
                let (m, st) = evals_s(mods@, old(self)@, es@, fuel as nat);
                final(self)@ == st && (match r {
                    Ok(vs) => m is Ok && items_vw(vs@) == m->Ok_0,
                    Err(f) => m == Err::<Seq<Val>, Fault>(f),
                })
            }),
        decreases fuel, exprs_size(es@), 0nat,
    {
        proof {
            reveal_with_fuel(eval_expr_s, 1);
            reveal_with_fuel(evals_s, 1);
        }
        if es.len() == 0 {
            let r: Vec<RuntimeVal> = Vec::new();
            proof {
                assert(items_vw(r@) =~= Seq::<Val>::empty());
            }
            return Ok(r);
        }
        let v = match self.eval_expr(mods, vstd::slice::slice_index_get(es, 0), fuel) {
            Ok(t) => t,
            Err(f) => {
                return Err(f);
            },
        };
        let mut rest = match self.eval_args(
            mods,
            vstd::slice::slice_subrange(es, 1, es.len()),
            fuel,
        ) {
            Ok(t) => t,
            Err(f) => {
                return Err(f);
            },
        };
        let ghost gv = vw(v);
        let ghost grest = rest@;
        let mut out: Vec<RuntimeVal> = Vec::new();
        out.push(v);
        out.append(&mut rest);
        proof {
            lemma_items_vw(out@);
            lemma_items_vw(grest);
            assert(items_vw(out@) =~= seq![gv] + items_vw(grest));
        }
        Ok(out)
    }

    fn eval_fields(
        &mut self,
        mods: &Table<Program>,
        fs: &[crate::ast::FieldInit],
        fuel: u64,
    ) -> (r: Result<Vec<(String, RuntimeVal)>, Fault>)
        ensures
            ({
                let (m, st) = eval_fields_s(mods@, old(self)@, fs@, fuel as nat);
                final(self)@ == st && (match r {
                    Ok(ps) => m is Ok && pairs_vw(ps@) == m->Ok_0,
                    Err(f) => m == Err::<Seq<(Seq<char>, Val)>, Fault>(f),
                })
            }),
        decreases fuel, fields_size(fs@), 0nat,
    {
        proof {
            reveal_with_fuel(eval_expr_s, 1);
            reveal_with_fuel(eval_fields_s, 1);
        }
        if fs.len() == 0 {
            let r: Vec<(String, RuntimeVal)> = Vec::new();
            proof {
                assert(pairs_vw(r@) =~= Seq::<(Seq<char>, Val)>::empty());
            }
            return Ok(r);
        }
        let first = vstd::slice::slice_index_get(fs, 0);
        let v = match self.eval_expr(mods, &first.value, fuel) {
            Ok(t) => t,
            Err(f) => {
                return Err(f);
            },
        };
        let mut rest = match self.eval_fields(
            mods,
            vstd::slice::slice_subrange(fs, 1, fs.len()),
            fuel,
        ) {
            Ok(t) => t,
            Err(f) => {
                return Err(f);
            },
        };
        let name = first.name.value.clone();
        let ghost gpair = (name@, vw(v));
        let ghost grest = rest@;
        let mut out: Vec<(String, RuntimeVal)> = Vec::new();
        out.push((name, v));
        out.append(&mut rest);
        proof {
            lemma_pairs_vw(out@);
            lemma_pairs_vw(grest);
            assert(pairs_vw(out@) =~= seq![gpair] + pairs_vw(grest));
        }
        Ok(out)
    }

    fn eval_pairs(
        &mut self,
        mods: &Table<Program>,
        ps: &[crate::ast::MapPair],
        fuel: u64,
    ) -> (r: Result<Vec<(String, RuntimeVal)>, Fault>)
        ensures
            ({
                let (m, st) = eval_pairs_s(mods@, old(self)@, ps@, fuel as nat);
                final(self)@ == st && (match r {
                    Ok(es) => m is Ok && pairs_vw(es@) == m->Ok_0,
                    Err(f) => m == Err::<Seq<(Seq<char>, Val)>, Fault>(f),
                })
            }),
        decreases fuel, pairs_size(ps@), 0nat,
    {
        proof {
            reveal_with_fuel(eval_expr_s, 1);
            reveal_with_fuel(eval_pairs_s, 1);
        }
        if ps.len() == 0 {
            let r: Vec<(String, RuntimeVal)> = Vec::new();
            proof {
                assert(pairs_vw(r@) =~= Seq::<(Seq<char>, Val)>::empty());
            }
            return Ok(r);
        }
        let first = vstd::slice::slice_index_get(ps, 0);
        let kv = match self.eval_expr(mods, &first.key, fuel) {
            Ok(t) => t,
            Err(f) => {
                return Err(f);
            },
        };
        let v = match self.eval_expr(mods, &first.value, fuel) {
            Ok(t) => t,
            Err(f) => {
                return Err(f);
            },
        };
        let mut rest = match self.eval_pairs(
            mods,
            vstd::slice::slice_subrange(ps, 1, ps.len()),
            fuel,
        ) {
            Ok(t) => t,
            Err(f) => {
                return Err(f);
            },
        };
        let key = kv.render_val();
        let ghost gpair = (key@, vw(v));
        let ghost grest = rest@;
        let mut out: Vec<(String, RuntimeVal)> = Vec::new();
        out.push((key, v));
        out.append(&mut rest);
        proof {
            lemma_pairs_vw(out@);
            lemma_pairs_vw(grest);
            assert(pairs_vw(out@) =~= seq![gpair] + pairs_vw(grest));
        }
        Ok(out)
    }

    /// Calls a function as `eval_call_s` states.
    #[verifier::rlimit(100)]
    #[verifier::spinoff_prover]
    fn eval_call(
        &mut self,
        mods: &Table<Program>,
        func: &Expression,
        args: &Vec<Expression>,
        fuel: u64,
    ) -> (r: Result<RuntimeVal, Fault>)
        ensures
            ({
                let (m, st) = eval_call_s(mods@, old(self)@, *func, args@, fuel as nat);
                final(self)@ == st && rv_res_matches(r, m)
            }),
        decreases fuel, expr_size(*func) + exprs_size(args@), 3nat,
    {
        proof {
            reveal_with_fuel(eval_expr_s, 1);
            reveal_with_fuel(eval_call_s, 1);
        }
        let entry: FuncEntry = match func {
            Expression::Variable(v) => {
                match self.functions.get(&v.value) {
                    Some(e) => e.duplicate(),
                    None => {
                        return Err(Fault::UnknownFunction);
                    },
                }
            },
            Expression::FieldAccess(target, field) => {
                let tv = match self.eval_expr(mods, target, fuel) {
                    Ok(t) => t,
                    Err(f) => {
                        return Err(f);
                    },
                };
                match tv {
                    RuntimeVal::Module(_, mfuncs) => {
                        match crate::interpreter::values::funcs_find(&mfuncs, &field.value) {
                            Some(e) => e.duplicate(),
                            None => {
                                return Err(Fault::UnknownFunction);
                            },
                        }
                    },
                    _ => {
                        return Err(Fault::NotAModule);
                    },
                }
            },
            _ => {
                return Err(Fault::NotAFunction);
            },
        };
        match entry {
            FuncEntry::User(def) => {
                if def.is_pure {
                    match self.find_bad_pure_arg(args.as_slice()) {
                        Some(f) => {
                            return Err(f);
                        },
                        None => {},
                    }
                }
                let vs = match self.eval_args(mods, args.as_slice(), fuel) {
                    Ok(v) => v,
                    Err(f) => {
                        return Err(f);
                    },
                };
                proof {
                    lemma_items_vw(vs@);
                }
                if def.params.len() != vs.len() {
                    return Err(Fault::ArityMismatch);
                }
                if fuel == 0 {
                    return Err(Fault::FuelExhausted);
                }
                let saved_env = self.dup_env();
                let saved_mode = self.in_pure_mode;
                let saved_names = self.pure_scope_params.duplicate();
                self.bind_args(def.params.as_slice(), &vs, !def.is_pure);
                if def.is_pure {
                    self.in_pure_mode = true;
                    self.pure_scope_params =
                        crate::compiler::statement::param_name_set(def.params.as_slice());
                }
                let res = self.execute_block(mods, &def.body, fuel - 1);
                self.env = saved_env;
                self.in_pure_mode = saved_mode;
                self.pure_scope_params = saved_names;
                match res {
                    Ok(super::StatementResult::Normal(v)) => Ok(v),
                    Ok(super::StatementResult::Return(v)) => Ok(v),
                    Ok(_) => Err(Fault::ControlLeak),
                    Err(f) => Err(f),
                }
            },
            FuncEntry::Host(decl) => {
                let vs = match self.eval_args(mods, args.as_slice(), fuel) {
                    Ok(v) => v,
                    Err(f) => {
                        return Err(f);
                    },
                };
                proof {
                    lemma_items_vw(vs@);
                }
                if decl.params.len() != vs.len() {
                    return Err(Fault::ArityMismatch);
                }
                match &decl.return_type {
                    KiroType::Num => Ok(RuntimeVal::Num(0)),
                    KiroType::Str => Ok(RuntimeVal::Str(String::from_str("MOCK_STRING"))),
                    KiroType::Bool => Ok(RuntimeVal::Bool(false)),
                    KiroType::List(_) => {
                        let l: Vec<RuntimeVal> = Vec::new();
                        proof {
                            assert(items_vw(l@) =~= Seq::<Val>::empty());
                        }
                        Ok(RuntimeVal::List(l))
                    },
                    KiroType::MapOf(_, _) => {
                        let m: Vec<(String, RuntimeVal)> = Vec::new();
                        proof {
                            assert(pairs_vw(m@) =~= Seq::<(Seq<char>, Val)>::empty());
                        }
                        Ok(RuntimeVal::MapVal(m))
                    },
                    _ => Ok(RuntimeVal::Void),
                }
            },
        }
    }

    /// The syntactic check of arguments handed to a pure function.
    fn find_bad_pure_arg(&self, args: &[Expression]) -> (r: Option<Fault>)
        ensures
            r == (if any_bad_pure_arg_i(self@, args@) {
                Some(Fault::MutableArgToPureFn)
            } else {
                Option::<Fault>::None
            }),
    {
        let n = args.len();
        let mut i: usize = 0;
        proof {
            assert(args@.skip(0) =~= args@);
        }
        while i < n
            invariant
                i <= n,
                n == args@.len(),
                any_bad_pure_arg_i(self@, args@) == any_bad_pure_arg_i(
                    self@,
                    args@.skip(i as int),
                ),
            decreases n - i,
        {
            proof {
                assert(args@.skip(i as int).first() == args@[i as int]);
                assert(args@.skip(i as int).drop_first() =~= args@.skip(i + 1));
            }
            let root = crate::compiler::expression::root_of(
                vstd::slice::slice_index_get(args, i),
            );
            if let Expression::Variable(av) = root {
                match self.env_get(&av.value) {
                    Some(entry) => {
                        if entry.is_mutable {
                            proof {
                                assert(bad_pure_arg_i(self@, args@[i as int]));
                                assert(any_bad_pure_arg_i(self@, args@.skip(i as int)));
                            }
                            return Some(Fault::MutableArgToPureFn);
                        }
                    },
                    None => {},
                }
            }
            proof {
                assert(!bad_pure_arg_i(self@, args@[i as int]));
            }
            i = i + 1;
        }
        proof {
            assert(args@.skip(n as int).len() == 0);
        }
        None
    }

    /// Binds arguments to parameters, newest binding winning.
    fn bind_args(&mut self, ps: &[FuncParam], vs: &Vec<RuntimeVal>, is_mut: bool)
        requires
            ps@.len() == vs@.len(),
        ensures
            final(self)@ == (IState {
                env: bind_params(old(self)@.env, ps@, items_vw(vs@), is_mut),
                ..old(self)@
            }),
    {
        proof {
            lemma_items_vw(vs@);
        }
        let n = ps.len();
        let mut i: usize = 0;
        while i < n
            invariant
                i <= n,
                n == ps@.len(),
                n == vs@.len(),
                items_vw(vs@).len() == n,
                forall|j: int| 0 <= j < n ==> #[trigger] items_vw(vs@)[j] == vw(vs@[j]),
                self@ == (IState {
                    env: bind_params(
                        old(self)@.env,
                        ps@.take(i as int),
                        items_vw(vs@).take(i as int),
                        is_mut,
                    ),
                    ..old(self)@
                }),
            decreases n - i,
        {
            let p = vstd::slice::slice_index_get(ps, i);
            let v = vs[i].duplicate();
            self.env_put(p.name.clone(), Value { data: v, is_mutable: is_mut });
            proof {
                assert(ps@.take(i + 1).drop_last() =~= ps@.take(i as int));
                assert(items_vw(vs@).take(i + 1).drop_last() =~= items_vw(vs@).take(i as int));
                assert(ps@.take(i + 1).last() == ps@[i as int]);
                assert(items_vw(vs@).take(i + 1).last() == items_vw(vs@)[i as int]);
            }
            i = i + 1;
        }
        proof {
            assert(ps@.take(n as int) =~= ps@);
            assert(items_vw(vs@).take(n as int) =~= items_vw(vs@));
        }
    }
}

} // verus!
