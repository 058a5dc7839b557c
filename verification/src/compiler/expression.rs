//! Expression lowering: from an `Expression` and the compiler state to the
//! exact target text, enforcing the purity, move and mutability rules.

use vstd::prelude::*;

use crate::ast::Expression;
use crate::ast::KiroType;
use crate::ast::FieldInit;
use crate::ast::MapPair;
use crate::semantics::Fault;
use crate::types::compile_type;
use crate::types::type_text;
use super::CState;
use super::Compiler;
use super::has_dot;
use super::is_upper_name;
use super::res_matches;
use vstd::slice::slice_index_get;
use vstd::slice::slice_subrange;

verus! {

broadcast use vstd::std_specs::control_flow::group_control_flow_axioms;

/// Structural size of an expression, the termination measure of the
/// mutually recursive lowering functions.
pub open spec fn expr_size(e: Expression) -> nat
    decreases e,
{
    match e {
        Expression::StructInit(_, fields) => 1 + fields_size(fields@),
        Expression::ListInit(_, items) => 1 + exprs_size(items@),
        Expression::MapInit(_, _, pairs) => 1 + pairs_size(pairs@),
        Expression::FieldAccess(t, _) => 1 + expr_size(*t),
        Expression::At(a, b) => 1 + expr_size(*a) + expr_size(*b),
        Expression::Push(a, b) => 1 + expr_size(*a) + expr_size(*b),
        Expression::MoveExpr(_) => 1,
        Expression::Take(t) => 1 + expr_size(*t),
        Expression::Len(t) => 1 + expr_size(*t),
        Expression::Ref(t) => 1 + expr_size(*t),
        Expression::Deref(t) => 1 + expr_size(*t),
        Expression::Call(f, args) => 1 + expr_size(*f) + exprs_size(args@),
        Expression::RunCall(t) => 1 + expr_size(*t),
        Expression::Mul(a, b) => 1 + expr_size(*a) + expr_size(*b),
        Expression::Div(a, b) => 1 + expr_size(*a) + expr_size(*b),
        Expression::Add(a, b) => 1 + expr_size(*a) + expr_size(*b),
        Expression::Sub(a, b) => 1 + expr_size(*a) + expr_size(*b),
        Expression::Eq(a, b) => 1 + expr_size(*a) + expr_size(*b),
        Expression::Neq(a, b) => 1 + expr_size(*a) + expr_size(*b),
        Expression::Gt(a, b) => 1 + expr_size(*a) + expr_size(*b),
        Expression::Lt(a, b) => 1 + expr_size(*a) + expr_size(*b),
        Expression::Geq(a, b) => 1 + expr_size(*a) + expr_size(*b),
        Expression::Leq(a, b) => 1 + expr_size(*a) + expr_size(*b),
        Expression::Range(a, b) => 1 + expr_size(*a) + expr_size(*b),
        _ => 1,
    }
}

pub open spec fn exprs_size(es: Seq<Expression>) -> nat
    decreases es,
{
    if es.len() == 0 {
        0
    } else {
        1 + expr_size(es.first()) + exprs_size(es.drop_first())
    }
}

pub open spec fn fields_size(fs: Seq<FieldInit>) -> nat
    decreases fs,
{
    if fs.len() == 0 {
        0
    } else {
        1 + expr_size(fs.first().value) + fields_size(fs.drop_first())
    }
}

pub open spec fn pairs_size(ps: Seq<MapPair>) -> nat
    decreases ps,
{
    if ps.len() == 0 {
        0
    } else {
        1 + expr_size(ps.first().key) + expr_size(ps.first().value) + pairs_size(ps.drop_first())
    }
}

/// A `module.symbol` access: the target is a bare name of an imported
/// module.
pub open spec fn module_access(st: CState, target: Expression) -> bool {
    target matches Expression::Variable(v) && st.imports.contains(v.value@)
}

/// The module name of such an access.
pub open spec fn module_root(target: Expression) -> Seq<char> {
    match target {
        Expression::Variable(v) => v.value@,
        _ => Seq::empty(),
    }
}

/// The root of a field-access chain: the expression whose mutability decides
/// whether an argument may be handed to a pure function.
pub open spec fn arg_root(e: Expression) -> Expression
    decreases e,
{
    match e {
        Expression::FieldAccess(t, _) => arg_root(*t),
        _ => e,
    }
}

/// Whether an argument is rejected when passed to a pure function: its root
/// is a variable recorded as mutable.
pub open spec fn bad_pure_arg(st: CState, e: Expression) -> bool {
    match arg_root(e) {
        Expression::Variable(av) => st.vars.contains_key(av.value@)
            && st.vars[av.value@].is_mutable,
        _ => false,
    }
}

/// Whether a call of `func` lowers to an awaited call: everything but a
/// known pure function.
pub open spec fn call_needs_await(st: CState, func: Expression) -> bool {
    match func {
        Expression::Variable(v) => {
            if st.funcs.contains_key(v.value@) {
                !st.funcs[v.value@].is_pure
            } else {
                true
            }
        },
        _ => true,
    }
}

/// The lowering of a callee position. A name known as a function is emitted
/// directly (so a pure function may call another pure function); anything
/// else lowers as an ordinary expression.
pub open spec fn lower_callee(st: CState, func: Expression) -> (Result<Seq<char>, Fault>, CState)
    decreases expr_size(func), 1nat,
{
    match func {
        Expression::Variable(v) => {
            if st.funcs.contains_key(v.value@) {
                (Ok("("@ + v.value@ + ").clone()"@), st)
            } else {
                lower_expr(st, func)
            }
        },
        _ => lower_expr(st, func),
    }
}

/// Whether some argument is rejected when passed to a pure function.
pub open spec fn any_bad_pure_arg(st: CState, args: Seq<Expression>) -> bool
    decreases args.len(),
{
    if args.len() == 0 {
        false
    } else {
        bad_pure_arg(st, args.first()) || any_bad_pure_arg(st, args.drop_first())
    }
}

/// The checks a call performs before lowering: a pure context may only call
/// pure functions, and a pure callee only takes immutable arguments.
pub open spec fn call_check(st: CState, func: Expression, args: Seq<Expression>) -> Option<Fault> {
    match func {
        Expression::Variable(v) => {
            if st.funcs.contains_key(v.value@) {
                let info = st.funcs[v.value@];
                if st.in_pure && !info.is_pure {
                    Some(Fault::PurityViolation)
                } else if info.is_pure && any_bad_pure_arg(st, args) {
                    Some(Fault::MutableArgToPureFn)
                } else {
                    None
                }
            } else {
                None
            }
        },
        _ => None,
    }
}

/// Specification mirror of expression lowering: the exact emitted text, or
/// the fault, and the state afterwards (`move` marks its source name).
pub open spec fn lower_expr(st: CState, e: Expression) -> (Result<Seq<char>, Fault>, CState)
    decreases expr_size(e), 0nat,
{
    match e {
        Expression::MoveExpr(ident) => {
            let n = ident.value@;
            if st.in_pure {
                (Err(Fault::PurityViolation), st)
            } else if !st.vars.contains_key(n) {
                (Err(Fault::UnknownVariable), st)
            } else if !st.vars[n].is_mutable {
                (Err(Fault::InvalidMove), st)
            } else {
                (
                    Ok("std::mem::take(&mut "@ + n + ")"@),
                    CState { moved: st.moved.insert(n), ..st },
                )
            }
        },
        Expression::Variable(v) => {
            let n = v.value@;
            if is_upper_name(n) {
                (Ok("Err(kiro_error_"@ + n + "())"@), st)
            } else if st.in_pure && !st.pure_params.contains(n) {
                (Err(Fault::PurityViolation), st)
            } else if st.moved.contains(n) {
                (Err(Fault::UseAfterMove), st)
            } else {
                (Ok("("@ + n + ").clone()"@), st)
            }
        },
        Expression::StructInit(name, fields) => {
            let (r, st1) = lower_field_inits(st, fields@);
            match r {
                Ok(txt) => (Ok(name.value@ + " { "@ + txt + " }"@), st1),
                Err(f) => (Err(f), st1),
            }
        },
        Expression::FieldAccess(target, field) => {
            if module_access(st, *target) {
                (Ok(module_root(*target) + "::"@ + field.value@), st)
            } else {
                let (r, st1) = lower_expr(st, *target);
                match r {
                    Ok(t) => (Ok(t + ".kiro_get(|v| v."@ + field.value@ + ".clone())"@), st1),
                    Err(f) => (Err(f), st1),
                }
            }
        },
        Expression::Number(nv) => {
            if has_dot(nv.value@) {
                (Ok(nv.value@), st)
            } else {
                (Ok(nv.value@ + ".0"@), st)
            }
        },
        Expression::StringLit(s) => (Ok("String::from("@ + s.value@ + ")"@), st),
        Expression::BoolLit(b) => {
            match b {
                crate::ast::BoolVal::True => (Ok("true"@), st),
                crate::ast::BoolVal::False => (Ok("false"@), st),
            }
        },
        Expression::AdrInit(inner) => {
            if inner is Void {
                (Ok("0usize"@), st)
            } else {
                (
                    Ok(
                        "Option::<std::sync::Arc<std::sync::Mutex<"@ + type_text(inner)
                            + ">>>::None"@,
                    ),
                    st,
                )
            }
        },
        Expression::PipeInit(t) => {
            if t is Void {
                (
                    Ok("{ let (tx, rx) = async_channel::unbounded(); KiroPipe::<()> { tx, rx } }"@),
                    st,
                )
            } else {
                (
                    Ok(
                        "{ let (tx, rx) = async_channel::unbounded(); KiroPipe::<"@ + type_text(t)
                            + "> { tx, rx } }"@,
                    ),
                    st,
                )
            }
        },
        Expression::Take(ch) => {
            if st.in_pure {
                (Err(Fault::PurityViolation), st)
            } else {
                let (r, st1) = lower_expr(st, *ch);
                match r {
                    Ok(t) => (Ok(t + ".rx.recv().await.unwrap()"@), st1),
                    Err(f) => (Err(f), st1),
                }
            }
        },
        Expression::Ref(t) => {
            let (r, st1) = lower_expr(st, *t);
            match r {
                Ok(v) => (
                    Ok("Some(std::sync::Arc::new(std::sync::Mutex::new("@ + v + ")))"@),
                    st1,
                ),
                Err(f) => (Err(f), st1),
            }
        },
        Expression::Deref(t) => {
            let (r, st1) = lower_expr(st, *t);
            match r {
                Ok(v) => (
                    Ok(
                        "*("@ + v
                            + ".as_ref().expect(\"Dereferencing Void/Null Pointer\").lock().unwrap())"@,
                    ),
                    st1,
                ),
                Err(f) => (Err(f), st1),
            }
        },
        Expression::ListInit(_, items) => {
            let (r, st1) = lower_join(st, items@);
            match r {
                Ok(txt) => (Ok("vec!["@ + txt + "]"@), st1),
                Err(f) => (Err(f), st1),
            }
        },
        Expression::MapInit(_, _, pairs) => {
            let (r, st1) = lower_pairs(st, pairs@);
            match r {
                Ok(txt) => (Ok("std::collections::HashMap::from(["@ + txt + "])"@), st1),
                Err(f) => (Err(f), st1),
            }
        },
        Expression::At(col, key) => {
            let (r, st1) = lower_expr(st, *col);
            match r {
                Ok(c) => {
                    let (r2, st2) = lower_expr(st1, *key);
                    match r2 {
                        Ok(k) => (Ok(c + ".kiro_at("@ + k + ")"@), st2),
                        Err(f) => (Err(f), st2),
                    }
                },
                Err(f) => (Err(f), st1),
            }
        },
        Expression::Push(list, val) => {
            let (r, st1) = lower_expr(st, *list);
            match r {
                Ok(l) => {
                    let (r2, st2) = lower_expr(st1, *val);
                    match r2 {
                        Ok(v) => (Ok(l + ".push("@ + v + ")"@), st2),
                        Err(f) => (Err(f), st2),
                    }
                },
                Err(f) => (Err(f), st1),
            }
        },
        Expression::Add(lhs, rhs) => {
            let (r, st1) = lower_expr(st, *lhs);
            match r {
                Ok(l) => {
                    let (r2, st2) = lower_expr(st1, *rhs);
                    match r2 {
                        Ok(rr) => (Ok("("@ + l + ".kiro_add("@ + rr + "))"@), st2),
                        Err(f) => (Err(f), st2),
                    }
                },
                Err(f) => (Err(f), st1),
            }
        },
        Expression::Len(e1) => {
            let (r, st1) = lower_expr(st, *e1);
            match r {
                Ok(t) => (Ok(t + ".kiro_len()"@), st1),
                Err(f) => (Err(f), st1),
            }
        },
        Expression::Sub(lhs, rhs) => lower_binop(st, *lhs, *rhs, " - "@),
        Expression::Mul(lhs, rhs) => lower_binop(st, *lhs, *rhs, " * "@),
        Expression::Div(lhs, rhs) => lower_binop(st, *lhs, *rhs, " / "@),
        Expression::Eq(lhs, rhs) => lower_binop(st, *lhs, *rhs, " == "@),
        Expression::Neq(lhs, rhs) => lower_binop(st, *lhs, *rhs, " != "@),
        Expression::Gt(lhs, rhs) => lower_binop(st, *lhs, *rhs, " > "@),
        Expression::Lt(lhs, rhs) => lower_binop(st, *lhs, *rhs, " < "@),
        Expression::Geq(lhs, rhs) => lower_binop(st, *lhs, *rhs, " >= "@),
        Expression::Leq(lhs, rhs) => lower_binop(st, *lhs, *rhs, " <= "@),
        Expression::Range(s, e1) => {
            let (r, st1) = lower_expr(st, *s);
            match r {
                Ok(a) => {
                    let (r2, st2) = lower_expr(st1, *e1);
                    match r2 {
                        Ok(b) => (Ok("(("@ + a + " as i64)..("@ + b + " as i64))"@), st2),
                        Err(f) => (Err(f), st2),
                    }
                },
                Err(f) => (Err(f), st1),
            }
        },
        Expression::Call(func, args) => lower_call_site(st, *func, args@),
        Expression::RunCall(ce) => lower_run_call(st, *ce),
    }
}

/// Mirror of `run` lowering: a call target spawns as an independent task,
/// a pure target wrapped in an asynchronous shim first; anything else
/// lowers to a comment.
pub open spec fn lower_run_call(st: CState, ce: Expression) -> (Result<Seq<char>, Fault>, CState)
    decreases expr_size(ce), 2nat,
{
    match ce {
        Expression::Call(func, args) => {
            let pure_target = (*func) matches Expression::Variable(v) && st.funcs.contains_key(
                v.value@,
            ) && st.funcs[v.value@].is_pure;
            let (r, st1) = lower_callee(st, *func);
            match r {
                Ok(fname) => {
                    let (r2, st2) = lower_args(st1, args@);
                    match r2 {
                        Ok(a) => {
                            if pure_target {
                                (
                                    Ok("tokio::spawn(async move { "@ + fname + "("@ + a + ") })"@),
                                    st2,
                                )
                            } else {
                                (Ok("tokio::spawn("@ + fname + "("@ + a + "))"@), st2)
                            }
                        },
                        Err(f) => (Err(f), st2),
                    }
                },
                Err(f) => (Err(f), st1),
            }
        },
        _ => (Ok("/* Error: run must be followed by a function call */"@), st),
    }
}

/// Mirror of call lowering: the purity checks, the callee, the arguments,
/// and an await on everything but a known pure function.
pub open spec fn lower_call_site(st: CState, func: Expression, args: Seq<Expression>) -> (Result<
    Seq<char>,
    Fault,
>, CState)
    decreases expr_size(func) + exprs_size(args), 3nat,
{
    match call_check(st, func, args) {
        Some(f) => (Err(f), st),
        None => {
            let (r, st1) = lower_callee(st, func);
            match r {
                Ok(fname) => {
                    let (r2, st2) = lower_args(st1, args);
                    match r2 {
                        Ok(a) => {
                            if call_needs_await(st, func) {
                                (Ok(fname + "("@ + a + ")"@ + ".await"@), st2)
                            } else {
                                (Ok(fname + "("@ + a + ")"@), st2)
                            }
                        },
                        Err(f) => (Err(f), st2),
                    }
                },
                Err(f) => (Err(f), st1),
            }
        },
    }
}

/// Binary operators that lower to `(lhs OP rhs)`.
pub open spec fn lower_binop(st: CState, lhs: Expression, rhs: Expression, op: Seq<char>) -> (
    Result<Seq<char>, Fault>,
    CState,
)
    decreases expr_size(lhs) + expr_size(rhs), 0nat,
{
    let (r, st1) = lower_expr(st, lhs);
    match r {
        Ok(l) => {
            let (r2, st2) = lower_expr(st1, rhs);
            match r2 {
                Ok(rr) => (Ok("("@ + l + op + rr + ")"@), st2),
                Err(f) => (Err(f), st2),
            }
        },
        Err(f) => (Err(f), st1),
    }
}

/// Expressions lowered in order and joined with `, `.
pub open spec fn lower_join(st: CState, es: Seq<Expression>) -> (Result<Seq<char>, Fault>, CState)
    decreases exprs_size(es), 0nat,
{
    if es.len() == 0 {
        (Ok(Seq::empty()), st)
    } else {
        let (r, st1) = lower_expr(st, es.first());
        match r {
            Ok(piece) => {
                if es.len() == 1 {
                    (Ok(piece), st1)
                } else {
                    let (r2, st2) = lower_join(st1, es.drop_first());
                    match r2 {
                        Ok(rest) => (Ok(piece + ", "@ + rest), st2),
                        Err(f) => (Err(f), st2),
                    }
                }
            },
            Err(f) => (Err(f), st1),
        }
    }
}

/// Call arguments: each lowered as `(text).clone()`, joined with `, `.
pub open spec fn lower_args(st: CState, es: Seq<Expression>) -> (Result<Seq<char>, Fault>, CState)
    decreases exprs_size(es), 0nat,
{
    if es.len() == 0 {
        (Ok(Seq::empty()), st)
    } else {
        let (r, st1) = lower_expr(st, es.first());
        match r {
            Ok(a) => {
                let piece = "("@ + a + ").clone()"@;
                if es.len() == 1 {
                    (Ok(piece), st1)
                } else {
                    let (r2, st2) = lower_args(st1, es.drop_first());
                    match r2 {
                        Ok(rest) => (Ok(piece + ", "@ + rest), st2),
                        Err(f) => (Err(f), st2),
                    }
                }
            },
            Err(f) => (Err(f), st1),
        }
    }
}

/// Struct-literal fields: each `name: value`, joined with `, `.
pub open spec fn lower_field_inits(st: CState, fs: Seq<FieldInit>) -> (
    Result<Seq<char>, Fault>,
    CState,
)
    decreases fields_size(fs), 0nat,
{
    if fs.len() == 0 {
        (Ok(Seq::empty()), st)
    } else {
        let (r, st1) = lower_expr(st, fs.first().value);
        match r {
            Ok(v) => {
                let piece = fs.first().name.value@ + ": "@ + v;
                if fs.len() == 1 {
                    (Ok(piece), st1)
                } else {
                    let (r2, st2) = lower_field_inits(st1, fs.drop_first());
                    match r2 {
                        Ok(rest) => (Ok(piece + ", "@ + rest), st2),
                        Err(f) => (Err(f), st2),
                    }
                }
            },
            Err(f) => (Err(f), st1),
        }
    }
}

/// Map-literal entries: each `(key, value)`, joined with `, `.
pub open spec fn lower_pairs(st: CState, ps: Seq<MapPair>) -> (Result<Seq<char>, Fault>, CState)
    decreases pairs_size(ps), 0nat,
{
    if ps.len() == 0 {
        (Ok(Seq::empty()), st)
    } else {
        let (r, st1) = lower_expr(st, ps.first().key);
        match r {
            Ok(k) => {
                let (r2, st2) = lower_expr(st1, ps.first().value);
                match r2 {
                    Ok(v) => {
                        let piece = "("@ + k + ", "@ + v + ")"@;
                        if ps.len() == 1 {
                            (Ok(piece), st2)
                        } else {
                            let (r3, st3) = lower_pairs(st2, ps.drop_first());
                            match r3 {
                                Ok(rest) => (Ok(piece + ", "@ + rest), st3),
                                Err(f) => (Err(f), st3),
                            }
                        }
                    },
                    Err(f) => (Err(f), st2),
                }
            },
            Err(f) => (Err(f), st1),
        }
    }
}

/// Assignment targets: a plain name, a field chain, or a dereference.
pub open spec fn lower_lvalue(st: CState, e: Expression) -> (Result<Seq<char>, Fault>, CState)
    decreases expr_size(e), 0nat,
{
    match e {
        Expression::Variable(v) => (Ok(v.value@), st),
        Expression::FieldAccess(t, f) => {
            let (r, st1) = lower_lvalue(st, *t);
            match r {
                Ok(lv) => (Ok(lv + "."@ + f.value@), st1),
                Err(fa) => (Err(fa), st1),
            }
        },
        Expression::Deref(t) => {
            let (r, st1) = lower_expr(st, *t);
            match r {
                Ok(p) => (Ok("*("@ + p + ".lock().unwrap())"@), st1),
                Err(f) => (Err(f), st1),
            }
        },
        _ => (Err(Fault::InvalidLValue), st),
    }
}

fn str_has_dot(s: &String) -> (r: bool)
    ensures
        r == has_dot(s@),
{
    let n = s.as_str().unicode_len();
    let mut i: usize = 0;
    while i < n
        invariant
            i <= n,
            n == s@.len(),
            forall|j: int| 0 <= j < i ==> s@[j] != '.',
        decreases n - i,
    {
        if s.as_str().get_char(i) == '.' {
            proof {
                assert(s@[i as int] == '.');
            }
            return true;
        }
        i = i + 1;
    }
    false
}

fn str_is_upper_name(s: &String) -> (r: bool)
    ensures
        r == is_upper_name(s@),
{
    let n = s.as_str().unicode_len();
    if n == 0 {
        return false;
    }
    let c = s.as_str().get_char(0);
    (c as u32) >= 65 && (c as u32) <= 90
}

/// The executable root of a field-access chain.
pub fn root_of<'a>(e: &'a Expression) -> (r: &'a Expression)
    ensures
        *r == arg_root(*e),
    decreases *e,
{
    match e {
        Expression::FieldAccess(t, _) => root_of(t),
        _ => e,
    }
}

impl Compiler {
    /// Lowers one expression; the result and the state change are exactly
    /// those of `lower_expr`.
    #[verifier::rlimit(100)]
    pub fn compile_expr(&mut self, expr: &Expression) -> (r: Result<String, Fault>)
        ensures
            ({
                let (m, st) = lower_expr(old(self)@, *expr);
                final(self)@ == st && res_matches(r, m)
            }),
        decreases expr_size(*expr), 2nat,
    {
        match expr {
            Expression::MoveExpr(ident) => {
                if self.in_pure_context {
                    return Err(Fault::PurityViolation);
                }
                match self.known_vars.get(&ident.value) {
                    Some(info) => {
                        if !info.is_mutable {
                            return Err(Fault::InvalidMove);
                        }
                    },
                    None => {
                        return Err(Fault::UnknownVariable);
                    },
                }
                self.moved_vars.insert(ident.value.clone());
                let mut out = String::from_str("std::mem::take(&mut ");
                out.append(ident.value.as_str());
                out.append(")");
                Ok(out)
            },
            Expression::Variable(v) => {
                if str_is_upper_name(&v.value) {
                    let mut out = String::from_str("Err(kiro_error_");
                    out.append(v.value.as_str());
                    out.append("())");
                    return Ok(out);
                }
                if self.in_pure_context && !self.pure_scope_params.contains(&v.value) {
                    return Err(Fault::PurityViolation);
                }
                if self.moved_vars.contains(&v.value) {
                    return Err(Fault::UseAfterMove);
                }
                let mut out = String::from_str("(");
                out.append(v.value.as_str());
                out.append(").clone()");
                Ok(out)
            },
            Expression::StructInit(_, _) => self.compile_expr_rest(expr),
            Expression::FieldAccess(_, _) => self.compile_expr_rest(expr),
            Expression::Number(_) => self.compile_expr_rest(expr),
            Expression::StringLit(_) => self.compile_expr_rest(expr),
            Expression::BoolLit(_) => self.compile_expr_rest(expr),
            Expression::AdrInit(_) => self.compile_expr_rest(expr),
            Expression::PipeInit(_) => self.compile_expr_rest(expr),
            Expression::Take(_) => self.compile_expr_rest(expr),
            Expression::Ref(_) => self.compile_expr_rest(expr),
            Expression::Deref(_) => self.compile_expr_rest(expr),
            Expression::ListInit(_, _) => self.compile_expr_rest(expr),
            Expression::MapInit(_, _, _) => self.compile_expr_rest(expr),
            Expression::At(_, _) => self.compile_expr_ops(expr),
            Expression::Push(_, _) => self.compile_expr_ops(expr),
            Expression::Add(_, _) => self.compile_expr_ops(expr),
            Expression::Len(_) => self.compile_expr_ops(expr),
            Expression::Sub(lhs, rhs) => self.compile_binop(lhs, rhs, " - "),
            Expression::Mul(lhs, rhs) => self.compile_binop(lhs, rhs, " * "),
            Expression::Div(lhs, rhs) => self.compile_binop(lhs, rhs, " / "),
            Expression::Eq(lhs, rhs) => self.compile_binop(lhs, rhs, " == "),
            Expression::Neq(lhs, rhs) => self.compile_binop(lhs, rhs, " != "),
            Expression::Gt(lhs, rhs) => self.compile_binop(lhs, rhs, " > "),
            Expression::Lt(lhs, rhs) => self.compile_binop(lhs, rhs, " < "),
            Expression::Geq(lhs, rhs) => self.compile_binop(lhs, rhs, " >= "),
            Expression::Leq(lhs, rhs) => self.compile_binop(lhs, rhs, " <= "),
            Expression::Range(_, _) => self.compile_expr_ops(expr),
            Expression::Call(func, args) => self.compile_call_site(func, args),
            Expression::RunCall(ce) => self.compile_run_call(ce),
        }
    }

    #[verifier::rlimit(100)]
    fn compile_expr_ops(&mut self, expr: &Expression) -> (r: Result<String, Fault>)
        requires
            expr matches Expression::At(_, _) || expr matches Expression::Push(_, _)
                || expr matches Expression::Add(_, _) || expr matches Expression::Len(_)
                || expr matches Expression::Range(_, _),
        ensures
            ({
                let (m, st) = lower_expr(old(self)@, *expr);
                final(self)@ == st && res_matches(r, m)
            }),
        decreases expr_size(*expr), 0nat,
    {
        match expr {
            Expression::At(col, key) => {
                let c = match self.compile_expr(col) {
                    Ok(t) => t,
                    Err(f) => {
                        return Err(f);
                    },
                };
                let k = match self.compile_expr(key) {
                    Ok(t) => t,
                    Err(f) => {
                        return Err(f);
                    },
                };
                let mut out = c;
                out.append(".kiro_at(");
                out.append(k.as_str());
                out.append(")");
                Ok(out)
            },
            Expression::Push(list, val) => {
                let l = match self.compile_expr(list) {
                    Ok(t) => t,
                    Err(f) => {
                        return Err(f);
                    },
                };
                let v = match self.compile_expr(val) {
                    Ok(t) => t,
                    Err(f) => {
                        return Err(f);
                    },
                };
                let mut out = l;
                out.append(".push(");
                out.append(v.as_str());
                out.append(")");
                Ok(out)
            },
            Expression::Add(lhs, rhs) => {
                let l = match self.compile_expr(lhs) {
                    Ok(t) => t,
                    Err(f) => {
                        return Err(f);
                    },
                };
                let rr = match self.compile_expr(rhs) {
                    Ok(t) => t,
                    Err(f) => {
                        return Err(f);
                    },
                };
                let mut out = String::from_str("(");
                out.append(l.as_str());
                out.append(".kiro_add(");
                out.append(rr.as_str());
                out.append("))");
                Ok(out)
            },
            Expression::Len(e1) => {
                let t = match self.compile_expr(e1) {
                    Ok(t) => t,
                    Err(f) => {
                        return Err(f);
                    },
                };
                let mut out = t;
                out.append(".kiro_len()");
                Ok(out)
            },
            Expression::Range(s, e1) => {
                let a = match self.compile_expr(s) {
                    Ok(t) => t,
                    Err(f) => {
                        return Err(f);
                    },
                };
                let b = match self.compile_expr(e1) {
                    Ok(t) => t,
                    Err(f) => {
                        return Err(f);
                    },
                };
                let mut out = String::from_str("((");
                out.append(a.as_str());
                out.append(" as i64)..(");
                out.append(b.as_str());
                out.append(" as i64))");
                Ok(out)
            },
            _ => Err(Fault::InvalidLValue),
        }
    }

    #[verifier::rlimit(100)]
    fn compile_expr_rest(&mut self, expr: &Expression) -> (r: Result<String, Fault>)
        requires
            !(expr matches Expression::MoveExpr(_)) && !(expr matches Expression::Variable(_)) && !(
            expr matches Expression::At(_, _)) && !(expr matches Expression::Push(_, _)) && !(
            expr matches Expression::Add(_, _)) && !(expr matches Expression::Len(_)) && !(
            expr matches Expression::Sub(_, _)) && !(expr matches Expression::Mul(_, _)) && !(
            expr matches Expression::Div(_, _)) && !(expr matches Expression::Eq(_, _)) && !(
            expr matches Expression::Neq(_, _)) && !(expr matches Expression::Gt(_, _)) && !(
            expr matches Expression::Lt(_, _)) && !(expr matches Expression::Geq(_, _)) && !(
            expr matches Expression::Leq(_, _)) && !(expr matches Expression::Range(_, _)) && !(
            expr matches Expression::Call(_, _)) && !(expr matches Expression::RunCall(_)),
        ensures
            ({
                let (m, st) = lower_expr(old(self)@, *expr);
                final(self)@ == st && res_matches(r, m)
            }),
        decreases expr_size(*expr), 0nat,
    {
        match expr {
            Expression::StructInit(name, fields) => {
                let txt = match self.compile_field_inits(fields.as_slice()) {
                    Ok(t) => t,
                    Err(f) => {
                        return Err(f);
                    },
                };
                let mut out = name.value.clone();
                out.append(" { ");
                out.append(txt.as_str());
                out.append(" }");
                Ok(out)
            },
            Expression::FieldAccess(target, field) => {
                if let Expression::Variable(v) = &**target {
                    if self.imported_modules.contains(&v.value) {
                        let mut out = v.value.clone();
                        out.append("::");
                        out.append(field.value.as_str());
                        return Ok(out);
                    }
                }
                let t = match self.compile_expr(target) {
                    Ok(t) => t,
                    Err(f) => {
                        return Err(f);
                    },
                };
                let mut out = t;
                out.append(".kiro_get(|v| v.");
                out.append(field.value.as_str());
                out.append(".clone())");
                Ok(out)
            },
            Expression::Number(nv) => {
                if str_has_dot(&nv.value) {
                    Ok(nv.value.clone())
                } else {
                    let mut out = nv.value.clone();
                    out.append(".0");
                    Ok(out)
                }
            },
            Expression::StringLit(s) => {
                let mut out = String::from_str("String::from(");
                out.append(s.value.as_str());
                out.append(")");
                Ok(out)
            },
            Expression::BoolLit(b) => {
                match b {
                    crate::ast::BoolVal::True => Ok(String::from_str("true")),
                    crate::ast::BoolVal::False => Ok(String::from_str("false")),
                }
            },
            Expression::AdrInit(inner) => {
                if let KiroType::Void = inner {
                    Ok(String::from_str("0usize"))
                } else {
                    let mut out = String::from_str("Option::<std::sync::Arc<std::sync::Mutex<");
                    let t = compile_type(inner);
                    out.append(t.as_str());
                    out.append(">>>::None");
                    Ok(out)
                }
            },
            Expression::PipeInit(t) => {
                if let KiroType::Void = t {
                    Ok(
                        String::from_str(
                            "{ let (tx, rx) = async_channel::unbounded(); KiroPipe::<()> { tx, rx } }",
                        ),
                    )
                } else {
                    let mut out = String::from_str(
                        "{ let (tx, rx) = async_channel::unbounded(); KiroPipe::<",
                    );
                    let tt = compile_type(t);
                    out.append(tt.as_str());
                    out.append("> { tx, rx } }");
                    Ok(out)
                }
            },
            Expression::Take(ch) => {
                if self.in_pure_context {
                    return Err(Fault::PurityViolation);
                }
                let t = match self.compile_expr(ch) {
                    Ok(t) => t,
                    Err(f) => {
                        return Err(f);
                    },
                };
                let mut out = t;
                out.append(".rx.recv().await.unwrap()");
                Ok(out)
            },
            Expression::Ref(t) => {
                let v = match self.compile_expr(t) {
                    Ok(t) => t,
                    Err(f) => {
                        return Err(f);
                    },
                };
                let mut out = String::from_str("Some(std::sync::Arc::new(std::sync::Mutex::new(");
                out.append(v.as_str());
                out.append(")))");
                Ok(out)
            },
            Expression::Deref(t) => {
                let v = match self.compile_expr(t) {
                    Ok(t) => t,
                    Err(f) => {
                        return Err(f);
                    },
                };
                let mut out = String::from_str("*(");
                out.append(v.as_str());
                out.append(".as_ref().expect(\"Dereferencing Void/Null Pointer\").lock().unwrap())");
                Ok(out)
            },
            Expression::ListInit(_, items) => {
                let txt = match self.compile_join(items.as_slice()) {
                    Ok(t) => t,
                    Err(f) => {
                        return Err(f);
                    },
                };
                let mut out = String::from_str("vec![");
                out.append(txt.as_str());
                out.append("]");
                Ok(out)
            },
            Expression::MapInit(_, _, pairs) => {
                let txt = match self.compile_pairs(pairs.as_slice()) {
                    Ok(t) => t,
                    Err(f) => {
                        return Err(f);
                    },
                };
                let mut out = String::from_str("std::collections::HashMap::from([");
                out.append(txt.as_str());
                out.append("])");
                Ok(out)
            },
            _ => Err(Fault::InvalidLValue),
        }
    }

    #[verifier::rlimit(100)]
    fn compile_run_call(&mut self, ce: &Expression) -> (r: Result<String, Fault>)
        ensures
            ({
                let (m, st) = lower_run_call(old(self)@, *ce);
                final(self)@ == st && res_matches(r, m)
            }),
        decreases expr_size(*ce), 2nat,
    {
        match ce {
            Expression::Call(func, args) => {
                let pure_target = match &**func {
                    Expression::Variable(v) => {
                        match self.functions.get(&v.value) {
                            Some(info) => info.is_pure,
                            None => false,
                        }
                    },
                    _ => false,
                };
                let fname = match self.compile_callee(func) {
                    Ok(t) => t,
                    Err(f) => {
                        return Err(f);
                    },
                };
                let a = match self.compile_args(args.as_slice()) {
                    Ok(t) => t,
                    Err(f) => {
                        return Err(f);
                    },
                };
                if pure_target {
                    let mut out = String::from_str("tokio::spawn(async move { ");
                    out.append(fname.as_str());
                    out.append("(");
                    out.append(a.as_str());
                    out.append(") })");
                    Ok(out)
                } else {
                    let mut out = String::from_str("tokio::spawn(");
                    out.append(fname.as_str());
                    out.append("(");
                    out.append(a.as_str());
                    out.append("))");
                    Ok(out)
                }
            },
            _ => Ok(String::from_str("/* Error: run must be followed by a function call */")),
        }
    }

    #[verifier::rlimit(100)]
    fn compile_call_site(&mut self, func: &Expression, args: &Vec<Expression>) -> (r: Result<
        String,
        Fault,
    >)
        ensures
            ({
                let (m, st) = lower_call_site(old(self)@, *func, args@);
                final(self)@ == st && res_matches(r, m)
            }),
        decreases expr_size(*func) + exprs_size(args@), 4nat,
    {
        match self.check_call(func, args.as_slice()) {
            Some(f) => {
                return Err(f);
            },
            None => {},
        }
        let needs_await = match func {
            Expression::Variable(v) => {
                match self.functions.get(&v.value) {
                    Some(info) => !info.is_pure,
                    None => true,
                }
            },
            _ => true,
        };
        let fname = match self.compile_callee(func) {
            Ok(t) => t,
            Err(f) => {
                return Err(f);
            },
        };
        let a = match self.compile_args(args.as_slice()) {
            Ok(t) => t,
            Err(f) => {
                return Err(f);
            },
        };
        let mut out = fname;
        out.append("(");
        out.append(a.as_str());
        out.append(")");
        if needs_await {
            out.append(".await");
        }
        Ok(out)
    }

    #[verifier::rlimit(100)]
    fn compile_binop(&mut self, lhs: &Expression, rhs: &Expression, op: &str) -> (r: Result<
        String,
        Fault,
    >)
        ensures
            ({
                let (m, st) = lower_binop(old(self)@, *lhs, *rhs, op@);
                final(self)@ == st && res_matches(r, m)
            }),
        decreases expr_size(*lhs) + expr_size(*rhs), 0nat,
    {
        let l = match self.compile_expr(lhs) {
            Ok(t) => t,
            Err(f) => {
                return Err(f);
            },
        };
        let rr = match self.compile_expr(rhs) {
            Ok(t) => t,
            Err(f) => {
                return Err(f);
            },
        };
        let mut out = String::from_str("(");
        out.append(l.as_str());
        out.append(op);
        out.append(rr.as_str());
        out.append(")");
        Ok(out)
    }

    /// The pre-lowering checks of a call; `None` means the call is allowed.
    fn check_call(&self, func: &Expression, args: &[Expression]) -> (r: Option<Fault>)
        ensures
            r == call_check(self@, *func, args@),
    {
        if let Expression::Variable(v) = func {
            let info = match self.functions.get(&v.value) {
                Some(info) => *info,
                None => {
                    return None;
                },
            };
            if self.in_pure_context && !info.is_pure {
                return Some(Fault::PurityViolation);
            }
            if info.is_pure {
                let n = args.len();
                let mut i: usize = 0;
                proof {
                    assert(args@.skip(0) =~= args@);
                }
                while i < n
                    invariant
                        i <= n,
                        n == args@.len(),
                        any_bad_pure_arg(self@, args@) == any_bad_pure_arg(
                            self@,
                            args@.skip(i as int),
                        ),
                        self@.funcs.contains_key(v.value@),
                        self@.funcs[v.value@].is_pure,
                        !(self@.in_pure && !self@.funcs[v.value@].is_pure),
                        *func == Expression::Variable(*v),
                    decreases n - i,
                {
                    proof {
                        assert(args@.skip(i as int).first() == args@[i as int]);
                        assert(args@.skip(i as int).drop_first() =~= args@.skip(i + 1));
                    }
                    let root = root_of(slice_index_get(args, i));
                    if let Expression::Variable(av) = root {
                        match self.known_vars.get(&av.value) {
                            Some(vi) => {
                                if vi.is_mutable {
                                    proof {
                                        assert(bad_pure_arg(self@, args@[i as int]));
                                        assert(any_bad_pure_arg(self@, args@.skip(i as int)));
                                    }
                                    return Some(Fault::MutableArgToPureFn);
                                }
                            },
                            None => {},
                        }
                    }
                    proof {
                        assert(!bad_pure_arg(self@, args@[i as int]));
                    }
                    i = i + 1;
                }
                proof {
                    assert(args@.skip(n as int).len() == 0);
                    assert(!any_bad_pure_arg(self@, args@));
                }
                return None;
            }
            None
        } else {
            None
        }
    }

    /// Lowers a callee position as `lower_callee` states.
    #[verifier::rlimit(100)]
    fn compile_callee(&mut self, func: &Expression) -> (r: Result<String, Fault>)
        ensures
            ({
                let (m, st) = lower_callee(old(self)@, *func);
                final(self)@ == st && res_matches(r, m)
            }),
        decreases expr_size(*func), 3nat,
    {
        if let Expression::Variable(v) = func {
            if self.functions.contains(&v.value) {
                let mut out = String::from_str("(");
                out.append(v.value.as_str());
                out.append(").clone()");
                return Ok(out);
            }
        }
        self.compile_expr(func)
    }

    fn compile_join(&mut self, es: &[Expression]) -> (r: Result<String, Fault>)
        ensures
            ({
                let (m, st) = lower_join(old(self)@, es@);
                final(self)@ == st && res_matches(r, m)
            }),
        decreases exprs_size(es@), 0nat,
    {
        if es.len() == 0 {
            return Ok(String::new());
        }
        let first = match self.compile_expr(slice_index_get(es, 0)) {
            Ok(t) => t,
            Err(f) => {
                return Err(f);
            },
        };
        if es.len() == 1 {
            return Ok(first);
        }
        let rest = match self.compile_join(slice_subrange(es, 1, es.len())) {
            Ok(t) => t,
            Err(f) => {
                return Err(f);
            },
        };
        let mut out = first;
        out.append(", ");
        out.append(rest.as_str());
        Ok(out)
    }

    fn compile_args(&mut self, es: &[Expression]) -> (r: Result<String, Fault>)
        ensures
            ({
                let (m, st) = lower_args(old(self)@, es@);
                final(self)@ == st && res_matches(r, m)
            }),
        decreases exprs_size(es@), 0nat,
    {
        if es.len() == 0 {
            return Ok(String::new());
        }
        let a = match self.compile_expr(slice_index_get(es, 0)) {
            Ok(t) => t,
            Err(f) => {
                return Err(f);
            },
        };
        let mut piece = String::from_str("(");
        piece.append(a.as_str());
        piece.append(").clone()");
        if es.len() == 1 {
            return Ok(piece);
        }
        let rest = match self.compile_args(slice_subrange(es, 1, es.len())) {
            Ok(t) => t,
            Err(f) => {
                return Err(f);
            },
        };
        let mut out = piece;
        out.append(", ");
        out.append(rest.as_str());
        Ok(out)
    }

    fn compile_field_inits(&mut self, fs: &[FieldInit]) -> (r: Result<String, Fault>)
        ensures
            ({
                let (m, st) = lower_field_inits(old(self)@, fs@);
                final(self)@ == st && res_matches(r, m)
            }),
        decreases fields_size(fs@), 0nat,
    {
        if fs.len() == 0 {
            return Ok(String::new());
        }
        let v = match self.compile_expr(&slice_index_get(fs, 0).value) {
            Ok(t) => t,
            Err(f) => {
                return Err(f);
            },
        };
        let mut piece = slice_index_get(fs, 0).name.value.clone();
        piece.append(": ");
        piece.append(v.as_str());
        if fs.len() == 1 {
            return Ok(piece);
        }
        let rest = match self.compile_field_inits(slice_subrange(fs, 1, fs.len())) {
            Ok(t) => t,
            Err(f) => {
                return Err(f);
            },
        };
        let mut out = piece;
        out.append(", ");
        out.append(rest.as_str());
        Ok(out)
    }

    fn compile_pairs(&mut self, ps: &[MapPair]) -> (r: Result<String, Fault>)
        ensures
            ({
                let (m, st) = lower_pairs(old(self)@, ps@);
                final(self)@ == st && res_matches(r, m)
            }),
        decreases pairs_size(ps@), 0nat,
    {
        if ps.len() == 0 {
            return Ok(String::new());
        }
        let k = match self.compile_expr(&slice_index_get(ps, 0).key) {
            Ok(t) => t,
            Err(f) => {
                return Err(f);
            },
        };
        let v = match self.compile_expr(&slice_index_get(ps, 0).value) {
            Ok(t) => t,
            Err(f) => {
                return Err(f);
            },
        };
        let mut piece = String::from_str("(");
        piece.append(k.as_str());
        piece.append(", ");
        piece.append(v.as_str());
        piece.append(")");
        if ps.len() == 1 {
            return Ok(piece);
        }
        let rest = match self.compile_pairs(slice_subrange(ps, 1, ps.len())) {
            Ok(t) => t,
            Err(f) => {
                return Err(f);
            },
        };
        let mut out = piece;
        out.append(", ");
        out.append(rest.as_str());
        Ok(out)
    }

    /// Lowers an assignment target as `lower_lvalue` states.
    #[verifier::rlimit(100)]
    pub fn compile_lvalue(&mut self, expr: &Expression) -> (r: Result<String, Fault>)
        ensures
            ({
                let (m, st) = lower_lvalue(old(self)@, *expr);
                final(self)@ == st && res_matches(r, m)
            }),
        decreases expr_size(*expr), 0nat,
    {
        match expr {
            Expression::Variable(v) => Ok(v.value.clone()),
            Expression::FieldAccess(t, f) => {
                let lv = match self.compile_lvalue(t) {
                    Ok(t) => t,
                    Err(fa) => {
                        return Err(fa);
                    },
                };
                let mut out = lv;
                out.append(".");
                out.append(f.value.as_str());
                Ok(out)
            },
            Expression::Deref(t) => {
                let p = match self.compile_expr(t) {
                    Ok(t) => t,
                    Err(f) => {
                        return Err(f);
                    },
                };
                let mut out = String::from_str("*(");
                out.append(p.as_str());
                out.append(".lock().unwrap())");
                Ok(out)
            },
            _ => Err(Fault::InvalidLValue),
        }
    }
}

} // verus!
