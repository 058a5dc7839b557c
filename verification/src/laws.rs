//! The laws of the semantic core, stated against the specification mirrors
//! and proved once and for all: the binding rules of the shared tracker
//! (`semantics` holds their table-level forms), the move rule, the
//! propagate-by-default error handling, the arity rule, and the one-way,
//! idempotent channel close.

use vstd::prelude::*;

use crate::ast::Block;
use crate::ast::ErrorClause;
use crate::ast::ErrorClauseList;
use crate::ast::Expression;
use crate::ast::FieldInit;
use crate::ast::LoopFilter;
use crate::ast::MapPair;
use crate::ast::OffClause;
use crate::ast::Program;
use crate::ast::Statement;
use crate::ast::VariableVal;
use crate::semantics::Fault;
use crate::semantics::VarInfo;
use crate::compiler::CState;
use crate::compiler::expression::expr_size;
use crate::compiler::expression::exprs_size;
use crate::compiler::expression::fields_size;
use crate::compiler::expression::lower_binop;
use crate::compiler::expression::lower_call_site;
use crate::compiler::expression::lower_callee;
use crate::compiler::expression::lower_expr;
use crate::compiler::expression::lower_args;
use crate::compiler::expression::lower_field_inits;
use crate::compiler::expression::lower_join;
use crate::compiler::expression::lower_pairs;
use crate::compiler::expression::lower_run_call;
use crate::compiler::expression::pairs_size;
use crate::compiler::statement::lower_block;
use crate::compiler::statement::lower_clauses;
use crate::compiler::statement::lower_stmt;
use crate::interpreter::IState;
use crate::interpreter::StmtRes;
use crate::interpreter::close_s;
use crate::interpreter::expression::CmpOp;
use crate::interpreter::expression::NumOp;
use crate::interpreter::expression::any_bad_pure_arg_i;
use crate::interpreter::expression::eval_call_s;
use crate::interpreter::expression::eval_cmp_s;
use crate::interpreter::expression::eval_expr_s;
use crate::interpreter::expression::eval_fields_s;
use crate::interpreter::expression::eval_num_binop_s;
use crate::interpreter::expression::eval_pairs_s;
use crate::interpreter::expression::evals_s;
use crate::interpreter::statement::assign_s;
use crate::interpreter::statement::exec_block_s;
use crate::interpreter::statement::run_clauses_s;
use crate::interpreter::values::FuncEntry;
use crate::interpreter::values::Val;

verus! {

/// Everything expression lowering leaves alone: it can only grow the move
/// set, and it never rejects a program with the immutable-mutation fault —
/// that fault belongs to assignment statements alone.
pub open spec fn expr_frame(st: CState, r: Result<Seq<char>, Fault>, st1: CState) -> bool {
    st1.vars == st.vars && st1.funcs == st.funcs && st1.imports == st.imports
        && st1.pure_params == st.pure_params && st1.in_pure == st.in_pure && st1.in_failable
        == st.in_failable && r != Err::<Seq<char>, Fault>(Fault::ImmutableMutation)
}

#[verifier::rlimit(100)]
#[verifier::spinoff_prover]
pub proof fn lemma_lower_expr_frame(st: CState, e: Expression)
    ensures
        ({
            let (r, st1) = lower_expr(st, e);
            expr_frame(st, r, st1)
        }),
    decreases expr_size(e), 2nat,
{
    match e {
        Expression::StructInit(_, fields) => {
            lemma_lower_field_inits_frame(st, fields@);
        },
        Expression::ListInit(_, items) => {
            lemma_lower_join_frame(st, items@);
        },
        Expression::MapInit(_, _, pairs) => {
            lemma_lower_pairs_frame(st, pairs@);
        },
        Expression::FieldAccess(t, _) => {
            lemma_lower_expr_frame(st, *t);
        },
        Expression::At(a, b) => {
            lemma_lower_expr_frame(st, *a);
            let (r1, st1) = lower_expr(st, *a);
            if r1 is Ok {
                lemma_lower_expr_frame(st1, *b);
            }
        },
        Expression::Push(a, b) => {
            lemma_lower_expr_frame(st, *a);
            let (r1, st1) = lower_expr(st, *a);
            if r1 is Ok {
                lemma_lower_expr_frame(st1, *b);
            }
        },
        Expression::Take(t) => {
            if !st.in_pure {
                lemma_lower_expr_frame(st, *t);
            }
        },
        Expression::Len(t) => {
            lemma_lower_expr_frame(st, *t);
        },
        Expression::Ref(t) => {
            lemma_lower_expr_frame(st, *t);
        },
        Expression::Deref(t) => {
            lemma_lower_expr_frame(st, *t);
        },
        Expression::Add(a, b) => {
            lemma_lower_expr_frame(st, *a);
            let (r1, st1) = lower_expr(st, *a);
            if r1 is Ok {
                lemma_lower_expr_frame(st1, *b);
            }
        },
        Expression::Range(a, b) => {
            lemma_lower_expr_frame(st, *a);
            let (r1, st1) = lower_expr(st, *a);
            if r1 is Ok {
                lemma_lower_expr_frame(st1, *b);
            }
        },
        Expression::Sub(a, b) => {
            lemma_lower_binop_frame(st, *a, *b, " - "@);
        },
        Expression::Mul(a, b) => {
            lemma_lower_binop_frame(st, *a, *b, " * "@);
        },
        Expression::Div(a, b) => {
            lemma_lower_binop_frame(st, *a, *b, " / "@);
        },
        Expression::Eq(a, b) => {
            lemma_lower_binop_frame(st, *a, *b, " == "@);
        },
        Expression::Neq(a, b) => {
            lemma_lower_binop_frame(st, *a, *b, " != "@);
        },
        Expression::Gt(a, b) => {
            lemma_lower_binop_frame(st, *a, *b, " > "@);
        },
        Expression::Lt(a, b) => {
            lemma_lower_binop_frame(st, *a, *b, " < "@);
        },
        Expression::Geq(a, b) => {
            lemma_lower_binop_frame(st, *a, *b, " >= "@);
        },
        Expression::Leq(a, b) => {
            lemma_lower_binop_frame(st, *a, *b, " <= "@);
        },
        Expression::Call(f, args) => {
            lemma_lower_call_site_frame(st, *f, args@);
        },
        Expression::RunCall(ce) => {
            lemma_lower_run_call_frame(st, *ce);
        },
        _ => {},
    }
}

#[verifier::rlimit(100)]
#[verifier::spinoff_prover]
proof fn lemma_lower_binop_frame(st: CState, lhs: Expression, rhs: Expression, op: Seq<char>)
    ensures
        ({
            let (r, st1) = lower_binop(st, lhs, rhs, op);
            expr_frame(st, r, st1)
        }),
    decreases expr_size(lhs) + expr_size(rhs), 0nat,
{
    lemma_lower_expr_frame(st, lhs);
    let (r1, st1) = lower_expr(st, lhs);
    if r1 is Ok {
        lemma_lower_expr_frame(st1, rhs);
    }
}

#[verifier::rlimit(100)]
#[verifier::spinoff_prover]
proof fn lemma_lower_callee_frame(st: CState, func: Expression)
    ensures
        ({
            let (r, st1) = lower_callee(st, func);
            expr_frame(st, r, st1)
        }),
    decreases expr_size(func), 3nat,
{
    match func {
        Expression::Variable(v) => {
            if !st.funcs.contains_key(v.value@) {
                lemma_lower_expr_frame(st, func);
            }
        },
        _ => {
            lemma_lower_expr_frame(st, func);
        },
    }
}

#[verifier::rlimit(100)]
#[verifier::spinoff_prover]
proof fn lemma_lower_call_site_frame(st: CState, func: Expression, args: Seq<Expression>)
    ensures
        ({
            let (r, st1) = lower_call_site(st, func, args);
            expr_frame(st, r, st1)
        }),
    decreases expr_size(func) + exprs_size(args), 4nat,
{
    if crate::compiler::expression::call_check(st, func, args) is None {
        lemma_lower_callee_frame(st, func);
        let (r1, st1) = lower_callee(st, func);
        if r1 is Ok {
            lemma_lower_args_frame(st1, args);
        }
    }
}

#[verifier::rlimit(100)]
#[verifier::spinoff_prover]
proof fn lemma_lower_run_call_frame(st: CState, ce: Expression)
    ensures
        ({
            let (r, st1) = lower_run_call(st, ce);
            expr_frame(st, r, st1)
        }),
    decreases expr_size(ce), 2nat,
{
    match ce {
        Expression::Call(f, args) => {
            lemma_lower_callee_frame(st, *f);
            let (r1, st1) = lower_callee(st, *f);
            if r1 is Ok {
                lemma_lower_args_frame(st1, args@);
            }
        },
        _ => {},
    }
}

#[verifier::rlimit(100)]
#[verifier::spinoff_prover]
proof fn lemma_lower_join_frame(st: CState, es: Seq<Expression>)
    ensures
        ({
            let (r, st1) = lower_join(st, es);
            expr_frame(st, r, st1)
        }),
    decreases exprs_size(es), 0nat,
{
    if es.len() > 0 {
        lemma_lower_expr_frame(st, es.first());
        let (r1, st1) = lower_expr(st, es.first());
        if r1 is Ok && es.len() > 1 {
            lemma_lower_join_frame(st1, es.drop_first());
        }
    }
}

#[verifier::rlimit(100)]
#[verifier::spinoff_prover]
proof fn lemma_lower_args_frame(st: CState, es: Seq<Expression>)
    ensures
        ({
            let (r, st1) = lower_args(st, es);
            expr_frame(st, r, st1)
        }),
    decreases exprs_size(es), 0nat,
{
    if es.len() > 0 {
        lemma_lower_expr_frame(st, es.first());
        let (r1, st1) = lower_expr(st, es.first());
        if r1 is Ok && es.len() > 1 {
            lemma_lower_args_frame(st1, es.drop_first());
        }
    }
}

#[verifier::rlimit(100)]
#[verifier::spinoff_prover]
proof fn lemma_lower_field_inits_frame(st: CState, fs: Seq<FieldInit>)
    ensures
        ({
            let (r, st1) = lower_field_inits(st, fs);
            expr_frame(st, r, st1)
        }),
    decreases fields_size(fs), 0nat,
{
    if fs.len() > 0 {
        lemma_lower_expr_frame(st, fs.first().value);
        let (r1, st1) = lower_expr(st, fs.first().value);
        if r1 is Ok && fs.len() > 1 {
            lemma_lower_field_inits_frame(st1, fs.drop_first());
        }
    }
}

#[verifier::rlimit(100)]
#[verifier::spinoff_prover]
proof fn lemma_lower_pairs_frame(st: CState, ps: Seq<MapPair>)
    ensures
        ({
            let (r, st1) = lower_pairs(st, ps);
            expr_frame(st, r, st1)
        }),
    decreases pairs_size(ps), 0nat,
{
    if ps.len() > 0 {
        lemma_lower_expr_frame(st, ps.first().key);
        let (r1, st1) = lower_expr(st, ps.first().key);
        if r1 is Ok {
            lemma_lower_expr_frame(st1, ps.first().value);
            let (r2, st2) = lower_expr(st1, ps.first().value);
            if r2 is Ok && ps.len() > 1 {
                lemma_lower_pairs_frame(st2, ps.drop_first());
            }
        }
    }
}

/// Declaring a name with the mutable form, then assigning to it, never
/// fails compilation with the immutable-mutation fault, whatever the
/// right-hand side: lowering an expression cannot change the mutability
/// table and cannot itself raise that fault.
#[verifier::rlimit(100)]
#[verifier::spinoff_prover]
pub proof fn law_compile_mutable_decl_then_assign(st: CState, xv: VariableVal, rhs: Expression)
    ensures
        ({
            let st1 = CState {
                vars: st.vars.insert(xv.value@, VarInfo { is_mutable: true }),
                ..st
            };
            lower_stmt(
                st1,
                Statement::AssignStmt { lhs: Expression::Variable(xv), rhs },
            ).0 != Err::<Seq<char>, Fault>(Fault::ImmutableMutation)
        }),
{
    let st1 = CState { vars: st.vars.insert(xv.value@, VarInfo { is_mutable: true }), ..st };
    lemma_lower_expr_frame(st1, rhs);
}

/// Assigning to a fresh name declares it immutable, so a second assignment
/// to the same name is rejected with the immutable-mutation fault (or with
/// whatever fault its own right-hand side raises first).
#[verifier::rlimit(100)]
#[verifier::spinoff_prover]
pub proof fn law_compile_fresh_assign_then_assign(
    st: CState,
    xv: VariableVal,
    rhs1: Expression,
    rhs2: Expression,
)
    requires
        !st.vars.contains_key(xv.value@),
        lower_expr(st, rhs1).0 is Ok,
    ensures
        ({
            let (r1, st1) = lower_stmt(
                st,
                Statement::AssignStmt { lhs: Expression::Variable(xv), rhs: rhs1 },
            );
            let (r2, _) = lower_stmt(
                st1,
                Statement::AssignStmt { lhs: Expression::Variable(xv), rhs: rhs2 },
            );
            r1 is Ok && st1.vars[xv.value@] == (VarInfo { is_mutable: false }) && (lower_expr(
                st1,
                rhs2,
            ).0 is Ok ==> r2 == Err::<Seq<char>, Fault>(Fault::ImmutableMutation))
        }),
{
    lemma_lower_expr_frame(st, rhs1);
    let (r1, st1) = lower_stmt(
        st,
        Statement::AssignStmt { lhs: Expression::Variable(xv), rhs: rhs1 },
    );
    lemma_lower_expr_frame(st1, rhs2);
}

/// Reading a name after `move` consumed it fails with the use-after-move
/// fault, with the state — its printed output included — untouched.
#[verifier::rlimit(100)]
#[verifier::spinoff_prover]
pub proof fn law_read_after_move(
    mods: Map<Seq<char>, Program>,
    st: IState,
    xv: VariableVal,
    fuel: nat,
)
    requires
        !st.errors.contains_key(xv.value@),
        !st.pure_mode,
        st.env.contains_key(xv.value@),
        st.env[xv.value@].0 is Moved,
    ensures
        eval_expr_s(mods, st, Expression::Variable(xv), fuel) == (
            Err::<Val, Fault>(Fault::UseAfterMove),
            st,
        ),
{
    reveal_with_fuel(eval_expr_s, 1);
}

/// `move` on a mutable binding hands its value out and invalidates the
/// binding: the name stays bound, marked moved.
#[verifier::rlimit(100)]
#[verifier::spinoff_prover]
pub proof fn law_move_invalidates(
    mods: Map<Seq<char>, Program>,
    st: IState,
    xv: VariableVal,
    fuel: nat,
)
    requires
        !st.pure_mode,
        st.env.contains_key(xv.value@),
        st.env[xv.value@].1,
    ensures
        ({
            let (r, st1) = eval_expr_s(mods, st, Expression::MoveExpr(xv), fuel);
            r == Ok::<Val, Fault>(st.env[xv.value@].0) && st1.env[xv.value@].0 is Moved
                && st1.env[xv.value@].1 == st.env[xv.value@].1 && st1.output == st.output
        }),
{
    reveal_with_fuel(eval_expr_s, 1);
}

/// Propagation by default: a matched error handler whose block completes
/// normally with `void` re-raises the original error as the statement's
/// result; a handler must return a substitute value to swallow it.
#[verifier::rlimit(100)]
#[verifier::spinoff_prover]
pub proof fn law_error_propagates_by_default(
    mods: Map<Seq<char>, Program>,
    st: IState,
    l: crate::ast::ErrorClauseList,
    en: Seq<char>,
    ed: Seq<char>,
    fuel: nat,
)
    requires
        match l.first.error_type {
            Some(t) => t@ == en,
            None => true,
        },
        exec_block_s(mods, st, l.first.body, fuel).0 == Ok::<StmtRes, Fault>(
            StmtRes::Normal(Val::Void),
        ),
    ensures
        run_clauses_s(mods, st, l, en, ed, fuel).0 == Ok::<StmtRes, Fault>(
            StmtRes::Return(Val::ErrorVal(en, ed)),
        ),
{
    reveal_with_fuel(run_clauses_s, 1);
}

/// The arity rule: a call whose argument count differs from the callee's
/// parameter count fails with the arity fault; no parameter is silently
/// defaulted.
#[verifier::rlimit(100)]
#[verifier::spinoff_prover]
pub proof fn law_call_arity(
    mods: Map<Seq<char>, Program>,
    st: IState,
    fv: VariableVal,
    args: Seq<Expression>,
    fuel: nat,
)
    requires
        st.funcs.contains_key(fv.value@),
        st.funcs[fv.value@] matches FuncEntry::User(def) && !(def.is_pure && any_bad_pure_arg_i(
            st,
            args,
        )) && (evals_s(mods, st, args, fuel).0 matches Ok(vs) && def.params@.len() != vs.len()),
    ensures
        eval_call_s(mods, st, Expression::Variable(fv), args, fuel).0 == Err::<Val, Fault>(
            Fault::ArityMismatch,
        ),
{
    reveal_with_fuel(eval_call_s, 1);
}

/// Closing a channel is idempotent: closing twice leaves exactly the state
/// one close leaves, and raises no fault either time.
#[verifier::rlimit(100)]
#[verifier::spinoff_prover]
pub proof fn law_close_idempotent(channels: Seq<(Seq<i64>, bool)>, id: int)
    ensures
        close_s(close_s(channels, id), id) == close_s(channels, id),
{
    if 0 <= id < channels.len() {
        assert(close_s(close_s(channels, id), id) =~= close_s(channels, id));
    }
}

/// Assignment through the interpreter follows the binding rules exactly:
/// with the right-hand side evaluated, a mutable binding is updated, an
/// unknown name becomes an immutable binding, and an immutable binding is
/// rejected with the immutable-mutation fault.
#[verifier::rlimit(100)]
#[verifier::spinoff_prover]
pub proof fn law_interp_assign_outcomes(
    mods: Map<Seq<char>, Program>,
    st: IState,
    xv: VariableVal,
    rhs: Expression,
    fuel: nat,
)
    requires
        eval_expr_s(mods, st, rhs, fuel).0 is Ok,
    ensures
        ({
            let (rv, st1) = eval_expr_s(mods, st, rhs, fuel);
            let (r, st2) = assign_s(mods, st, Expression::Variable(xv), rhs, fuel);
            let n = xv.value@;
            &&& (st1.env.contains_key(n) && st1.env[n].1 ==> r == Ok::<StmtRes, Fault>(
                StmtRes::Normal(Val::Void),
            ) && st2.env == st1.env.insert(n, (rv->Ok_0, true)))
            &&& (st1.env.contains_key(n) && !st1.env[n].1 ==> r == Err::<StmtRes, Fault>(
                Fault::ImmutableMutation,
            ))
            &&& (!st1.env.contains_key(n) ==> r == Ok::<StmtRes, Fault>(StmtRes::Normal(Val::Void))
                && st2.env == st1.env.insert(n, (rv->Ok_0, false)))
        }),
{
    reveal_with_fuel(assign_s, 1);
}


/// What expression evaluation leaves of the environment: every binding
/// stays bound, with its mutability flag unchanged — `move` only swaps a
/// mutable binding's value for the moved marker, and a call restores the
/// caller's frame wholesale, also around an early return or a fault.
pub open spec fn env_frame(st: IState, st1: IState) -> bool {
    forall|n: Seq<char>| #[trigger]
        st.env.contains_key(n) ==> st1.env.contains_key(n) && st1.env[n].1 == st.env[n].1
}

proof fn lemma_env_frame_trans(a: IState, b: IState, c: IState)
    requires
        env_frame(a, b),
        env_frame(b, c),
    ensures
        env_frame(a, c),
{
    assert forall|n: Seq<char>| #[trigger] a.env.contains_key(n) implies c.env.contains_key(n)
        && c.env[n].1 == a.env[n].1 by {
        assert(b.env.contains_key(n) && b.env[n].1 == a.env[n].1);
    }
}

#[verifier::rlimit(100)]
#[verifier::spinoff_prover]
pub proof fn lemma_eval_env_frame(mods: Map<Seq<char>, Program>, st: IState, e: Expression, fuel: nat)
    ensures
        env_frame(st, eval_expr_s(mods, st, e, fuel).1),
    decreases fuel, crate::compiler::expression::expr_size(e), 2nat,
{
    reveal_with_fuel(eval_expr_s, 1);
    match e {
        Expression::StructInit(_, fields) => {
            lemma_eval_fields_env_frame(mods, st, fields@, fuel);
        },
        Expression::ListInit(_, items) => {
            lemma_evals_env_frame(mods, st, items@, fuel);
        },
        Expression::MapInit(_, _, pairs) => {
            lemma_eval_pairs_env_frame(mods, st, pairs@, fuel);
        },
        Expression::FieldAccess(t, _) => {
            lemma_eval_env_frame(mods, st, *t, fuel);
        },
        Expression::Take(t) => {
            if !st.pure_mode {
                lemma_eval_env_frame(mods, st, *t, fuel);
            }
        },
        Expression::Ref(t) => {
            lemma_eval_env_frame(mods, st, *t, fuel);
        },
        Expression::Deref(t) => {
            lemma_eval_env_frame(mods, st, *t, fuel);
        },
        Expression::Len(t) => {
            lemma_eval_env_frame(mods, st, *t, fuel);
        },
        Expression::At(a, b) => {
            lemma_eval_env_frame(mods, st, *a, fuel);
            let (r1, st1) = eval_expr_s(mods, st, *a, fuel);
            if r1 is Ok {
                lemma_eval_env_frame(mods, st1, *b, fuel);
                lemma_env_frame_trans(st, st1, eval_expr_s(mods, st1, *b, fuel).1);
            }
        },
        Expression::Push(a, b) => {
            lemma_eval_env_frame(mods, st, *a, fuel);
            let (r1, st1) = eval_expr_s(mods, st, *a, fuel);
            if r1 is Ok {
                lemma_eval_env_frame(mods, st1, *b, fuel);
                lemma_env_frame_trans(st, st1, eval_expr_s(mods, st1, *b, fuel).1);
            }
        },
        Expression::Range(a, b) => {
            lemma_eval_env_frame(mods, st, *a, fuel);
            let (r1, st1) = eval_expr_s(mods, st, *a, fuel);
            if r1 is Ok {
                lemma_eval_env_frame(mods, st1, *b, fuel);
                lemma_env_frame_trans(st, st1, eval_expr_s(mods, st1, *b, fuel).1);
            }
        },
        Expression::Add(a, b) => {
            lemma_eval_env_frame(mods, st, *a, fuel);
            let (r1, st1) = eval_expr_s(mods, st, *a, fuel);
            if r1 is Ok {
                lemma_eval_env_frame(mods, st1, *b, fuel);
                lemma_env_frame_trans(st, st1, eval_expr_s(mods, st1, *b, fuel).1);
            }
        },
        Expression::Eq(a, b) => {
            lemma_eval_env_frame(mods, st, *a, fuel);
            let (r1, st1) = eval_expr_s(mods, st, *a, fuel);
            if r1 is Ok {
                lemma_eval_env_frame(mods, st1, *b, fuel);
                lemma_env_frame_trans(st, st1, eval_expr_s(mods, st1, *b, fuel).1);
            }
        },
        Expression::Neq(a, b) => {
            lemma_eval_env_frame(mods, st, *a, fuel);
            let (r1, st1) = eval_expr_s(mods, st, *a, fuel);
            if r1 is Ok {
                lemma_eval_env_frame(mods, st1, *b, fuel);
                lemma_env_frame_trans(st, st1, eval_expr_s(mods, st1, *b, fuel).1);
            }
        },
        Expression::Sub(a, b) => {
            lemma_eval_num_binop_env_frame(mods, st, *a, *b, NumOp::Sub, fuel);
        },
        Expression::Mul(a, b) => {
            lemma_eval_num_binop_env_frame(mods, st, *a, *b, NumOp::Mul, fuel);
        },
        Expression::Div(a, b) => {
            lemma_eval_num_binop_env_frame(mods, st, *a, *b, NumOp::Div, fuel);
        },
        Expression::Gt(a, b) => {
            lemma_eval_cmp_env_frame(mods, st, *a, *b, CmpOp::Gt, fuel);
        },
        Expression::Lt(a, b) => {
            lemma_eval_cmp_env_frame(mods, st, *a, *b, CmpOp::Lt, fuel);
        },
        Expression::Geq(a, b) => {
            lemma_eval_cmp_env_frame(mods, st, *a, *b, CmpOp::Geq, fuel);
        },
        Expression::Leq(a, b) => {
            lemma_eval_cmp_env_frame(mods, st, *a, *b, CmpOp::Leq, fuel);
        },
        Expression::Call(f, args) => {
            lemma_eval_call_env_frame(mods, st, *f, args@, fuel);
        },
        Expression::RunCall(ce) => {
            lemma_eval_env_frame(mods, st, *ce, fuel);
        },
        _ => {},
    }
}

#[verifier::rlimit(100)]
#[verifier::spinoff_prover]
proof fn lemma_eval_num_binop_env_frame(
    mods: Map<Seq<char>, Program>,
    st: IState,
    l: Expression,
    r: Expression,
    op: NumOp,
    fuel: nat,
)
    ensures
        env_frame(st, eval_num_binop_s(mods, st, l, r, op, fuel).1),
    decreases fuel, crate::compiler::expression::expr_size(l)
        + crate::compiler::expression::expr_size(r), 2nat,
{
    lemma_eval_env_frame(mods, st, l, fuel);
    let (r1, st1) = eval_expr_s(mods, st, l, fuel);
    if r1 is Ok {
        lemma_eval_env_frame(mods, st1, r, fuel);
        lemma_env_frame_trans(st, st1, eval_expr_s(mods, st1, r, fuel).1);
    }
}

#[verifier::rlimit(100)]
#[verifier::spinoff_prover]
proof fn lemma_eval_cmp_env_frame(
    mods: Map<Seq<char>, Program>,
    st: IState,
    l: Expression,
    r: Expression,
    op: CmpOp,
    fuel: nat,
)
    ensures
        env_frame(st, eval_cmp_s(mods, st, l, r, op, fuel).1),
    decreases fuel, crate::compiler::expression::expr_size(l)
        + crate::compiler::expression::expr_size(r), 2nat,
{
    lemma_eval_env_frame(mods, st, l, fuel);
    let (r1, st1) = eval_expr_s(mods, st, l, fuel);
    if r1 is Ok {
        lemma_eval_env_frame(mods, st1, r, fuel);
        lemma_env_frame_trans(st, st1, eval_expr_s(mods, st1, r, fuel).1);
    }
}

#[verifier::rlimit(100)]
#[verifier::spinoff_prover]
proof fn lemma_evals_env_frame(
    mods: Map<Seq<char>, Program>,
    st: IState,
    es: Seq<Expression>,
    fuel: nat,
)
    ensures
        env_frame(st, evals_s(mods, st, es, fuel).1),
    decreases fuel, crate::compiler::expression::exprs_size(es), 0nat,
{
    if es.len() > 0 {
        lemma_eval_env_frame(mods, st, es.first(), fuel);
        let (r1, st1) = eval_expr_s(mods, st, es.first(), fuel);
        if r1 is Ok {
            lemma_evals_env_frame(mods, st1, es.drop_first(), fuel);
            lemma_env_frame_trans(st, st1, evals_s(mods, st1, es.drop_first(), fuel).1);
        }
    }
}

#[verifier::rlimit(100)]
#[verifier::spinoff_prover]
proof fn lemma_eval_fields_env_frame(
    mods: Map<Seq<char>, Program>,
    st: IState,
    fs: Seq<FieldInit>,
    fuel: nat,
)
    ensures
        env_frame(st, eval_fields_s(mods, st, fs, fuel).1),
    decreases fuel, crate::compiler::expression::fields_size(fs), 0nat,
{
    if fs.len() > 0 {
        lemma_eval_env_frame(mods, st, fs.first().value, fuel);
        let (r1, st1) = eval_expr_s(mods, st, fs.first().value, fuel);
        if r1 is Ok {
            lemma_eval_fields_env_frame(mods, st1, fs.drop_first(), fuel);
            lemma_env_frame_trans(st, st1, eval_fields_s(mods, st1, fs.drop_first(), fuel).1);
        }
    }
}

#[verifier::rlimit(100)]
#[verifier::spinoff_prover]
proof fn lemma_eval_pairs_env_frame(
    mods: Map<Seq<char>, Program>,
    st: IState,
    ps: Seq<MapPair>,
    fuel: nat,
)
    ensures
        env_frame(st, eval_pairs_s(mods, st, ps, fuel).1),
    decreases fuel, crate::compiler::expression::pairs_size(ps), 0nat,
{
    if ps.len() > 0 {
        lemma_eval_env_frame(mods, st, ps.first().key, fuel);
        let (r1, st1) = eval_expr_s(mods, st, ps.first().key, fuel);
        if r1 is Ok {
            lemma_eval_env_frame(mods, st1, ps.first().value, fuel);
            let (r2, st2) = eval_expr_s(mods, st1, ps.first().value, fuel);
            lemma_env_frame_trans(st, st1, st2);
            if r2 is Ok {
                lemma_eval_pairs_env_frame(mods, st2, ps.drop_first(), fuel);
                lemma_env_frame_trans(st, st2, eval_pairs_s(mods, st2, ps.drop_first(), fuel).1);
            }
        }
    }
}

#[verifier::rlimit(100)]
#[verifier::spinoff_prover]
proof fn lemma_eval_call_env_frame(
    mods: Map<Seq<char>, Program>,
    st: IState,
    func: Expression,
    args: Seq<Expression>,
    fuel: nat,
)
    ensures
        env_frame(st, eval_call_s(mods, st, func, args, fuel).1),
    decreases fuel, crate::compiler::expression::expr_size(func)
        + crate::compiler::expression::exprs_size(args), 3nat,
{
    reveal_with_fuel(eval_call_s, 1);
    match func {
        Expression::FieldAccess(t, _) => {
            lemma_eval_env_frame(mods, st, *t, fuel);
        },
        _ => {},
    }
    let st0 = match func {
        Expression::FieldAccess(t, _) => eval_expr_s(mods, st, *t, fuel).1,
        _ => st,
    };
    lemma_evals_env_frame(mods, st0, args, fuel);
    let st1 = evals_s(mods, st0, args, fuel).1;
    lemma_env_frame_trans(st, st0, st1);
}

/// Declaring a name with the mutable form, then assigning to it, follows
/// the binding rules in the interpreter: the reassignment itself never
/// trips the immutable-mutation rule (only code the right-hand side runs
/// can fault), and with the right-hand side evaluated the binding holds
/// the new value, still mutable — however often this is repeated.
#[verifier::rlimit(100)]
#[verifier::spinoff_prover]
pub proof fn law_interp_mutable_decl_then_assign(
    mods: Map<Seq<char>, Program>,
    st: IState,
    xv: VariableVal,
    v: Val,
    rhs: Expression,
    fuel: nat,
)
    ensures
        ({
            let n = xv.value@;
            let st1 = IState { env: st.env.insert(n, (v, true)), ..st };
            let (re, ste) = eval_expr_s(mods, st1, rhs, fuel);
            let (r, st2) = assign_s(mods, st1, Expression::Variable(xv), rhs, fuel);
            &&& (r == Err::<StmtRes, Fault>(Fault::ImmutableMutation) ==> re == Err::<
                Val,
                Fault,
            >(Fault::ImmutableMutation))
            &&& (re matches Ok(nv) ==> r == Ok::<StmtRes, Fault>(StmtRes::Normal(Val::Void))
                && st2.env == ste.env.insert(n, (nv, true)))
        }),
{
    reveal_with_fuel(assign_s, 1);
    let n = xv.value@;
    let st1 = IState { env: st.env.insert(n, (v, true)), ..st };
    lemma_eval_env_frame(mods, st1, rhs, fuel);
    assert(st1.env.contains_key(n) && st1.env[n].1);
}

/// In a fallible function, a named error handler lowers to a tag test
/// whose block ends by re-raising the original error, so a handler that
/// completes normally propagates it; only an explicit `return` inside the
/// handler emits a substitute result instead.
#[verifier::rlimit(100)]
#[verifier::spinoff_prover]
pub proof fn law_compile_handler_reraises(st: CState, tag: String, body: Block)
    ensures
        ({
            let l = ErrorClauseList {
                first: ErrorClause { error_type: Some(tag), body },
                rest: None,
            };
            let (rb, stb) = lower_block(st, body);
            let (rc, st1) = lower_clauses(st, l);
            match rb {
                Ok(bt) => {
                    let clause_body = if stb.in_failable {
                        bt + " return Err(__kiro_err);"@
                    } else {
                        bt
                    };
                    rc == Ok::<(Seq<char>, bool), Fault>(
                        (
                            "if __kiro_err.to_string().contains(\""@ + tag@ + "\") { "@
                                + clause_body + " }"@,
                            false,
                        ),
                    ) && st1 == stb
                },
                Err(f) => rc == Err::<(Seq<char>, bool), Fault>(f) && st1 == stb,
            }
        }),
{
}

/// `close` lowers to the channel sender's close call, a one-way and
/// idempotent operation: a program closing the same pipe twice lowers to
/// two such statements and is rejected by nothing.
#[verifier::rlimit(100)]
#[verifier::spinoff_prover]
pub proof fn law_compile_close(st: CState, ch: Expression)
    ensures
        ({
            let (rc, st1) = lower_expr(st, ch);
            match rc {
                Ok(c) => lower_stmt(st, Statement::Close(ch)) == (
                    Ok::<Seq<char>, Fault>(c + ".tx.close();"@),
                    st1,
                ),
                Err(f) => lower_stmt(st, Statement::Close(ch)) == (
                    Err::<Seq<char>, Fault>(f),
                    st1,
                ),
            }
        }),
{
}

/// Reading a moved name is rejected at compile time with the
/// use-after-move fault, before any code could be emitted for it.
#[verifier::rlimit(100)]
#[verifier::spinoff_prover]
pub proof fn law_compile_use_after_move(st: CState, xv: VariableVal)
    requires
        !crate::compiler::is_upper_name(xv.value@),
        !(st.in_pure && !st.pure_params.contains(xv.value@)),
        st.moved.contains(xv.value@),
    ensures
        lower_expr(st, Expression::Variable(xv)) == (
            Err::<Seq<char>, Fault>(Fault::UseAfterMove),
            st,
        ),
{
}

/// A filtered iterator loop lowers to a plain loop over the iterable whose
/// body is a per-item conditional between the loop body and the `off`
/// block: the filter never pre-filters the sequence, which is what makes
/// the body and the `off` block alternate item by item.
#[verifier::rlimit(100)]
#[verifier::spinoff_prover]
pub proof fn law_compile_loop_filter_per_item(
    st: CState,
    iterator: String,
    iterable: Expression,
    fc: LoopFilter,
    body: Block,
    off: OffClause,
)
    ensures
        ({
            let (re, st1) = lower_expr(st, iterable);
            let (rf, st2) = lower_expr(st1, fc.condition);
            let (rb, st3) = lower_block(st2, body);
            let (rc, st4) = lower_block(st3, off.body);
            match (re, rf, rb, rc) {
                (Ok(et), Ok(ft), Ok(bt), Ok(ct)) => lower_stmt(
                    st,
                    Statement::LoopIter {
                        iterator,
                        iterable,
                        step: None,
                        filter: Some(fc),
                        body,
                        else_clause: Some(off),
                    },
                ) == (
                    Ok::<Seq<char>, Fault>(
                        "for "@ + iterator@ + "_temp in "@ + (et + ".kiro_iter()"@)
                            + " { let "@ + iterator@ + " = "@ + iterator@ + "_temp.as_kiro(); "@
                            + ("{ if "@ + ft + " "@ + bt + " "@ + "else "@ + ct + " }"@) + " }"@,
                    ),
                    CState {
                        vars: st4.vars.insert(iterator@, VarInfo { is_mutable: false }),
                        ..st4
                    },
                ),
                _ => true,
            }
        }),
{
}

} // verus!
