//! Statement execution: blocks thread a tail value and stop at the first
//! control-flow signal; loops intercept `break` and `continue`; `on`
//! matches tagged error values against handlers with
//! propagate-by-default semantics; `import` runs a pre-resolved module in
//! a fresh interpreter and captures its bindings.

use vstd::prelude::*;

use crate::ast::Block;
use crate::ast::ErrorClauseList;
use crate::ast::Expression;
use crate::ast::LoopFilter;
use crate::ast::Program;
use crate::ast::Statement;
use crate::semantics::Fault;
use crate::tables::NameSet;
use crate::tables::Table;
use crate::compiler::expression::expr_size;
use crate::compiler::statement::block_size;
use crate::compiler::statement::clauses_size;
use crate::compiler::statement::opt_block_size;
use crate::compiler::statement::params_set;
use crate::compiler::statement::stmt_size;
use crate::compiler::statement::stmts_size;
use super::Chan;
use super::IState;
use super::Interpreter;
use super::StatementResult;
use super::StmtRes;
use super::chans_vw;
use super::close_s;
use super::env_vw;
use super::give_s;
use super::initial_istate;
use super::lemma_map_values_insert;
use super::rv_res_matches;
use super::sr_res_matches;
use super::srw;
use super::expression::as_num_s;
use super::expression::eval_expr_s;
use super::values::FuncEntry;
use super::values::RuntimeVal;
use super::values::Val;
use super::values::Value;
use super::values::assoc_find_v;
use super::values::exports_vw;
use super::values::find_field;
use super::values::funcs_vw;
use super::values::items_vw;
use super::values::lemma_items_vw;
use super::values::lemma_pairs_vw;
use super::values::pairs_vw;
use super::values::truthy;
use super::values::rv_size;
use super::values::vw;
use crate::tables::assoc_view;
use vstd::slice::slice_index_get;
use vstd::slice::slice_subrange;

verus! {

/// The evaluation budget of one program run: it bounds call depth, module
/// nesting and loop iterations, so a diverging program is reported as out
/// of budget instead of hanging the analysis.
pub const DEFAULT_FUEL: u64 = 1000000;

/// The root name of an assignment target chain.
pub open spec fn tgt_root(e: Expression) -> Option<Seq<char>>
    decreases e,
{
    match e {
        Expression::Variable(v) => Some(v.value@),
        Expression::FieldAccess(t, _) => tgt_root(*t),
        _ => None,
    }
}

/// The field path of an assignment target chain, outermost field first.
pub open spec fn tgt_path(e: Expression) -> Seq<Seq<char>>
    decreases e,
{
    match e {
        Expression::FieldAccess(t, f) => seq![f.value@] + tgt_path(*t),
        _ => Seq::empty(),
    }
}

/// Updates the newest entry for a key.
pub open spec fn assoc_upd_v(s: Seq<(Seq<char>, Val)>, k: Seq<char>, v: Val) -> Seq<
    (Seq<char>, Val),
>
    decreases s.len(),
{
    if s.len() == 0 {
        s
    } else if s.last().0 == k {
        s.drop_last().push((k, v))
    } else {
        assoc_upd_v(s.drop_last(), k, v).push(s.last())
    }
}

/// Sets a key: updates its newest entry, or appends a new one.
pub open spec fn assoc_set_v(s: Seq<(Seq<char>, Val)>, k: Seq<char>, v: Val) -> Seq<
    (Seq<char>, Val),
> {
    if assoc_find_v(s, k) is Some {
        assoc_upd_v(s, k, v)
    } else {
        s.push((k, v))
    }
}

/// Mirror of a deep field update: the path is walked from its last
/// element; only struct values can be drilled into, and the final field is
/// set whether or not it already exists.
pub open spec fn upd_nested_s(val: Val, path: Seq<Seq<char>>, new: Val) -> Result<Val, Fault>
    decreases path.len(),
{
    if path.len() == 0 {
        Err(Fault::InvalidLValue)
    } else {
        let field = path.last();
        match val {
            Val::Struct(n, flds) => {
                if path.len() == 1 {
                    Ok(Val::Struct(n, assoc_set_v(flds, field, new)))
                } else {
                    match assoc_find_v(flds, field) {
                        Some(inner) => {
                            match upd_nested_s(inner, path.drop_last(), new) {
                                Ok(u) => Ok(Val::Struct(n, assoc_set_v(flds, field, u))),
                                Err(f) => Err(f),
                            }
                        },
                        None => Err(Fault::UnknownField),
                    }
                }
            },
            _ => Err(Fault::NotAStruct),
        }
    }
}

/// The numbers of a stepped range, in order.
pub open spec fn range_items_s(c: int, end: int, step: int) -> Seq<Val>
    decreases (if c < end { end - c } else { 0 }),
        when step >= 1
{
    if c >= end {
        Seq::empty()
    } else {
        seq![Val::Num(c as i64)] + range_items_s(c + step, end, step)
    }
}

/// The characters of a string, as one-character string values.
pub open spec fn str_items_s(s: Seq<char>) -> Seq<Val> {
    s.map_values(|c: char| Val::Str(seq![c]))
}

/// Mirror of statement execution.
#[verifier::opaque]
pub open spec fn exec_stmt_s(
    mods: Map<Seq<char>, Program>,
    st: IState,
    s: Statement,
    fuel: nat,
) -> (Result<StmtRes, Fault>, IState)
    decreases fuel, stmt_size(s), 3nat,
{
    match s {
        Statement::ErrorDef { name, description } => {
            let desc = match description {
                Some(d) => d.value.value@,
                None => Seq::empty(),
            };
            (
                Ok(StmtRes::Normal(Val::Void)),
                IState { errors: st.errors.insert(name@, desc), ..st },
            )
        },
        Statement::StructDef(_) => (Ok(StmtRes::Normal(Val::Void)), st),
        Statement::VarDecl { ident, value } => {
            let (r, st1) = eval_expr_s(mods, st, value, fuel);
            match r {
                Ok(v) => {
                    let st2 = IState { env: st1.env.insert(ident@, (v, true)), ..st1 };
                    let st3 = if st2.pure_mode {
                        IState { pure_names: st2.pure_names.insert(ident@), ..st2 }
                    } else {
                        st2
                    };
                    (Ok(StmtRes::Normal(Val::Void)), st3)
                },
                Err(f) => (Err(f), st1),
            }
        },
        Statement::AssignStmt { lhs, rhs } => assign_s(mods, st, lhs, rhs, fuel),
        Statement::Return(opt) => {
            match opt {
                Some(e) => {
                    let (r, st1) = eval_expr_s(mods, st, e, fuel);
                    match r {
                        Ok(v) => (Ok(StmtRes::Return(v)), st1),
                        Err(f) => (Err(f), st1),
                    }
                },
                None => (Ok(StmtRes::Return(Val::Void)), st),
            }
        },
        Statement::Break => (Ok(StmtRes::Break), st),
        Statement::Continue => (Ok(StmtRes::Continue), st),
        Statement::Print(e) => {
            if st.pure_mode {
                (Err(Fault::PurityViolation), st)
            } else {
                let (r, st1) = eval_expr_s(mods, st, e, fuel);
                match r {
                    Ok(v) => (
                        Ok(StmtRes::Normal(Val::Void)),
                        IState {
                            output: st1.output.push(super::values::render(v)),
                            ..st1
                        },
                    ),
                    Err(f) => (Err(f), st1),
                }
            }
        },
        Statement::ExprStmt(e) => {
            let (r, st1) = eval_expr_s(mods, st, e, fuel);
            match r {
                Ok(v) => (Ok(StmtRes::Normal(v)), st1),
                Err(f) => (Err(f), st1),
            }
        },
        Statement::FunctionDef(def) => (
            Ok(StmtRes::Normal(Val::Void)),
            IState { funcs: st.funcs.insert(def.name@, FuncEntry::User(def)), ..st },
        ),
        Statement::RustFnDecl(def) => (
            Ok(StmtRes::Normal(Val::Void)),
            IState { funcs: st.funcs.insert(def.name@, FuncEntry::Host(def)), ..st },
        ),
        Statement::Documented { .. } => (Ok(StmtRes::Normal(Val::Void)), st),
        Statement::Give(ch, val) => {
            if st.pure_mode {
                (Err(Fault::PurityViolation), st)
            } else {
                let (rc, st1) = eval_expr_s(mods, st, ch, fuel);
                match rc {
                    Ok(cv) => {
                        let (rv, st2) = eval_expr_s(mods, st1, val, fuel);
                        match rv {
                            Ok(vv) => {
                                match as_num_s(vv) {
                                    Ok(x) => {
                                        match cv {
                                            Val::Pipe(id) => {
                                                let (gr, st3) = give_s(st2, id, x);
                                                match gr {
                                                    Ok(()) => (Ok(StmtRes::Normal(Val::Void)), st3),
                                                    Err(f) => (Err(f), st3),
                                                }
                                            },
                                            _ => (Err(Fault::TypeError), st2),
                                        }
                                    },
                                    Err(f) => (Err(f), st2),
                                }
                            },
                            Err(f) => (Err(f), st2),
                        }
                    },
                    Err(f) => (Err(f), st1),
                }
            }
        },
        Statement::Close(ch) => {
            let (rc, st1) = eval_expr_s(mods, st, ch, fuel);
            match rc {
                Ok(cv) => {
                    match cv {
                        Val::Pipe(id) => (
                            Ok(StmtRes::Normal(Val::Void)),
                            IState { channels: close_s(st1.channels, id), ..st1 },
                        ),
                        _ => (Err(Fault::TypeError), st1),
                    }
                },
                Err(f) => (Err(f), st1),
            }
        },
        Statement::On { condition, body, else_clause, error_clauses } => {
            let (r, st1) = eval_expr_s(mods, st, condition, fuel);
            match r {
                Ok(v) => {
                    match v {
                        Val::ErrorVal(en, ed) => {
                            match error_clauses {
                                Some(l) => run_clauses_s(mods, st1, l, en, ed, fuel),
                                None => (Ok(StmtRes::Return(Val::ErrorVal(en, ed))), st1),
                            }
                        },
                        _ => {
                            if truthy(v) {
                                exec_block_s(mods, st1, body, fuel)
                            } else {
                                match else_clause {
                                    Some(c) => exec_block_s(mods, st1, c.body, fuel),
                                    None => (Ok(StmtRes::Normal(Val::Void)), st1),
                                }
                            }
                        },
                    }
                },
                Err(f) => (Err(f), st1),
            }
        },
        Statement::LoopOn { condition, body } => loop_on_s(mods, st, condition, body, fuel),
        Statement::LoopIter { iterator, iterable, step, filter, body, else_clause } => {
            loop_iter_stmt_s(mods, st, iterator@, iterable, step, filter, body, else_clause, fuel)
        },
        Statement::Import { module_name } => import_s(mods, st, module_name@, fuel),
    }
}


/// Mirror of assignment: the right-hand side first; a simple name then
/// mutates, or implicitly declares an immutable binding; a field chain
/// drills into the root struct value, which must be a mutable binding.
pub open spec fn assign_s(
    mods: Map<Seq<char>, Program>,
    st: IState,
    lhs: Expression,
    rhs: Expression,
    fuel: nat,
) -> (Result<StmtRes, Fault>, IState)
    decreases fuel, expr_size(lhs) + expr_size(rhs), 2nat,
{
    let (r, st1) = eval_expr_s(mods, st, rhs, fuel);
    match r {
        Ok(nv) => {
            match lhs {
                Expression::Variable(v) => {
                    let n = v.value@;
                    if st1.env.contains_key(n) {
                        if st1.env[n].1 {
                            (
                                Ok(StmtRes::Normal(Val::Void)),
                                IState { env: st1.env.insert(n, (nv, true)), ..st1 },
                            )
                        } else {
                            (Err(Fault::ImmutableMutation), st1)
                        }
                    } else {
                        let st2 = IState { env: st1.env.insert(n, (nv, false)), ..st1 };
                        let st3 = if st2.pure_mode {
                            IState { pure_names: st2.pure_names.insert(n), ..st2 }
                        } else {
                            st2
                        };
                        (Ok(StmtRes::Normal(Val::Void)), st3)
                    }
                },
                Expression::FieldAccess(_, _) => {
                    match tgt_root(lhs) {
                        Some(root) => {
                            if !st1.env.contains_key(root) {
                                (Err(Fault::UnknownVariable), st1)
                            } else if !st1.env[root].1 {
                                (Err(Fault::ImmutableMutation), st1)
                            } else {
                                match upd_nested_s(st1.env[root].0, tgt_path(lhs), nv) {
                                    Ok(u) => (
                                        Ok(StmtRes::Normal(Val::Void)),
                                        IState { env: st1.env.insert(root, (u, true)), ..st1 },
                                    ),
                                    Err(f) => (Err(f), st1),
                                }
                            }
                        },
                        None => (Err(Fault::InvalidLValue), st1),
                    }
                },
                _ => (Err(Fault::InvalidLValue), st1),
            }
        },
        Err(f) => (Err(f), st1),
    }
}

/// Mirror of the iterator-loop statement: the iterable decides the item
/// sequence (a stepped range, a list, or a string's characters), then the
/// items are iterated.
pub open spec fn loop_iter_stmt_s(
    mods: Map<Seq<char>, Program>,
    st: IState,
    iter_name: Seq<char>,
    iterable: Expression,
    step: Option<crate::ast::StepClause>,
    filter: Option<LoopFilter>,
    body: Block,
    off: Option<crate::ast::OffClause>,
    fuel: nat,
) -> (Result<StmtRes, Fault>, IState)
    decreases fuel, expr_size(iterable) + (match step {
        Some(sc) => expr_size(sc.value),
        None => 0,
    }) + (match filter {
        Some(fc) => expr_size(fc.condition),
        None => 0,
    }) + block_size(body) + opt_block_size(off), 3nat,
{
    let (r, st1) = eval_expr_s(mods, st, iterable, fuel);
    match r {
        Ok(iv) => {
            match iv {
                Val::Range(a, b) => {
                    let (rs, st2) = match step {
                        Some(sc) => {
                            let (r2, s2) = eval_expr_s(mods, st1, sc.value, fuel);
                            match r2 {
                                Ok(sv) => (as_num_s(sv), s2),
                                Err(f) => (Err(f), s2),
                            }
                        },
                        None => (Ok(1i64), st1),
                    };
                    match rs {
                        Ok(stp) => {
                            if stp <= 0 {
                                (Err(Fault::InvalidStep), st2)
                            } else {
                                loop_iter_s(
                                    mods,
                                    st2,
                                    iter_name,
                                    range_items_s(a as int, b as int, stp as int),
                                    filter,
                                    body,
                                    off,
                                    fuel,
                                )
                            }
                        },
                        Err(f) => (Err(f), st2),
                    }
                },
                Val::List(items) => loop_iter_s(mods, st1, iter_name, items, filter, body, off, fuel),
                Val::Str(sq) => loop_iter_s(
                    mods,
                    st1,
                    iter_name,
                    str_items_s(sq),
                    filter,
                    body,
                    off,
                    fuel,
                ),
                _ => (Err(Fault::InvalidIterable), st1),
            }
        },
        Err(f) => (Err(f), st1),
    }
}

/// Mirror of `import`: the pre-resolved module program runs in a fresh
/// interpreter that shares the channels; its printed lines are appended,
/// and its bindings and functions become a module value bound immutably
/// under the module's name.
pub open spec fn import_s(
    mods: Map<Seq<char>, Program>,
    st: IState,
    n: Seq<char>,
    fuel: nat,
) -> (Result<StmtRes, Fault>, IState)
    decreases fuel, 0nat, 0nat,
{
    if !mods.contains_key(n) {
        (Err(Fault::UnknownModule), st)
    } else if fuel == 0 {
        (Err(Fault::FuelExhausted), st)
    } else {
        let fresh = IState { channels: st.channels, output: Seq::empty(), ..initial_istate() };
        let (rr, stm) = run_seq_s(mods, fresh, mods[n].statements@, (fuel - 1) as nat);
        match rr {
            Ok(()) => {
                let modval = Val::Module(stm.env.map_values(|p: (Val, bool)| p.0), stm.funcs);
                (
                    Ok(StmtRes::Normal(Val::Void)),
                    IState {
                        env: st.env.insert(n, (modval, false)),
                        channels: stm.channels,
                        output: st.output + stm.output,
                        ..st
                    },
                )
            },
            Err(f) => (
                (Err(f)),
                IState { channels: stm.channels, output: st.output + stm.output, ..st },
            ),
        }
    }
}

/// Mirror of error-handler matching: handlers are tried in declaration
/// order, a clause without a tag catches everything; a matched clause
/// whose block completes normally with `void` re-raises the original
/// error, so a handler must return a substitute value to swallow it; with
/// no matching clause the error propagates.
pub open spec fn run_clauses_s(
    mods: Map<Seq<char>, Program>,
    st: IState,
    l: ErrorClauseList,
    en: Seq<char>,
    ed: Seq<char>,
    fuel: nat,
) -> (Result<StmtRes, Fault>, IState)
    decreases fuel, clauses_size(l), 2nat,
{
    let matched = match l.first.error_type {
        Some(t) => t@ == en,
        None => true,
    };
    if matched {
        let (rb, st1) = exec_block_s(mods, st, l.first.body, fuel);
        match rb {
            Ok(StmtRes::Normal(Val::Void)) => (
                Ok(StmtRes::Return(Val::ErrorVal(en, ed))),
                st1,
            ),
            other => (other, st1),
        }
    } else {
        match l.rest {
            Some(r) => run_clauses_s(mods, st, *r, en, ed, fuel),
            None => (Ok(StmtRes::Return(Val::ErrorVal(en, ed))), st),
        }
    }
}

/// Mirror of a while loop; each iteration costs one unit of budget.
pub open spec fn loop_on_s(
    mods: Map<Seq<char>, Program>,
    st: IState,
    cond: Expression,
    body: Block,
    fuel: nat,
) -> (Result<StmtRes, Fault>, IState)
    decreases fuel, expr_size(cond) + block_size(body), 4nat,
{
    if fuel == 0 {
        (Err(Fault::FuelExhausted), st)
    } else {
        let (r, st1) = eval_expr_s(mods, st, cond, fuel);
        match r {
            Ok(v) => {
                if !truthy(v) {
                    (Ok(StmtRes::Normal(Val::Void)), st1)
                } else {
                    let (rb, st2) = exec_block_s(mods, st1, body, fuel);
                    match rb {
                        Ok(StmtRes::Normal(_)) => loop_on_s(
                            mods,
                            st2,
                            cond,
                            body,
                            (fuel - 1) as nat,
                        ),
                        Ok(StmtRes::Continue) => loop_on_s(mods, st2, cond, body, (fuel - 1) as nat),
                        Ok(StmtRes::Break) => (Ok(StmtRes::Normal(Val::Void)), st2),
                        Ok(StmtRes::Return(v2)) => (Ok(StmtRes::Return(v2)), st2),
                        Err(f) => (Err(f), st2),
                    }
                }
            },
            Err(f) => (Err(f), st1),
        }
    }
}

/// Mirror of iterating a prepared item sequence: per item, the loop name
/// is bound immutably in a scope restored after the iteration; a filter
/// chooses between the body and the optional `off` block per item, it
/// does not pre-filter the sequence.
pub open spec fn loop_iter_s(
    mods: Map<Seq<char>, Program>,
    st: IState,
    iter_name: Seq<char>,
    items: Seq<Val>,
    filter: Option<LoopFilter>,
    body: Block,
    off: Option<crate::ast::OffClause>,
    fuel: nat,
) -> (Result<StmtRes, Fault>, IState)
    decreases fuel, (match filter {
        Some(fc) => expr_size(fc.condition),
        None => 0,
    }) + block_size(body) + opt_block_size(off), 4nat,
{
    if items.len() == 0 {
        (Ok(StmtRes::Normal(Val::Void)), st)
    } else if fuel == 0 {
        (Err(Fault::FuelExhausted), st)
    } else {
        let saved = st.env;
        let st1 = IState { env: st.env.insert(iter_name, (items.first(), false)), ..st };
        let (rf, st2) = match filter {
            Some(fc) => eval_expr_s(mods, st1, fc.condition, fuel),
            None => (Ok(Val::Bool(true)), st1),
        };
        match rf {
            Ok(fv) => {
                let run_main = match filter {
                    Some(_) => truthy(fv),
                    None => true,
                };
                let (rb, st3) = if run_main {
                    exec_block_s(mods, st2, body, fuel)
                } else {
                    match off {
                        Some(c) => exec_block_s(mods, st2, c.body, fuel),
                        None => (Ok(StmtRes::Normal(Val::Void)), st2),
                    }
                };
                match rb {
                    Ok(StmtRes::Return(v)) => (
                        Ok(StmtRes::Return(v)),
                        IState { env: saved, ..st3 },
                    ),
                    Ok(StmtRes::Break) => (
                        Ok(StmtRes::Normal(Val::Void)),
                        IState { env: saved, ..st3 },
                    ),
                    Ok(_) => loop_iter_s(
                        mods,
                        IState { env: saved, ..st3 },
                        iter_name,
                        items.drop_first(),
                        filter,
                        body,
                        off,
                        (fuel - 1) as nat,
                    ),
                    Err(f) => (Err(f), st3),
                }
            },
            Err(f) => (Err(f), st2),
        }
    }
}

/// Mirror of block execution: statements in order, the last normal value
/// as the block's value, the first control-flow signal propagated.
pub open spec fn exec_block_s(
    mods: Map<Seq<char>, Program>,
    st: IState,
    b: Block,
    fuel: nat,
) -> (Result<StmtRes, Fault>, IState)
    decreases fuel, block_size(b), 1nat,
{
    exec_stmts_s(mods, st, b.statements@, Val::Void, fuel)
}

pub open spec fn exec_stmts_s(
    mods: Map<Seq<char>, Program>,
    st: IState,
    ss: Seq<Statement>,
    last: Val,
    fuel: nat,
) -> (Result<StmtRes, Fault>, IState)
    decreases fuel, stmts_size(ss), 0nat,
{
    if ss.len() == 0 {
        (Ok(StmtRes::Normal(last)), st)
    } else {
        let (r, st1) = exec_stmt_s(mods, st, ss.first(), fuel);
        match r {
            Ok(StmtRes::Normal(v)) => exec_stmts_s(mods, st1, ss.drop_first(), v, fuel),
            Ok(other) => (Ok(other), st1),
            Err(f) => (Err(f), st1),
        }
    }
}

/// Mirror of a top-level run: statements in order; a top-level `return`
/// ends the run; a stray `break` or `continue` is an error.
pub open spec fn run_seq_s(
    mods: Map<Seq<char>, Program>,
    st: IState,
    ss: Seq<Statement>,
    fuel: nat,
) -> (Result<(), Fault>, IState)
    decreases fuel, stmts_size(ss), 5nat,
{
    if ss.len() == 0 {
        (Ok(()), st)
    } else {
        let (r, st1) = exec_stmt_s(mods, st, ss.first(), fuel);
        match r {
            Ok(StmtRes::Normal(_)) => run_seq_s(mods, st1, ss.drop_first(), fuel),
            Ok(StmtRes::Return(_)) => (Ok(()), st1),
            Ok(_) => (Err(Fault::ControlOutsideLoop), st1),
            Err(f) => (Err(f), st1),
        }
    }
}

/// Mirror of a whole program run with the default budget.
pub open spec fn run_program_s(
    mods: Map<Seq<char>, Program>,
    st: IState,
    prog: Program,
) -> (Result<(), Fault>, IState) {
    run_seq_s(mods, st, prog.statements@, DEFAULT_FUEL as nat)
}

proof fn lemma_assoc_upd_is_update(s: Seq<(Seq<char>, Val)>, i: int, k: Seq<char>, v: Val)
    requires
        0 <= i < s.len(),
        s[i].0 == k,
        forall|j: int| i < j < s.len() ==> s[j].0 != k,
    ensures
        assoc_upd_v(s, k, v) == s.update(i, (k, v)),
    decreases s.len(),
{
    if i == s.len() - 1 {
        assert(s.drop_last().push((k, v)) =~= s.update(i, (k, v)));
    } else {
        lemma_assoc_upd_is_update(s.drop_last(), i, k, v);
        assert(s.drop_last().update(i, (k, v)).push(s.last()) =~= s.update(i, (k, v)));
    }
}

/// The index of the newest entry for a key, if any.
fn find_field_idx(s: &Vec<(String, RuntimeVal)>, k: &String) -> (r: Option<usize>)
    ensures
        match r {
            Some(i) => i < s@.len() && s@[i as int].0@ == k@ && (forall|j: int|
                i < j < s@.len() ==> s@[j].0@ != k@) && assoc_find_v(pairs_vw(s@), k@) == Some(
                vw(s@[i as int].1),
            ),
            None => assoc_find_v(pairs_vw(s@), k@) is None,
        },
{
    proof {
        lemma_pairs_vw(s@);
    }
    let n = s.len();
    let mut i = n;
    loop
        invariant
            i <= n,
            n == s@.len(),
            pairs_vw(s@).len() == n,
            forall|j: int|
                0 <= j < s@.len() ==> #[trigger] pairs_vw(s@)[j] == (s@[j].0@, vw(s@[j].1)),
            forall|j: int| i <= j < n ==> s@[j].0@ != k@,
        decreases i,
    {
        if i == 0 {
            proof {
                lemma_assoc_absent_v(pairs_vw(s@), k@);
            }
            return None;
        }
        i = i - 1;
        if s[i].0 == *k {
            proof {
                lemma_assoc_found_v(pairs_vw(s@), i as int, k@);
            }
            return Some(i);
        }
    }
}

proof fn lemma_assoc_found_v(s: Seq<(Seq<char>, Val)>, i: int, k: Seq<char>)
    requires
        0 <= i < s.len(),
        s[i].0 == k,
        forall|j: int| i < j < s.len() ==> s[j].0 != k,
    ensures
        assoc_find_v(s, k) == Some(s[i].1),
    decreases s.len(),
{
    if i == s.len() - 1 {
    } else {
        lemma_assoc_found_v(s.drop_last(), i, k);
    }
}

proof fn lemma_assoc_absent_v(s: Seq<(Seq<char>, Val)>, k: Seq<char>)
    requires
        forall|j: int| 0 <= j < s.len() ==> s[j].0 != k,
    ensures
        assoc_find_v(s, k) is None,
    decreases s.len(),
{
    if s.len() > 0 {
        lemma_assoc_absent_v(s.drop_last(), k);
    }
}

/// Sets a field in an entry vector as `assoc_set_v` states.
fn assoc_rv_set(s: &mut Vec<(String, RuntimeVal)>, k: &String, v: RuntimeVal)
    ensures
        pairs_vw(final(s)@) == assoc_set_v(pairs_vw(old(s)@), k@, vw(v)),
{
    let ghost before = s@;
    let ghost gv = vw(v);
    match find_field_idx(s, k) {
        Some(i) => {
            let old_pair = s.remove(i);
            s.insert(i, (k.clone(), v));
            proof {
                lemma_pairs_vw(before);
                lemma_pairs_vw(s@);
                assert(s@ =~= before.update(i as int, (s@[i as int].0, s@[i as int].1)));
                lemma_assoc_upd_is_update(pairs_vw(before), i as int, k@, gv);
                assert(pairs_vw(s@) =~= pairs_vw(before).update(i as int, (k@, gv)));
            }
        },
        None => {
            s.push((k.clone(), v));
            proof {
                assert(s@.drop_last() =~= before);
                assert(pairs_vw(s@) =~= pairs_vw(before).push((k@, gv)));
            }
        },
    }
}

/// Deep field update, as `upd_nested_s` states: drills down the path from
/// its last element and sets the final field.
pub fn update_nested_field(current: RuntimeVal, path: &[String], new_val: RuntimeVal) -> (r:
    Result<RuntimeVal, Fault>)
    ensures
        rv_res_matches(r, upd_nested_s(vw(current), path.deep_view(), vw(new_val))),
    decreases rv_size(current),
{
    proof {
        assert(path.deep_view().len() == path@.len());
    }
    if path.len() == 0 {
        return Err(Fault::InvalidLValue);
    }
    let field = slice_index_get(path, path.len() - 1);
    proof {
        assert(path.deep_view().last() == field@);
    }
    match current {
        RuntimeVal::Struct(n, mut flds) => {
            if path.len() == 1 {
                assoc_rv_set(&mut flds, field, new_val);
                Ok(RuntimeVal::Struct(n, flds))
            } else {
                match find_field_idx(&flds, field) {
                    Some(i) => {
                        let ghost gflds = flds@;
                        let pair = flds.remove(i);
                        proof {
                            crate::interpreter::values::lemma_rv_pairs_size_elem(
                                gflds,
                                i as int,
                            );
                        }
                        let sub = slice_subrange(path, 0, path.len() - 1);
                        proof {
                            assert(sub.deep_view() =~= path.deep_view().drop_last());
                        }
                        match update_nested_field(pair.1, sub, new_val) {
                            Ok(u) => {
                                let ghost gu = vw(u);
                                flds.insert(i, (pair.0, u));
                                proof {
                                    lemma_pairs_vw(gflds);
                                    lemma_pairs_vw(flds@);
                                    lemma_assoc_upd_is_update(
                                        pairs_vw(gflds),
                                        i as int,
                                        field@,
                                        gu,
                                    );
                                    assert(flds@ =~= gflds.update(
                                        i as int,
                                        (flds@[i as int].0, flds@[i as int].1),
                                    ));
                                    assert(pairs_vw(flds@) =~= pairs_vw(gflds).update(
                                        i as int,
                                        (field@, gu),
                                    ));
                                }
                                Ok(RuntimeVal::Struct(n, flds))
                            },
                            Err(f) => Err(f),
                        }
                    },
                    None => Err(Fault::UnknownField),
                }
            }
        },
        _ => Err(Fault::NotAStruct),
    }
}

/// The assignment-target walk: pushes each field name, outermost first,
/// and hands back the root variable if the chain ends in one.
fn unwind_target<'a>(e: &'a Expression, path: &mut Vec<String>) -> (r: Option<&'a String>)
    ensures
        final(path)@.len() == old(path)@.len() + tgt_path(*e).len(),
        final(path).deep_view() == old(path).deep_view() + tgt_path(*e),
        match r {
            Some(name) => tgt_root(*e) == Some(name@),
            None => tgt_root(*e) is None,
        },
    decreases *e,
{
    match e {
        Expression::Variable(v) => {
            proof {
                assert(final(path).deep_view() =~= old(path).deep_view() + tgt_path(*e));
            }
            Some(&v.value)
        },
        Expression::FieldAccess(t, f) => {
            path.push(f.value.clone());
            let r = unwind_target(t, path);
            proof {
                assert(path.deep_view() =~= old(path).deep_view() + tgt_path(*e));
            }
            r
        },
        _ => {
            proof {
                assert(final(path).deep_view() =~= old(path).deep_view() + tgt_path(*e));
            }
            None
        },
    }
}

proof fn lemma_exports_of_env(entries: Seq<(String, Value)>, built: Seq<(String, RuntimeVal)>)
    requires
        entries.len() == built.len(),
        forall|i: int|
            0 <= i < entries.len() ==> #[trigger] built[i].0@ == entries[i].0@ && vw(built[i].1)
                == vw(entries[i].1.data),
    ensures
        exports_vw(built) == env_vw(assoc_view(entries)).map_values(|p: (Val, bool)| p.0),
    decreases entries.len(),
{
    if entries.len() == 0 {
        assert(exports_vw(built) =~= env_vw(assoc_view(entries)).map_values(
            |p: (Val, bool)| p.0,
        ));
    } else {
        assert forall|i: int| 0 <= i < entries.drop_last().len() implies #[trigger] built.drop_last()[i].0@
            == entries.drop_last()[i].0@ && vw(built.drop_last()[i].1) == vw(
            entries.drop_last()[i].1.data,
        ) by {
            assert(built.drop_last()[i] == built[i]);
            assert(entries.drop_last()[i] == entries[i]);
            assert(built[i].0@ == entries[i].0@ && vw(built[i].1) == vw(entries[i].1.data));
        }
        lemma_exports_of_env(entries.drop_last(), built.drop_last());
        lemma_map_values_insert(
            assoc_view(entries.drop_last()),
            entries.last().0@,
            entries.last().1,
            |v: Value| (vw(v.data), v.is_mutable),
        );
        lemma_map_values_insert(
            env_vw(assoc_view(entries.drop_last())),
            entries.last().0@,
            (vw(entries.last().1.data), entries.last().1.is_mutable),
            |p: (Val, bool)| p.0,
        );
        assert(exports_vw(built) =~= env_vw(assoc_view(entries)).map_values(
            |p: (Val, bool)| p.0,
        ));
    }
}

proof fn lemma_funcs_vw_congruent(a: Seq<(String, FuncEntry)>, b: Seq<(String, FuncEntry)>)
    requires
        a.len() == b.len(),
        forall|i: int| 0 <= i < a.len() ==> #[trigger] a[i].0@ == b[i].0@ && a[i].1 == b[i].1,
    ensures
        funcs_vw(a) == funcs_vw(b),
    decreases a.len(),
{
    if a.len() > 0 {
        assert forall|i: int| 0 <= i < a.drop_last().len() implies #[trigger] a.drop_last()[i].0@
            == b.drop_last()[i].0@ && a.drop_last()[i].1 == b.drop_last()[i].1 by {
            assert(a.drop_last()[i] == a[i]);
            assert(b.drop_last()[i] == b[i]);
            assert(a[i].0@ == b[i].0@ && a[i].1 == b[i].1);
        }
        lemma_funcs_vw_congruent(a.drop_last(), b.drop_last());
        assert(funcs_vw(a) =~= funcs_vw(b));
    }
}

/// The function table realized by a table's entries is its map view.
proof fn lemma_funcs_vw_is_assoc(s: Seq<(String, FuncEntry)>)
    ensures
        funcs_vw(s) == assoc_view(s),
    decreases s.len(),
{
    if s.len() > 0 {
        lemma_funcs_vw_is_assoc(s.drop_last());
    }
}

proof fn lemma_env_assoc_congruent(a: Seq<(String, Value)>, b: Seq<(String, Value)>)
    requires
        a.len() == b.len(),
        forall|i: int|
            0 <= i < a.len() ==> #[trigger] a[i].0 == b[i].0 && vw(a[i].1.data) == vw(b[i].1.data)
                && a[i].1.is_mutable == b[i].1.is_mutable,
    ensures
        env_vw(assoc_view(a)) == env_vw(assoc_view(b)),
    decreases a.len(),
{
    if a.len() > 0 {
        assert forall|i: int| 0 <= i < a.drop_last().len() implies #[trigger] a.drop_last()[i].0
            == b.drop_last()[i].0 && vw(a.drop_last()[i].1.data) == vw(b.drop_last()[i].1.data)
            && a.drop_last()[i].1.is_mutable == b.drop_last()[i].1.is_mutable by {
            assert(a.drop_last()[i] == a[i]);
            assert(b.drop_last()[i] == b[i]);
        }
        lemma_env_assoc_congruent(a.drop_last(), b.drop_last());
        lemma_map_values_insert(
            assoc_view(a.drop_last()),
            a.last().0@,
            a.last().1,
            |v: Value| (vw(v.data), v.is_mutable),
        );
        lemma_map_values_insert(
            assoc_view(b.drop_last()),
            b.last().0@,
            b.last().1,
            |v: Value| (vw(v.data), v.is_mutable),
        );
        assert(env_vw(assoc_view(a)) =~= env_vw(assoc_view(b)));
    }
}


fn dup_env_entries(v: &Vec<(String, Value)>) -> (r: Vec<(String, Value)>)
    ensures
        env_vw(assoc_view(r@)) == env_vw(assoc_view(v@)),
{
    let n = v.len();
    let mut out: Vec<(String, Value)> = Vec::new();
    let mut i: usize = 0;
    while i < n
        invariant
            i <= n,
            n == v@.len(),
            out@.len() == i,
            forall|j: int|
                0 <= j < i ==> #[trigger] out@[j].0 == v@[j].0 && vw(out@[j].1.data) == vw(
                    v@[j].1.data,
                ) && out@[j].1.is_mutable == v@[j].1.is_mutable,
        decreases n - i,
    {
        let name = v[i].0.clone();
        let d = v[i].1.data.duplicate();
        let m = v[i].1.is_mutable;
        out.push((name, Value { data: d, is_mutable: m }));
        i = i + 1;
    }
    proof {
        lemma_env_assoc_congruent(out@, v@);
    }
    out
}

fn dup_chan_vec(v: &Vec<Chan>) -> (r: Vec<Chan>)
    ensures
        chans_vw(r@) == chans_vw(v@),
{
    let n = v.len();
    let mut out: Vec<Chan> = Vec::new();
    let mut i: usize = 0;
    while i < n
        invariant
            i <= n,
            n == v@.len(),
            out@.len() == i,
            forall|j: int|
                0 <= j < i ==> (#[trigger] out@[j]).queue@ == v@[j].queue@ && out@[j].closed
                    == v@[j].closed,
        decreases n - i,
    {
        let q = dup_i64_vec(&v[i].queue);
        let cl = v[i].closed;
        out.push(Chan { queue: q, closed: cl });
        i = i + 1;
    }
    proof {
        assert(chans_vw(out@) =~= chans_vw(v@));
    }
    out
}

fn dup_i64_vec(v: &Vec<i64>) -> (r: Vec<i64>)
    ensures
        r@ == v@,
{
    let n = v.len();
    let mut out: Vec<i64> = Vec::new();
    let mut i: usize = 0;
    while i < n
        invariant
            i <= n,
            n == v@.len(),
            out@.len() == i,
            forall|j: int| 0 <= j < i ==> out@[j] == v@[j],
        decreases n - i,
    {
        out.push(v[i]);
        i = i + 1;
    }
    proof {
        assert(out@ =~= v@);
    }
    out
}

impl Interpreter {
    /// An independent copy of the environment with the same view.
    pub(crate) fn dup_env(&self) -> (r: Table<Value>)
        ensures
            env_vw(r@) == env_vw(self.env@),
    {
        let entries = dup_env_entries(&self.env.entries);
        Table { entries }
    }

    /// An independent copy of the channel table with the same view.
    fn dup_chans(&self) -> (r: Vec<Chan>)
        ensures
            chans_vw(r@) == chans_vw(self.channels@),
    {
        dup_chan_vec(&self.channels)
    }

    /// Executes one statement, as `exec_stmt_s` states.
    #[verifier::rlimit(100)]
    #[verifier::spinoff_prover]
    pub fn execute_statement(
        &mut self,
        mods: &Table<Program>,
        statement: &Statement,
        fuel: u64,
    ) -> (r: Result<StatementResult, Fault>)
        ensures
            ({
                let (m, st) = exec_stmt_s(mods@, old(self)@, *statement, fuel as nat);
                final(self)@ == st && sr_res_matches(r, m)
            }),
        decreases fuel, stmt_size(*statement), 3nat,
    {
        proof {
            reveal_with_fuel(exec_stmt_s, 1);
        }
        match statement {
            Statement::ErrorDef { name, description } => {
                let desc = match description {
                    Some(d) => d.value.value.clone(),
                    None => String::new(),
                };
                self.err_put(name.clone(), desc);
                Ok(StatementResult::Normal(RuntimeVal::Void))
            },
            Statement::StructDef(_) => Ok(StatementResult::Normal(RuntimeVal::Void)),
            Statement::VarDecl { ident, value } => {
                let v = match self.eval_expr(mods, value, fuel) {
                    Ok(t) => t,
                    Err(f) => {
                        return Err(f);
                    },
                };
                self.env_put(ident.clone(), Value { data: v, is_mutable: true });
                if self.in_pure_mode {
                    self.pure_scope_params.insert(ident.clone());
                }
                Ok(StatementResult::Normal(RuntimeVal::Void))
            },
            Statement::AssignStmt { lhs, rhs } => self.exec_assign(mods, lhs, rhs, fuel),
            Statement::Return(opt) => {
                match opt {
                    Some(e) => {
                        let v = match self.eval_expr(mods, e, fuel) {
                            Ok(t) => t,
                            Err(f) => {
                                return Err(f);
                            },
                        };
                        Ok(StatementResult::Return(v))
                    },
                    None => Ok(StatementResult::Return(RuntimeVal::Void)),
                }
            },
            Statement::Break => Ok(StatementResult::Break),
            Statement::Continue => Ok(StatementResult::Continue),
            Statement::Print(e) => {
                if self.in_pure_mode {
                    return Err(Fault::PurityViolation);
                }
                let v = match self.eval_expr(mods, e, fuel) {
                    Ok(t) => t,
                    Err(f) => {
                        return Err(f);
                    },
                };
                let line = v.render_val();
                self.print_line(line);
                Ok(StatementResult::Normal(RuntimeVal::Void))
            },
            Statement::ExprStmt(e) => {
                let v = match self.eval_expr(mods, e, fuel) {
                    Ok(t) => t,
                    Err(f) => {
                        return Err(f);
                    },
                };
                Ok(StatementResult::Normal(v))
            },
            Statement::FunctionDef(def) => {
                self.functions.put(def.name.clone(), FuncEntry::User(def.clone()));
                Ok(StatementResult::Normal(RuntimeVal::Void))
            },
            Statement::RustFnDecl(def) => {
                self.functions.put(def.name.clone(), FuncEntry::Host(def.clone()));
                Ok(StatementResult::Normal(RuntimeVal::Void))
            },
            Statement::Documented { .. } => Ok(StatementResult::Normal(RuntimeVal::Void)),
            Statement::Give(ch, val) => {
                if self.in_pure_mode {
                    return Err(Fault::PurityViolation);
                }
                let cv = match self.eval_expr(mods, ch, fuel) {
                    Ok(t) => t,
                    Err(f) => {
                        return Err(f);
                    },
                };
                let vv = match self.eval_expr(mods, val, fuel) {
                    Ok(t) => t,
                    Err(f) => {
                        return Err(f);
                    },
                };
                let x = match vv {
                    RuntimeVal::Num(x) => x,
                    _ => {
                        return Err(Fault::TypeError);
                    },
                };
                match cv {
                    RuntimeVal::Pipe(id) => {
                        match self.chan_give(id, x) {
                            Ok(()) => Ok(StatementResult::Normal(RuntimeVal::Void)),
                            Err(f) => Err(f),
                        }
                    },
                    _ => Err(Fault::TypeError),
                }
            },
            Statement::Close(ch) => {
                let cv = match self.eval_expr(mods, ch, fuel) {
                    Ok(t) => t,
                    Err(f) => {
                        return Err(f);
                    },
                };
                match cv {
                    RuntimeVal::Pipe(id) => {
                        self.chan_close(id);
                        Ok(StatementResult::Normal(RuntimeVal::Void))
                    },
                    _ => Err(Fault::TypeError),
                }
            },
            Statement::On { condition, body, else_clause, error_clauses } => {
                let v = match self.eval_expr(mods, condition, fuel) {
                    Ok(t) => t,
                    Err(f) => {
                        return Err(f);
                    },
                };
                match v {
                    RuntimeVal::ErrorVal(en, ed) => {
                        match error_clauses {
                            Some(l) => self.run_clauses(mods, l, en, ed, fuel),
                            None => Ok(StatementResult::Return(RuntimeVal::ErrorVal(en, ed))),
                        }
                    },
                    other => {
                        if other.is_truthy() {
                            self.execute_block(mods, body, fuel)
                        } else {
                            match else_clause {
                                Some(c) => self.execute_block(mods, &c.body, fuel),
                                None => Ok(StatementResult::Normal(RuntimeVal::Void)),
                            }
                        }
                    },
                }
            },
            Statement::LoopOn { condition, body } => self.run_loop_on(mods, condition, body, fuel),
            Statement::LoopIter { iterator, iterable, step, filter, body, else_clause } => {
                self.exec_loop_iter_stmt(mods, iterator, iterable, step, filter, body, else_clause, fuel)
            },
            Statement::Import { module_name } => self.exec_import(mods, module_name, fuel),
        }
    }

    /// Performs an assignment, as `assign_s` states.
    #[verifier::rlimit(100)]
    #[verifier::spinoff_prover]
    fn exec_assign(
        &mut self,
        mods: &Table<Program>,
        lhs: &Expression,
        rhs: &Expression,
        fuel: u64,
    ) -> (r: Result<StatementResult, Fault>)
        ensures
            ({
                let (m, st) = assign_s(mods@, old(self)@, *lhs, *rhs, fuel as nat);
                final(self)@ == st && sr_res_matches(r, m)
            }),
        decreases fuel, expr_size(*lhs) + expr_size(*rhs), 2nat,
    {
        proof {
            reveal_with_fuel(assign_s, 1);
        }

                let nv = match self.eval_expr(mods, rhs, fuel) {
                    Ok(t) => t,
                    Err(f) => {
                        return Err(f);
                    },
                };
                match lhs {
                    Expression::Variable(v) => {
                        match self.env_get(&v.value) {
                            Some(entry) => {
                                if !entry.is_mutable {
                                    return Err(Fault::ImmutableMutation);
                                }
                                self.env_put(v.value.clone(), Value { data: nv, is_mutable: true });
                                Ok(StatementResult::Normal(RuntimeVal::Void))
                            },
                            None => {
                                self.env_put(
                                    v.value.clone(),
                                    Value { data: nv, is_mutable: false },
                                );
                                if self.in_pure_mode {
                                    self.pure_scope_params.insert(v.value.clone());
                                }
                                Ok(StatementResult::Normal(RuntimeVal::Void))
                            },
                        }
                    },
                    Expression::FieldAccess(_, _) => {
                        let mut path: Vec<String> = Vec::new();
                        let root = match unwind_target(lhs, &mut path) {
                            Some(name) => name.clone(),
                            None => {
                                return Err(Fault::InvalidLValue);
                            },
                        };
                        proof {
                            assert(path.deep_view() =~= tgt_path(*lhs));
                        }
                        let data = match self.env_get(&root) {
                            Some(entry) => {
                                if !entry.is_mutable {
                                    return Err(Fault::ImmutableMutation);
                                }
                                entry.data.duplicate()
                            },
                            None => {
                                return Err(Fault::UnknownVariable);
                            },
                        };
                        match update_nested_field(data, path.as_slice(), nv) {
                            Ok(u) => {
                                self.env_put(root, Value { data: u, is_mutable: true });
                                Ok(StatementResult::Normal(RuntimeVal::Void))
                            },
                            Err(f) => Err(f),
                        }
                    },
                    _ => Err(Fault::InvalidLValue),
                }
            
    }

    /// Runs an iterator loop, as `loop_iter_stmt_s` states.
    #[verifier::rlimit(100)]
    #[verifier::spinoff_prover]
    fn exec_loop_iter_stmt(
        &mut self,
        mods: &Table<Program>,
        iterator: &String,
        iterable: &Expression,
        step: &Option<crate::ast::StepClause>,
        filter: &Option<LoopFilter>,
        body: &Block,
        else_clause: &Option<crate::ast::OffClause>,
        fuel: u64,
    ) -> (r: Result<StatementResult, Fault>)
        ensures
            ({
                let (m, st) = loop_iter_stmt_s(
                    mods@,
                    old(self)@,
                    iterator@,
                    *iterable,
                    *step,
                    *filter,
                    *body,
                    *else_clause,
                    fuel as nat,
                );
                final(self)@ == st && sr_res_matches(r, m)
            }),
        decreases fuel, expr_size(*iterable) + (match step {
            Some(sc) => expr_size(sc.value),
            None => 0,
        }) + (match filter {
            Some(fc) => expr_size(fc.condition),
            None => 0,
        }) + block_size(*body) + opt_block_size(*else_clause), 3nat,
    {
        proof {
            reveal_with_fuel(loop_iter_stmt_s, 1);
        }

                let iv = match self.eval_expr(mods, iterable, fuel) {
                    Ok(t) => t,
                    Err(f) => {
                        return Err(f);
                    },
                };
                match iv {
                    RuntimeVal::Range(a, b) => {
                        let stp = match step {
                            Some(sc) => {
                                let sv = match self.eval_expr(mods, &sc.value, fuel) {
                                    Ok(t) => t,
                                    Err(f) => {
                                        return Err(f);
                                    },
                                };
                                match sv {
                                    RuntimeVal::Num(x) => x,
                                    _ => {
                                        return Err(Fault::TypeError);
                                    },
                                }
                            },
                            None => 1i64,
                        };
                        if stp <= 0 {
                            return Err(Fault::InvalidStep);
                        }
                        let items = build_range_items(a, b, stp);
                        self.run_loop_iter(
                            mods,
                            iterator,
                            items.as_slice(),
                            filter,
                            body,
                            else_clause,
                            fuel,
                        )
                    },
                    RuntimeVal::List(items) => {
                        self.run_loop_iter(
                            mods,
                            iterator,
                            items.as_slice(),
                            filter,
                            body,
                            else_clause,
                            fuel,
                        )
                    },
                    RuntimeVal::Str(s) => {
                        let items = build_str_items(&s);
                        self.run_loop_iter(
                            mods,
                            iterator,
                            items.as_slice(),
                            filter,
                            body,
                            else_clause,
                            fuel,
                        )
                    },
                    _ => Err(Fault::InvalidIterable),
                }
            
    }

    /// Imports a module, as `import_s` states.
    #[verifier::rlimit(100)]
    #[verifier::spinoff_prover]
    fn exec_import(&mut self, mods: &Table<Program>, module_name: &String, fuel: u64) -> (r:
        Result<StatementResult, Fault>)
        ensures
            ({
                let (m, st) = import_s(mods@, old(self)@, module_name@, fuel as nat);
                final(self)@ == st && sr_res_matches(r, m)
            }),
        decreases fuel, 0nat, 0nat,
    {
        proof {
            reveal_with_fuel(import_s, 1);
        }
        let prog = match mods.get(module_name) {
            Some(p) => p,
            None => {
                return Err(Fault::UnknownModule);
            },
        };
        if fuel == 0 {
            return Err(Fault::FuelExhausted);
        }
        let mut mi = Interpreter::new();
        mi.channels = self.dup_chans();
        let rr = mi.run_seq(mods, prog.statements.as_slice(), fuel - 1);
        let mut adopted = mi.channels;
        std::mem::swap(&mut self.channels, &mut adopted);
        self.append_output(&mut mi.output);
        match rr {
            Ok(()) => {
                let ghost gentries = mi.env.entries@;
                let n = mi.env.entries.len();
                let mut exports: Vec<(String, RuntimeVal)> = Vec::new();
                let mut i: usize = 0;
                while i < n
                    invariant
                        i <= n,
                        n == gentries.len(),
                        mi.env.entries@ == gentries,
                        exports@.len() == i,
                        forall|j: int|
                            0 <= j < i ==> #[trigger] exports@[j].0@ == gentries[j].0@ && vw(
                                exports@[j].1,
                            ) == vw(gentries[j].1.data),
                    decreases n - i,
                {
                    let k = mi.env.entries[i].0.clone();
                    let d = mi.env.entries[i].1.data.duplicate();
                    exports.push((k, d));
                    i = i + 1;
                }
                proof {
                    lemma_exports_of_env(gentries, exports@);
                }
                let ghost gfuncs = mi.functions.entries@;
                let fn_count = mi.functions.entries.len();
                let mut funcs: Vec<(String, FuncEntry)> = Vec::new();
                let mut j: usize = 0;
                while j < fn_count
                    invariant
                        j <= fn_count,
                        fn_count == gfuncs.len(),
                        mi.functions.entries@ == gfuncs,
                        funcs@.len() == j,
                        forall|q: int|
                            0 <= q < j ==> #[trigger] funcs@[q].0@ == gfuncs[q].0@ && funcs@[q].1
                                == gfuncs[q].1,
                    decreases fn_count - j,
                {
                    let k = mi.functions.entries[j].0.clone();
                    let e = mi.functions.entries[j].1.duplicate();
                    funcs.push((k, e));
                    j = j + 1;
                }
                proof {
                    lemma_funcs_vw_congruent(funcs@, gfuncs);
                    lemma_funcs_vw_is_assoc(gfuncs);
                }
                self.env_put(
                    module_name.clone(),
                    Value { data: RuntimeVal::Module(exports, funcs), is_mutable: false },
                );
                Ok(StatementResult::Normal(RuntimeVal::Void))
            },
            Err(f) => Err(f),
        }
    }

    fn append_output(&mut self, other: &mut Vec<String>)
        ensures
            final(self)@ == (IState {
                output: old(self)@.output + old(other).deep_view(),
                ..old(self)@
            }),
            final(other)@.len() == 0,
    {
        let ghost before = self.output.deep_view();
        let ghost gother = other.deep_view();
        self.output.append(other);
        proof {
            assert(self.output.deep_view() =~= before + gother);
        }
    }

    /// Tries the error handlers in order, as `run_clauses_s` states.
    #[verifier::rlimit(100)]
    fn run_clauses(
        &mut self,
        mods: &Table<Program>,
        l: &ErrorClauseList,
        en: String,
        ed: String,
        fuel: u64,
    ) -> (r: Result<StatementResult, Fault>)
        ensures
            ({
                let (m, st) = run_clauses_s(mods@, old(self)@, *l, en@, ed@, fuel as nat);
                final(self)@ == st && sr_res_matches(r, m)
            }),
        decreases fuel, clauses_size(*l), 2nat,
    {
        proof {
            reveal_with_fuel(run_clauses_s, 2);
        }
        let matched = match &l.first.error_type {
            Some(t) => *t == en,
            None => true,
        };
        if matched {
            let rb = self.execute_block(mods, &l.first.body, fuel);
            match rb {
                Ok(StatementResult::Normal(v)) => {
                    if let RuntimeVal::Void = v {
                        Ok(StatementResult::Return(RuntimeVal::ErrorVal(en, ed)))
                    } else {
                        Ok(StatementResult::Normal(v))
                    }
                },
                other => other,
            }
        } else {
            match &l.rest {
                Some(r) => self.run_clauses(mods, r, en, ed, fuel),
                None => Ok(StatementResult::Return(RuntimeVal::ErrorVal(en, ed))),
            }
        }
    }

    /// Runs a while loop, as `loop_on_s` states.
    #[verifier::rlimit(100)]
    fn run_loop_on(
        &mut self,
        mods: &Table<Program>,
        cond: &Expression,
        body: &Block,
        fuel: u64,
    ) -> (r: Result<StatementResult, Fault>)
        ensures
            ({
                let (m, st) = loop_on_s(mods@, old(self)@, *cond, *body, fuel as nat);
                final(self)@ == st && sr_res_matches(r, m)
            }),
        decreases fuel, expr_size(*cond) + block_size(*body), 4nat,
    {
        proof {
            reveal_with_fuel(loop_on_s, 2);
        }
        if fuel == 0 {
            return Err(Fault::FuelExhausted);
        }
        let v = match self.eval_expr(mods, cond, fuel) {
            Ok(t) => t,
            Err(f) => {
                return Err(f);
            },
        };
        if !v.is_truthy() {
            return Ok(StatementResult::Normal(RuntimeVal::Void));
        }
        let rb = self.execute_block(mods, body, fuel);
        match rb {
            Ok(StatementResult::Normal(_)) => self.run_loop_on(mods, cond, body, fuel - 1),
            Ok(StatementResult::Continue) => self.run_loop_on(mods, cond, body, fuel - 1),
            Ok(StatementResult::Break) => Ok(StatementResult::Normal(RuntimeVal::Void)),
            Ok(StatementResult::Return(v2)) => Ok(StatementResult::Return(v2)),
            Err(f) => Err(f),
        }
    }

    /// Iterates prepared items, as `loop_iter_s` states.
    #[verifier::rlimit(100)]
    #[verifier::spinoff_prover]
    fn run_loop_iter(
        &mut self,
        mods: &Table<Program>,
        iter_name: &String,
        items: &[RuntimeVal],
        filter: &Option<LoopFilter>,
        body: &Block,
        off: &Option<crate::ast::OffClause>,
        fuel: u64,
    ) -> (r: Result<StatementResult, Fault>)
        ensures
            ({
                let (m, st) = loop_iter_s(
                    mods@,
                    old(self)@,
                    iter_name@,
                    items_vw(items@),
                    *filter,
                    *body,
                    *off,
                    fuel as nat,
                );
                final(self)@ == st && sr_res_matches(r, m)
            }),
        decreases fuel, (match filter {
            Some(fc) => expr_size(fc.condition),
            None => 0,
        }) + block_size(*body) + opt_block_size(*off), 4nat,
    {
        proof {
            reveal_with_fuel(loop_iter_s, 2);
            lemma_items_vw(items@);
        }
        if items.len() == 0 {
            return Ok(StatementResult::Normal(RuntimeVal::Void));
        }
        if fuel == 0 {
            return Err(Fault::FuelExhausted);
        }
        let saved = self.dup_env();
        let first = slice_index_get(items, 0).duplicate();
        self.env_put(iter_name.clone(), Value { data: first, is_mutable: false });
        let run_main = match filter {
            Some(fc) => {
                let fv = match self.eval_expr(mods, &fc.condition, fuel) {
                    Ok(t) => t,
                    Err(f) => {
                        return Err(f);
                    },
                };
                fv.is_truthy()
            },
            None => true,
        };
        let rb = if run_main {
            self.execute_block(mods, body, fuel)
        } else {
            match off {
                Some(c) => self.execute_block(mods, &c.body, fuel),
                None => Ok(StatementResult::Normal(RuntimeVal::Void)),
            }
        };
        match rb {
            Ok(StatementResult::Return(v)) => {
                self.env = saved;
                Ok(StatementResult::Return(v))
            },
            Ok(StatementResult::Break) => {
                self.env = saved;
                Ok(StatementResult::Normal(RuntimeVal::Void))
            },
            Ok(_) => {
                self.env = saved;
                let rest = slice_subrange(items, 1, items.len());
                proof {
                    lemma_items_vw(rest@);
                    assert(items_vw(rest@) =~= items_vw(items@).drop_first());
                }
                self.run_loop_iter(mods, iter_name, rest, filter, body, off, fuel - 1)
            },
            Err(f) => Err(f),
        }
    }

    /// Executes a block, as `exec_block_s` states.
    #[verifier::rlimit(100)]
    pub fn execute_block(&mut self, mods: &Table<Program>, block: &Block, fuel: u64) -> (r: Result<
        StatementResult,
        Fault,
    >)
        ensures
            ({
                let (m, st) = exec_block_s(mods@, old(self)@, *block, fuel as nat);
                final(self)@ == st && sr_res_matches(r, m)
            }),
        decreases fuel, block_size(*block), 1nat,
    {
        proof {
            reveal_with_fuel(exec_block_s, 1);
        }
        self.exec_stmts(mods, block.statements.as_slice(), RuntimeVal::Void, fuel)
    }

    #[verifier::rlimit(100)]
    fn exec_stmts(
        &mut self,
        mods: &Table<Program>,
        ss: &[Statement],
        last: RuntimeVal,
        fuel: u64,
    ) -> (r: Result<StatementResult, Fault>)
        ensures
            ({
                let (m, st) = exec_stmts_s(mods@, old(self)@, ss@, vw(last), fuel as nat);
                final(self)@ == st && sr_res_matches(r, m)
            }),
        decreases fuel, stmts_size(ss@), 0nat,
    {
        proof {
            reveal_with_fuel(exec_stmt_s, 1);
            reveal_with_fuel(exec_stmts_s, 2);
        }
        if ss.len() == 0 {
            return Ok(StatementResult::Normal(last));
        }
        let r = self.execute_statement(mods, slice_index_get(ss, 0), fuel);
        match r {
            Ok(StatementResult::Normal(v)) => {
                let res = self.exec_stmts(mods, slice_subrange(ss, 1, ss.len()), v, fuel);
                proof {
                    assert(ss@.drop_first() =~= ss@.subrange(1, ss@.len() as int));
                }
                res
            },
            Ok(other) => Ok(other),
            Err(f) => Err(f),
        }
    }

    #[verifier::rlimit(100)]
    #[verifier::spinoff_prover]
    fn run_seq(&mut self, mods: &Table<Program>, ss: &[Statement], fuel: u64) -> (r: Result<
        (),
        Fault,
    >)
        ensures
            ({
                let (m, st) = run_seq_s(mods@, old(self)@, ss@, fuel as nat);
                final(self)@ == st && (match r {
                    Ok(()) => m is Ok,
                    Err(f) => m == Err::<(), Fault>(f),
                })
            }),
        decreases fuel, stmts_size(ss@), 5nat,
    {
        proof {
            reveal_with_fuel(run_seq_s, 2);
        }
        if ss.len() == 0 {
            return Ok(());
        }
        let r = self.execute_statement(mods, slice_index_get(ss, 0), fuel);
        match r {
            Ok(StatementResult::Normal(_)) => {
                self.run_seq(mods, slice_subrange(ss, 1, ss.len()), fuel)
            },
            Ok(StatementResult::Return(_)) => Ok(()),
            Ok(_) => Err(Fault::ControlOutsideLoop),
            Err(f) => Err(f),
        }
    }

    /// Runs a whole program with the default budget, as `run_program_s`
    /// states: statements in order, a top-level `return` ending the run.
    /// `modules` holds the pre-resolved source of every importable module.
    pub fn run(&mut self, program: &Program, modules: &Table<Program>) -> (r: Result<(), Fault>)
        ensures
            ({
                let (m, st) = run_program_s(modules@, old(self)@, *program);
                final(self)@ == st && (match r {
                    Ok(()) => m is Ok,
                    Err(f) => m == Err::<(), Fault>(f),
                })
            }),
    {
        proof {
            reveal_with_fuel(run_seq_s, 2);
        }
        self.run_seq(modules, program.statements.as_slice(), DEFAULT_FUEL)
    }
}

fn build_range_items(a: i64, b: i64, stp: i64) -> (r: Vec<RuntimeVal>)
    requires
        stp >= 1,
    ensures
        items_vw(r@) == range_items_s(a as int, b as int, stp as int),
{
    let mut out: Vec<RuntimeVal> = Vec::new();
    let mut c = a;
    let mut done = c >= b;
    let ghost mut gc: int = a as int;
    proof {
        lemma_items_vw(out@);
        assert(items_vw(out@) =~= Seq::<Val>::empty());
        assert(items_vw(out@) + range_items_s(gc, b as int, stp as int) =~= range_items_s(
            a as int,
            b as int,
            stp as int,
        ));
    }
    while !done
        invariant
            stp >= 1,
            items_vw(out@) + range_items_s(gc, b as int, stp as int) == range_items_s(
                a as int,
                b as int,
                stp as int,
            ),
            !done ==> gc == c as int && c < b,
            done ==> gc >= b as int,
        decreases (if done {
            0int
        } else {
            b as int - c as int
        }),
    {
        let ghost gout = out@;
        out.push(RuntimeVal::Num(c));
        proof {
            assert(out@.drop_last() =~= gout);
            lemma_items_vw(out@);
            lemma_items_vw(gout);
            assert(items_vw(out@) =~= items_vw(gout).push(Val::Num(c)));
            assert(range_items_s(gc, b as int, stp as int) == seq![Val::Num(c)] + range_items_s(
                gc + stp,
                b as int,
                stp as int,
            ));
            assert(items_vw(out@) + range_items_s(gc + stp, b as int, stp as int)
                =~= items_vw(gout) + range_items_s(gc, b as int, stp as int));
            gc = gc + stp;
        }
        match c.checked_add(stp) {
            Some(n) => {
                c = n;
                done = c >= b;
            },
            None => {
                done = true;
            },
        }
    }
    proof {
        assert(range_items_s(gc, b as int, stp as int) =~= Seq::<Val>::empty());
        assert(items_vw(out@) =~= range_items_s(a as int, b as int, stp as int));
    }
    out
}

fn build_str_items(s: &String) -> (r: Vec<RuntimeVal>)
    ensures
        items_vw(r@) == str_items_s(s@),
{
    let n = s.as_str().unicode_len();
    let mut out: Vec<RuntimeVal> = Vec::new();
    let mut i: usize = 0;
    while i < n
        invariant
            i <= n,
            n == s@.len(),
            out@.len() == i,
            forall|j: int| 0 <= j < i ==> vw(#[trigger] out@[j]) == Val::Str(seq![s@[j]]),
        decreases n - i,
    {
        let piece = s.as_str().substring_char(i, i + 1);
        let sv = String::from_str(piece);
        proof {
            assert(sv@ =~= seq![s@[i as int]]);
        }
        out.push(RuntimeVal::Str(sv));
        i = i + 1;
    }
    proof {
        lemma_items_vw(out@);
        assert(items_vw(out@) =~= str_items_s(s@));
    }
    out
}

} // verus!
