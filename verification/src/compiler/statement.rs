//! Statement lowering: each statement kind to its target text, threading
//! the mutability table, the move set, the purity and fallibility contexts
//! and the function table exactly as the specification mirror states.

use vstd::prelude::*;

use crate::ast::AnnotatableItem;
use crate::ast::Block;
use crate::ast::ErrorClauseList;
use crate::ast::Expression;
use crate::ast::FuncParam;
use crate::ast::FunctionDef;
use crate::ast::KiroType;
use crate::ast::Program;
use crate::ast::RustFnDecl;
use crate::ast::Statement;
use crate::ast::StructDef;
use std::rc::Rc;
use crate::ast::FieldDef;
use crate::ast::LoopFilter;
use crate::ast::OffClause;
use crate::ast::StepClause;
use crate::semantics::Fault;
use crate::semantics::FunctionInfo;
use crate::semantics::VarInfo;
use crate::types::compile_type;
use crate::types::type_text;
use super::CState;
use super::Compiler;
use super::prescan;
use super::res_matches;
use super::runtime_prelude_text;
use super::submodule_header;
use super::unit_header;
use super::expression::expr_size;
use super::expression::lower_expr;
use super::expression::lower_lvalue;
use vstd::slice::slice_index_get;
use vstd::slice::slice_subrange;

verus! {

/// Structural sizes, the termination measures of the mutually recursive
/// statement-lowering functions.
pub open spec fn stmt_size(s: Statement) -> nat
    decreases s,
{
    match s {
        Statement::VarDecl { value, .. } => 1 + expr_size(value),
        Statement::AssignStmt { lhs, rhs } => 1 + expr_size(lhs) + expr_size(rhs),
        Statement::On { condition, body, else_clause, error_clauses } => {
            1 + expr_size(condition) + block_size(body) + (match else_clause {
                Some(c) => block_size(c.body),
                None => 0,
            }) + (match error_clauses {
                Some(l) => clauses_size(l),
                None => 0,
            })
        },
        Statement::LoopOn { condition, body } => 1 + expr_size(condition) + block_size(body),
        Statement::LoopIter { iterable, step, filter, body, else_clause, .. } => {
            1 + expr_size(iterable) + (match step {
                Some(sc) => expr_size(sc.value),
                None => 0,
            }) + (match filter {
                Some(f) => expr_size(f.condition),
                None => 0,
            }) + block_size(body) + (match else_clause {
                Some(c) => block_size(c.body),
                None => 0,
            })
        },
        Statement::FunctionDef(def) => 2 + block_size(def.body),
        Statement::Give(a, b) => 1 + expr_size(a) + expr_size(b),
        Statement::Close(e) => 1 + expr_size(e),
        Statement::Return(opt) => 1 + (match opt {
            Some(e) => expr_size(e),
            None => 0,
        }),
        Statement::ExprStmt(e) => 1 + expr_size(e),
        Statement::Print(e) => 1 + expr_size(e),
        Statement::Documented { item, .. } => {
            1 + (match item {
                AnnotatableItem::FunctionDef(def) => 2 + block_size(def.body),
                _ => 1,
            })
        },
        _ => 1,
    }
}

pub open spec fn stmts_size(ss: Seq<Statement>) -> nat
    decreases ss,
{
    if ss.len() == 0 {
        0
    } else {
        1 + stmt_size(ss.first()) + stmts_size(ss.drop_first())
    }
}

pub open spec fn block_size(b: Block) -> nat
    decreases b,
{
    1 + stmts_size(b.statements@)
}

pub open spec fn clauses_size(l: ErrorClauseList) -> nat
    decreases l,
{
    1 + block_size(l.first.body) + (match l.rest {
        Some(r) => clauses_size(*r),
        None => 0,
    })
}

/// The quoted text of a string literal, without its surrounding quotes.
pub open spec fn strip_quotes(s: Seq<char>) -> Seq<char> {
    if s.len() >= 2 && s[0] == '"' && s[s.len() - 1] == '"' {
        s.subrange(1, s.len() - 1)
    } else {
        s
    }
}

/// Whether lowered text already denotes a failure construction.
pub open spec fn starts_err(s: Seq<char>) -> bool {
    s.len() >= 4 && s[0] == 'E' && s[1] == 'r' && s[2] == 'r' && s[3] == '('
}

/// The parameter-name set a pure body is restricted to.
pub open spec fn params_set(ps: Seq<FuncParam>) -> Set<Seq<char>>
    decreases ps.len(),
{
    if ps.len() == 0 {
        Set::empty()
    } else {
        params_set(ps.drop_last()).insert(ps.last().name@)
    }
}

/// Parameter list text: `name: type`, joined with `, `.
pub open spec fn params_text(ps: Seq<FuncParam>) -> Seq<char>
    decreases ps,
{
    if ps.len() == 0 {
        Seq::empty()
    } else {
        let piece = ps.first().name@ + ": "@ + type_text(ps.first().command_type);
        if ps.len() == 1 {
            piece
        } else {
            piece + ", "@ + params_text(ps.drop_first())
        }
    }
}

/// Struct-definition field text: `pub name: type`, joined with `, `.
pub open spec fn struct_fields_text(fs: Seq<FieldDef>) -> Seq<char>
    decreases fs,
{
    if fs.len() == 0 {
        Seq::empty()
    } else {
        let piece = "pub "@ + fs.first().name.value@ + ": "@ + type_text(fs.first().field_type);
        if fs.len() == 1 {
            piece
        } else {
            piece + ", "@ + struct_fields_text(fs.drop_first())
        }
    }
}

/// Host-call marshalling text: each parameter wrapped into a tagged value.
pub open spec fn marshal_args_text(ps: Seq<FuncParam>) -> Seq<char>
    decreases ps,
{
    if ps.len() == 0 {
        Seq::empty()
    } else {
        let piece = "kiro_runtime::RuntimeVal::from("@ + ps.first().name@ + ".clone())"@;
        if ps.len() == 1 {
            piece
        } else {
            piece + ", "@ + marshal_args_text(ps.drop_first())
        }
    }
}

/// The lowered text of a declared return type; `void` and an omitted type
/// both lower to the unit type.
pub open spec fn ret_type_text(rt: Option<KiroType>) -> Seq<char> {
    match rt {
        Some(t) => if t is Void {
            "()"@
        } else {
            type_text(t)
        },
        None => "()"@,
    }
}

/// Mirror of struct-definition lowering: a plain data type plus the generic
/// field-access hook; the compiler state is unchanged.
pub open spec fn lower_struct_def(def: StructDef) -> Seq<char> {
    "#[derive(Clone, Debug)]\npub struct "@ + def.name.value@ + " { "@ + struct_fields_text(
        def.fields@,
    ) + " }\nimpl KiroGet for "@ + def.name.value@
        + " { type Inner = Self; fn kiro_get<R>(&self, f: impl FnOnce(&Self::Inner) -> R) -> R { f(self) } }"@
}

/// Mirror of error-definition lowering: a helper constructing the tagged
/// error value, described by the given text or by the tag itself.
pub open spec fn lower_error_def(name: Seq<char>, description: Option<Seq<char>>) -> Seq<char> {
    let desc = match description {
        Some(d) => strip_quotes(d),
        None => name,
    };
    "fn kiro_error_"@ + name + "() -> anyhow::Error { anyhow::anyhow!(\""@ + desc
        + "\").context(\""@ + name + "\") }"@
}

/// Mirror of function-definition lowering. The body is lowered inside the
/// function's own purity and fallibility contexts, which are restored on
/// every exit path, a failing body included; a pure body may only
/// reference the parameter names.
pub open spec fn lower_function_def(st: CState, def: Rc<FunctionDef>) -> (Result<
    Seq<char>,
    Fault,
>, CState)
    decreases block_size(def.body), 1nat,
{
    let st1 = CState {
        funcs: st.funcs.insert(
            def.name@,
            FunctionInfo { is_pure: def.is_pure, can_error: def.can_error },
        ),
        ..st
    };
    let st2 = if def.is_pure {
        CState { in_pure: true, pure_params: params_set(def.params@), ..st1 }
    } else {
        st1
    };
    let st3 = if def.can_error {
        CState { in_failable: true, ..st2 }
    } else {
        st2
    };
    let (rb, st4) = lower_block(st3, def.body);
    let st5 = CState {
        in_pure: st.in_pure,
        in_failable: st.in_failable,
        pure_params: st.pure_params,
        ..st4
    };
    match rb {
        Ok(body_txt) => {
            let ret_def = ret_type_text(def.return_type);
            let ret_type = if def.can_error {
                "anyhow::Result<"@ + ret_def + ">"@
            } else {
                ret_def
            };
            let final_body = if def.can_error {
                "{ let __kiro_res = "@ + body_txt + "; Ok(__kiro_res) }"@
            } else {
                body_txt
            };
            let async_kw = if def.is_pure {
                ""@
            } else {
                "async"@
            };
            (
                Ok(
                    "pub "@ + async_kw + " fn "@ + def.name@ + "("@ + params_text(def.params@)
                        + ") -> "@ + ret_type + " "@ + final_body,
                ),
                st5,
            )
        },
        Err(f) => (Err(f), st5),
    }
}

/// Mirror of host-backed declaration lowering: an async forwarder that
/// marshals arguments into tagged values, calls the glue function of the
/// same name, and marshals the result (or the named error) back.
pub open spec fn lower_rust_fn_decl(st: CState, def: Rc<RustFnDecl>) -> (Seq<char>, CState) {
    let st1 = CState {
        funcs: st.funcs.insert(
            def.name@,
            FunctionInfo { is_pure: false, can_error: def.can_error },
        ),
        ..st
    };
    let ret_def = if def.return_type is Void {
        "()"@
    } else {
        type_text(def.return_type)
    };
    let args_vec = if def.params@.len() == 0 {
        "vec![]"@
    } else {
        "vec!["@ + marshal_args_text(def.params@) + "]"@
    };
    let final_body = if def.can_error {
        "{ match header::"@ + def.name@ + "("@ + args_vec
            + ").await { Ok(v) => Ok(v.try_into()?), Err(e) => Err(anyhow::anyhow!(e.name.clone()).context(e.name)) } }"@
    } else {
        "{ header::"@ + def.name@ + "("@ + args_vec + ").await.unwrap().try_into().unwrap() }"@
    };
    let ret_type = if def.can_error {
        "anyhow::Result<"@ + ret_def + ">"@
    } else {
        ret_def
    };
    (
        "pub async fn "@ + def.name@ + "("@ + params_text(def.params@) + ") -> "@ + ret_type + " "@
            + final_body,
        st1,
    )
}

/// Mirror of error-handler lowering: each clause in declaration order, a
/// tag match or a catch-all, joined with `else`. Returns the joined text
/// and whether a catch-all clause exists.
pub open spec fn lower_clauses(st: CState, l: ErrorClauseList) -> (Result<(Seq<char>, bool), Fault>, CState)
    decreases clauses_size(l), 0nat,
{
    let (rb, st1) = lower_block(st, l.first.body);
    match rb {
        Ok(bt) => {
            let clause_body = if st1.in_failable {
                bt + " return Err(__kiro_err);"@
            } else {
                bt
            };
            let branch = match l.first.error_type {
                Some(t) => "if __kiro_err.to_string().contains(\""@ + t@ + "\") { "@ + clause_body
                    + " }"@,
                None => "{ "@ + clause_body + " }"@,
            };
            let catch = l.first.error_type is None;
            match l.rest {
                Some(r) => {
                    let (rr, st2) = lower_clauses(st1, *r);
                    match rr {
                        Ok(rest) => (Ok((branch + " else "@ + rest.0, catch || rest.1)), st2),
                        Err(f) => (Err(f), st2),
                    }
                },
                None => (Ok((branch, catch)), st1),
            }
        },
        Err(f) => (Err(f), st1),
    }
}

/// Measure of the optional pieces of a conditional or a loop.
pub open spec fn opt_block_size(c: Option<OffClause>) -> nat {
    match c {
        Some(c) => block_size(c.body),
        None => 0,
    }
}

pub open spec fn opt_clauses_size(l: Option<ErrorClauseList>) -> nat {
    match l {
        Some(l) => clauses_size(l),
        None => 0,
    }
}

/// Mirror of `on` lowering: with error handlers it becomes a match over
/// the fallible condition, whose failure arm tries each handler in order
/// and otherwise re-raises (in a fallible function) or aborts; without
/// them it is a plain truthiness test with an optional `else`.
pub open spec fn lower_on(
    st: CState,
    condition: Expression,
    body: Block,
    else_clause: Option<OffClause>,
    error_clauses: Option<ErrorClauseList>,
) -> (Result<Seq<char>, Fault>, CState)
    decreases expr_size(condition) + block_size(body) + opt_block_size(else_clause)
        + opt_clauses_size(error_clauses), 2nat,
{
    let (rc, st1) = lower_expr(st, condition);
    match rc {
        Ok(cond) => {
            let (rb, st2) = lower_block(st1, body);
            match rb {
                Ok(bt) => {
                    match error_clauses {
                        Some(l) => {
                            let (rcl, st3) = lower_clauses(st2, l);
                            match rcl {
                                Ok(cl) => {
                                    let shadow = match condition {
                                        Expression::Variable(v) => "let "@ + v.value@
                                            + " = __kiro_val;"@,
                                        _ => Seq::empty(),
                                    };
                                    let joined = if cl.1 {
                                        cl.0
                                    } else {
                                        if st3.in_failable {
                                            cl.0 + " else "@ + "{ return Err(__kiro_err); }"@
                                        } else {
                                            cl.0 + " else "@
                                                + "{ Err::<(), anyhow::Error>(__kiro_err).unwrap(); }"@
                                        }
                                    };
                                    (
                                        Ok(
                                            "match "@ + cond + " { Ok(__kiro_val) => { "@ + shadow
                                                + " "@ + bt + " } Err(__kiro_err) => { "@ + joined
                                                + " } }"@,
                                        ),
                                        st3,
                                    )
                                },
                                Err(f) => (Err(f), st3),
                            }
                        },
                        None => {
                            match else_clause {
                                Some(c) => {
                                    let (re, st3) = lower_block(st2, c.body);
                                    match re {
                                        Ok(et) => (
                                            Ok(
                                                "if ("@ + cond + ").kiro_truthy() "@ + bt + " "@
                                                    + "else "@ + et,
                                            ),
                                            st3,
                                        ),
                                        Err(f) => (Err(f), st3),
                                    }
                                },
                                None => (Ok("if ("@ + cond + ").kiro_truthy() "@ + bt + " "@), st2),
                            }
                        },
                    }
                },
                Err(f) => (Err(f), st2),
            }
        },
        Err(f) => (Err(f), st1),
    }
}

/// Mirror of iterator-loop lowering: the iterable, an optional step, then
/// either the body alone or, with a filter, the body and the optional
/// `off` block wrapped in a per-item conditional inside the loop; the
/// loop name is recorded immutable afterwards.
pub open spec fn lower_loop_iter(
    st: CState,
    iterator: Seq<char>,
    iterable: Expression,
    step: Option<StepClause>,
    filter: Option<LoopFilter>,
    body: Block,
    else_clause: Option<OffClause>,
) -> (Result<Seq<char>, Fault>, CState)
    decreases expr_size(iterable) + (match step {
        Some(sc) => expr_size(sc.value),
        None => 0,
    }) + (match filter {
        Some(f) => expr_size(f.condition),
        None => 0,
    }) + block_size(body) + opt_block_size(else_clause), 2nat,
{
    let (rr, st1) = lower_expr(st, iterable);
    match rr {
        Ok(range_str) => {
            let (rs, st2) = match step {
                Some(sc) => {
                    let (r2, s2) = lower_expr(st1, sc.value);
                    match r2 {
                        Ok(sv) => (Ok(range_str + ".kiro_iter().step_by("@ + sv + " as usize)"@), s2),
                        Err(f) => (Err(f), s2),
                    }
                },
                None => (Ok(range_str + ".kiro_iter()"@), st1),
            };
            match rs {
                Ok(iter_call) => {
                    let (ri, st3) = match filter {
                        Some(fc) => {
                            let (r3, s3) = lower_expr(st2, fc.condition);
                            match r3 {
                                Ok(cond) => {
                                    let (r4, s4) = lower_block(s3, body);
                                    match r4 {
                                        Ok(tb) => {
                                            match else_clause {
                                                Some(c) => {
                                                    let (r5, s5) = lower_block(s4, c.body);
                                                    match r5 {
                                                        Ok(fb) => (
                                                            Ok(
                                                                "{ if "@ + cond + " "@ + tb + " "@
                                                                    + "else "@ + fb + " }"@,
                                                            ),
                                                            s5,
                                                        ),
                                                        Err(f) => (Err(f), s5),
                                                    }
                                                },
                                                None => (
                                                    Ok("{ if "@ + cond + " "@ + tb + " "@ + " }"@),
                                                    s4,
                                                ),
                                            }
                                        },
                                        Err(f) => (Err(f), s4),
                                    }
                                },
                                Err(f) => (Err(f), s3),
                            }
                        },
                        None => lower_block(st2, body),
                    };
                    match ri {
                        Ok(inner) => {
                            let st4 = CState {
                                vars: st3.vars.insert(iterator, VarInfo { is_mutable: false }),
                                ..st3
                            };
                            (
                                Ok(
                                    "for "@ + iterator + "_temp in "@ + iter_call + " { let "@
                                        + iterator + " = "@ + iterator + "_temp.as_kiro(); "@
                                        + inner + " }"@,
                                ),
                                st4,
                            )
                        },
                        Err(f) => (Err(f), st3),
                    }
                },
                Err(f) => (Err(f), st2),
            }
        },
        Err(f) => (Err(f), st1),
    }
}

/// Mirror of statement lowering.
pub open spec fn lower_stmt(st: CState, s: Statement) -> (Result<Seq<char>, Fault>, CState)
    decreases stmt_size(s), 0nat,
{
    match s {
        Statement::ErrorDef { name, description } => {
            let desc = match description {
                Some(d) => Some(d.value.value@),
                None => None,
            };
            (Ok(lower_error_def(name@, desc)), st)
        },
        Statement::StructDef(def) => (Ok(lower_struct_def(def)), st),
        Statement::Import { module_name } => {
            (
                Ok("pub mod "@ + module_name@ + ";"@),
                CState { imports: st.imports.insert(module_name@), ..st },
            )
        },
        Statement::VarDecl { ident, value } => {
            let (r, st1) = lower_expr(st, value);
            match r {
                Ok(val) => {
                    let st2 = CState {
                        vars: st1.vars.insert(ident@, VarInfo { is_mutable: true }),
                        ..st1
                    };
                    let st3 = if st2.in_pure {
                        CState { pure_params: st2.pure_params.insert(ident@), ..st2 }
                    } else {
                        st2
                    };
                    (Ok("let mut "@ + ident@ + " = "@ + val + ";"@), st3)
                },
                Err(f) => (Err(f), st1),
            }
        },
        Statement::AssignStmt { lhs, rhs } => {
            let (r, st1) = lower_expr(st, rhs);
            match r {
                Ok(rhs_str) => {
                    match lhs {
                        Expression::Variable(v) => {
                            let n = v.value@;
                            if st1.vars.contains_key(n) {
                                if st1.vars[n].is_mutable {
                                    (Ok(n + ".kiro_assign("@ + rhs_str + ");"@), st1)
                                } else {
                                    (Err(Fault::ImmutableMutation), st1)
                                }
                            } else {
                                let st2 = CState {
                                    vars: st1.vars.insert(n, VarInfo { is_mutable: false }),
                                    ..st1
                                };
                                let st3 = if st2.in_pure {
                                    CState { pure_params: st2.pure_params.insert(n), ..st2 }
                                } else {
                                    st2
                                };
                                (Ok("let "@ + n + " = "@ + rhs_str + ";"@), st3)
                            }
                        },
                        _ => {
                            let (rl, st2) = lower_lvalue(st1, lhs);
                            match rl {
                                Ok(lv) => (Ok(lv + ".kiro_assign("@ + rhs_str + ");"@), st2),
                                Err(f) => (Err(f), st2),
                            }
                        },
                    }
                },
                Err(f) => (Err(f), st1),
            }
        },
        Statement::Print(e) => {
            if st.in_pure {
                (Err(Fault::PurityViolation), st)
            } else {
                let (r, st1) = lower_expr(st, e);
                match r {
                    Ok(val) => (Ok("println!(\"{}\", "@ + val + ");"@), st1),
                    Err(f) => (Err(f), st1),
                }
            }
        },
        Statement::On { condition, body, else_clause, error_clauses } => lower_on(
            st,
            condition,
            body,
            else_clause,
            error_clauses,
        ),
        Statement::LoopOn { condition, body } => {
            let (rc, st1) = lower_expr(st, condition);
            match rc {
                Ok(cond) => {
                    let (rb, st2) = lower_block(st1, body);
                    match rb {
                        Ok(bt) => (Ok("while "@ + cond + " "@ + bt), st2),
                        Err(f) => (Err(f), st2),
                    }
                },
                Err(f) => (Err(f), st1),
            }
        },
        Statement::LoopIter { iterator, iterable, step, filter, body, else_clause } => {
            lower_loop_iter(st, iterator@, iterable, step, filter, body, else_clause)
        },
        Statement::FunctionDef(def) => lower_function_def(st, def),
        Statement::RustFnDecl(def) => {
            let (txt, st1) = lower_rust_fn_decl(st, def);
            (Ok(txt), st1)
        },
        Statement::ExprStmt(e) => {
            let (r, st1) = lower_expr(st, e);
            match r {
                Ok(val) => (Ok(val + ";"@), st1),
                Err(f) => (Err(f), st1),
            }
        },
        Statement::Give(ch, val) => {
            if st.in_pure {
                (Err(Fault::PurityViolation), st)
            } else {
                let (rc, st1) = lower_expr(st, ch);
                match rc {
                    Ok(c) => {
                        let (rv, st2) = lower_expr(st1, val);
                        match rv {
                            Ok(v) => (Ok(c + ".tx.send("@ + v + ").await.unwrap();"@), st2),
                            Err(f) => (Err(f), st2),
                        }
                    },
                    Err(f) => (Err(f), st1),
                }
            }
        },
        Statement::Close(ch) => {
            let (rc, st1) = lower_expr(st, ch);
            match rc {
                Ok(c) => (Ok(c + ".tx.close();"@), st1),
                Err(f) => (Err(f), st1),
            }
        },
        Statement::Return(opt) => {
            match opt {
                Some(e) => {
                    let (r, st1) = lower_expr(st, e);
                    match r {
                        Ok(val) => {
                            if st1.in_failable && !starts_err(val) {
                                (Ok("return Ok("@ + val + ");"@), st1)
                            } else {
                                (Ok("return "@ + val + ";"@), st1)
                            }
                        },
                        Err(f) => (Err(f), st1),
                    }
                },
                None => {
                    if st.in_failable {
                        (Ok("return Ok(());"@), st)
                    } else {
                        (Ok("return;"@), st)
                    }
                },
            }
        },
        Statement::Break => (Ok("break;"@), st),
        Statement::Continue => (Ok("continue;"@), st),
        Statement::Documented { item, .. } => {
            match item {
                AnnotatableItem::StructDef(def) => (Ok(lower_struct_def(def)), st),
                AnnotatableItem::FunctionDef(def) => lower_function_def(st, def),
                AnnotatableItem::RustFnDecl(def) => {
                    let (txt, st1) = lower_rust_fn_decl(st, def);
                    (Ok(txt), st1)
                },
            }
        },
    }
}

/// Mirror of statement-list lowering inside a block: lines joined with
/// newlines; a final standalone expression loses its semicolon, so a block
/// can yield its tail value.
pub open spec fn lower_stmts(st: CState, ss: Seq<Statement>) -> (Result<Seq<char>, Fault>, CState)
    decreases stmts_size(ss), 0nat,
{
    if ss.len() == 0 {
        (Ok(Seq::empty()), st)
    } else {
        let (r, st1) = if ss.len() == 1 {
            match ss.first() {
                Statement::ExprStmt(e) => lower_expr(st, e),
                other => lower_stmt(st, other),
            }
        } else {
            lower_stmt(st, ss.first())
        };
        match r {
            Ok(line) => {
                if ss.len() == 1 {
                    (Ok(line), st1)
                } else {
                    let (r2, st2) = lower_stmts(st1, ss.drop_first());
                    match r2 {
                        Ok(rest) => (Ok(line + "\n"@ + rest), st2),
                        Err(f) => (Err(f), st2),
                    }
                }
            },
            Err(f) => (Err(f), st1),
        }
    }
}

/// Mirror of block lowering.
pub open spec fn lower_block(st: CState, b: Block) -> (Result<Seq<char>, Fault>, CState)
    decreases block_size(b), 0nat,
{
    let (r, st1) = lower_stmts(st, b.statements@);
    match r {
        Ok(lines) => (Ok("{\n"@ + lines + "\n}"@), st1),
        Err(f) => (Err(f), st1),
    }
}

/// Mirror of whole-unit lowering: statements in order, `import` and
/// struct-definition lines hoisted above the rest. Returns the hoisted
/// text and the body text.
pub open spec fn lower_unit(st: CState, stmts: Seq<Statement>) -> (Result<
    (Seq<char>, Seq<char>),
    Fault,
>, CState)
    decreases stmts_size(stmts), 1nat,
{
    if stmts.len() == 0 {
        (Ok((Seq::empty(), Seq::empty())), st)
    } else {
        let (r0, st1) = lower_stmt(st, stmts.first());
        match r0 {
            Ok(line) => {
                let (rrest, st2) = lower_unit(st1, stmts.drop_first());
                match rrest {
                    Ok(parts) => {
                        let hoisted = stmts.first() is Import || stmts.first() is StructDef;
                        if hoisted {
                            (Ok((line + "\n"@ + parts.0, parts.1)), st2)
                        } else {
                            (Ok((parts.0, line + "\n"@ + parts.1)), st2)
                        }
                    },
                    Err(f) => (Err(f), st2),
                }
            },
            Err(f) => (Err(f), st1),
        }
    }
}

/// Mirror of whole-program compilation: the function pre-scan, the unit
/// lowering, and the fixed framing. A root unit carries the runtime
/// prelude and the program entry point; a non-root unit references the
/// shared runtime instead.
pub open spec fn lower_program(st: CState, prog: Program, is_main: bool) -> (Result<
    Seq<char>,
    Fault,
>, CState) {
    let st1 = CState { funcs: prescan(st.funcs, prog.statements@), ..st };
    let (r, st2) = lower_unit(st1, prog.statements@);
    match r {
        Ok(parts) => {
            if is_main {
                (
                    Ok(
                        unit_header() + "mod header;\n"@ + runtime_prelude_text() + parts.0
                            + "#[tokio::main]\nasync fn main(){\n"@ + parts.1 + "}\n"@,
                    ),
                    st2,
                )
            } else {
                (Ok(unit_header() + submodule_header() + parts.0 + parts.1), st2)
            }
        },
        Err(f) => (Err(f), st2),
    }
}

fn str_starts_err(s: &String) -> (r: bool)
    ensures
        r == starts_err(s@),
{
    let n = s.as_str().unicode_len();
    if n < 4 {
        return false;
    }
    s.as_str().get_char(0) == 'E' && s.as_str().get_char(1) == 'r' && s.as_str().get_char(2) == 'r'
        && s.as_str().get_char(3) == '('
}

fn strip_quotes_exec(s: &String) -> (r: String)
    ensures
        r@ == strip_quotes(s@),
{
    let n = s.as_str().unicode_len();
    if n >= 2 && s.as_str().get_char(0) == '"' && s.as_str().get_char(n - 1) == '"' {
        let inner = s.as_str().substring_char(1, n - 1);
        String::from_str(inner)
    } else {
        s.clone()
    }
}

fn compile_params(ps: &[FuncParam]) -> (r: String)
    ensures
        r@ == params_text(ps@),
    decreases ps@.len(),
{
    if ps.len() == 0 {
        let r = String::new();
        proof {
            assert(r@ =~= params_text(ps@));
        }
        return r;
    }
    let mut piece = slice_index_get(ps, 0).name.clone();
    piece.append(": ");
    let t = compile_type(&slice_index_get(ps, 0).command_type);
    piece.append(t.as_str());
    if ps.len() == 1 {
        return piece;
    }
    let rest = compile_params(slice_subrange(ps, 1, ps.len()));
    let mut out = piece;
    out.append(", ");
    out.append(rest.as_str());
    out
}

fn compile_struct_fields(fs: &[FieldDef]) -> (r: String)
    ensures
        r@ == struct_fields_text(fs@),
    decreases fs@.len(),
{
    if fs.len() == 0 {
        let r = String::new();
        proof {
            assert(r@ =~= struct_fields_text(fs@));
        }
        return r;
    }
    let mut piece = String::from_str("pub ");
    piece.append(slice_index_get(fs, 0).name.value.as_str());
    piece.append(": ");
    let t = compile_type(&slice_index_get(fs, 0).field_type);
    piece.append(t.as_str());
    if fs.len() == 1 {
        return piece;
    }
    let rest = compile_struct_fields(slice_subrange(fs, 1, fs.len()));
    let mut out = piece;
    out.append(", ");
    out.append(rest.as_str());
    out
}

fn compile_marshal_args(ps: &[FuncParam]) -> (r: String)
    ensures
        r@ == marshal_args_text(ps@),
    decreases ps@.len(),
{
    if ps.len() == 0 {
        let r = String::new();
        proof {
            assert(r@ =~= marshal_args_text(ps@));
        }
        return r;
    }
    let mut piece = String::from_str("kiro_runtime::RuntimeVal::from(");
    piece.append(slice_index_get(ps, 0).name.as_str());
    piece.append(".clone())");
    if ps.len() == 1 {
        return piece;
    }
    let rest = compile_marshal_args(slice_subrange(ps, 1, ps.len()));
    let mut out = piece;
    out.append(", ");
    out.append(rest.as_str());
    out
}

pub fn param_name_set(ps: &[FuncParam]) -> (r: crate::tables::NameSet)
    ensures
        r@ == params_set(ps@),
{
    let n = ps.len();
    let mut out = crate::tables::NameSet::new();
    let mut i: usize = 0;
    while i < n
        invariant
            i <= n,
            n == ps@.len(),
            out@ == params_set(ps@.take(i as int)),
        decreases n - i,
    {
        out.insert(slice_index_get(ps, i).name.clone());
        proof {
            assert(ps@.take(i + 1).drop_last() =~= ps@.take(i as int));
            assert(ps@.take(i + 1).last() == ps@[i as int]);
        }
        i = i + 1;
    }
    proof {
        assert(ps@.take(n as int) =~= ps@);
    }
    out
}

fn ret_type_exec(rt: &Option<KiroType>) -> (r: String)
    ensures
        r@ == ret_type_text(*rt),
{
    match rt {
        Some(t) => {
            if let KiroType::Void = t {
                String::from_str("()")
            } else {
                compile_type(t)
            }
        },
        None => String::from_str("()"),
    }
}

impl Compiler {
    /// Lowers a struct definition; the state is unchanged.
    fn compile_struct_def(&mut self, def: &StructDef) -> (r: String)
        ensures
            final(self)@ == old(self)@,
            r@ == lower_struct_def(*def),
    {
        let mut out = String::from_str("#[derive(Clone, Debug)]\npub struct ");
        out.append(def.name.value.as_str());
        out.append(" { ");
        let fields = compile_struct_fields(def.fields.as_slice());
        out.append(fields.as_str());
        out.append(" }\nimpl KiroGet for ");
        out.append(def.name.value.as_str());
        out.append(
            " { type Inner = Self; fn kiro_get<R>(&self, f: impl FnOnce(&Self::Inner) -> R) -> R { f(self) } }",
        );
        out
    }

    /// Lowers a function definition as `lower_function_def` states.
    #[verifier::rlimit(100)]
    fn compile_function_def(&mut self, def: &Rc<FunctionDef>) -> (r: Result<String, Fault>)
        ensures
            ({
                let (m, st) = lower_function_def(old(self)@, *def);
                final(self)@ == st && res_matches(r, m)
            }),
        decreases block_size(def.body), 1nat,
    {
        self.functions.put(
            def.name.clone(),
            FunctionInfo { is_pure: def.is_pure, can_error: def.can_error },
        );
        let old_pure = self.in_pure_context;
        let old_failable = self.in_failable_fn;
        let saved_params = self.pure_scope_params.duplicate();
        if def.is_pure {
            self.in_pure_context = true;
            self.pure_scope_params = param_name_set(def.params.as_slice());
        }
        if def.can_error {
            self.in_failable_fn = true;
        }
        let body_res = self.compile_block(&def.body);
        self.in_pure_context = old_pure;
        self.in_failable_fn = old_failable;
        self.pure_scope_params = saved_params;
        let body_txt = match body_res {
            Ok(t) => t,
            Err(f) => {
                return Err(f);
            },
        };
        let ret_def = ret_type_exec(&def.return_type);
        let ret_type = if def.can_error {
            let mut t = String::from_str("anyhow::Result<");
            t.append(ret_def.as_str());
            t.append(">");
            t
        } else {
            ret_def
        };
        let final_body = if def.can_error {
            let mut b = String::from_str("{ let __kiro_res = ");
            b.append(body_txt.as_str());
            b.append("; Ok(__kiro_res) }");
            b
        } else {
            body_txt
        };
        let mut out = String::from_str("pub ");
        if def.is_pure {
            out.append("");
        } else {
            out.append("async");
        }
        out.append(" fn ");
        out.append(def.name.as_str());
        out.append("(");
        let params = compile_params(def.params.as_slice());
        out.append(params.as_str());
        out.append(") -> ");
        out.append(ret_type.as_str());
        out.append(" ");
        out.append(final_body.as_str());
        Ok(out)
    }

    /// Lowers a host-backed declaration as `lower_rust_fn_decl` states.
    #[verifier::rlimit(100)]
    fn compile_rust_fn_decl(&mut self, def: &Rc<RustFnDecl>) -> (r: String)
        ensures
            ({
                let (m, st) = lower_rust_fn_decl(old(self)@, *def);
                final(self)@ == st && r@ == m
            }),
    {
        self.functions.put(
            def.name.clone(),
            FunctionInfo { is_pure: false, can_error: def.can_error },
        );
        let ret_def = if let KiroType::Void = def.return_type {
            String::from_str("()")
        } else {
            compile_type(&def.return_type)
        };
        let args_vec = if def.params.len() == 0 {
            String::from_str("vec![]")
        } else {
            let mut av = String::from_str("vec![");
            let m = compile_marshal_args(def.params.as_slice());
            av.append(m.as_str());
            av.append("]");
            av
        };
        let ret_type = if def.can_error {
            let mut t = String::from_str("anyhow::Result<");
            t.append(ret_def.as_str());
            t.append(">");
            t
        } else {
            ret_def
        };
        let final_body = if def.can_error {
            let mut b = String::from_str("{ match header::");
            b.append(def.name.as_str());
            b.append("(");
            b.append(args_vec.as_str());
            b.append(
                ").await { Ok(v) => Ok(v.try_into()?), Err(e) => Err(anyhow::anyhow!(e.name.clone()).context(e.name)) } }",
            );
            b
        } else {
            let mut b = String::from_str("{ header::");
            b.append(def.name.as_str());
            b.append("(");
            b.append(args_vec.as_str());
            b.append(").await.unwrap().try_into().unwrap() }");
            b
        };
        let mut out = String::from_str("pub async fn ");
        out.append(def.name.as_str());
        out.append("(");
        let params = compile_params(def.params.as_slice());
        out.append(params.as_str());
        out.append(") -> ");
        out.append(ret_type.as_str());
        out.append(" ");
        out.append(final_body.as_str());
        out
    }

    /// Lowers the error handlers of an `on` statement; the second result
    /// says whether a catch-all clause exists.
    #[verifier::rlimit(100)]
    fn compile_clauses(&mut self, l: &ErrorClauseList) -> (r: Result<(String, bool), Fault>)
        ensures
            ({
                let (m, st) = lower_clauses(old(self)@, *l);
                final(self)@ == st && (match r {
                    Ok(p) => m is Ok && p.0@ == m->Ok_0.0 && p.1 == m->Ok_0.1,
                    Err(f) => m == Err::<(Seq<char>, bool), Fault>(f),
                })
            }),
        decreases clauses_size(*l), 0nat,
    {
        let bt = match self.compile_block(&l.first.body) {
            Ok(t) => t,
            Err(f) => {
                return Err(f);
            },
        };
        let clause_body = if self.in_failable_fn {
            let mut cb = bt;
            cb.append(" return Err(__kiro_err);");
            cb
        } else {
            bt
        };
        let branch = match &l.first.error_type {
            Some(t) => {
                let mut b = String::from_str("if __kiro_err.to_string().contains(\"");
                b.append(t.as_str());
                b.append("\") { ");
                b.append(clause_body.as_str());
                b.append(" }");
                b
            },
            None => {
                let mut b = String::from_str("{ ");
                b.append(clause_body.as_str());
                b.append(" }");
                b
            },
        };
        let catch = l.first.error_type.is_none();
        match &l.rest {
            Some(rest_list) => {
                let rest = match self.compile_clauses(rest_list) {
                    Ok(p) => p,
                    Err(f) => {
                        return Err(f);
                    },
                };
                let mut out = branch;
                out.append(" else ");
                out.append(rest.0.as_str());
                Ok((out, catch || rest.1))
            },
            None => Ok((branch, catch)),
        }
    }

    /// Lowers one statement as `lower_stmt` states.
    #[verifier::rlimit(100)]
    pub fn compile_statement(&mut self, statement: &Statement) -> (r: Result<String, Fault>)
        ensures
            ({
                let (m, st) = lower_stmt(old(self)@, *statement);
                final(self)@ == st && res_matches(r, m)
            }),
        decreases stmt_size(*statement), 1nat,
    {
        match statement {
            Statement::ErrorDef { name, description } => {
                let desc = match description {
                    Some(d) => strip_quotes_exec(&d.value.value),
                    None => name.clone(),
                };
                let mut out = String::from_str("fn kiro_error_");
                out.append(name.as_str());
                out.append("() -> anyhow::Error { anyhow::anyhow!(\"");
                out.append(desc.as_str());
                out.append("\").context(\"");
                out.append(name.as_str());
                out.append("\") }");
                Ok(out)
            },
            Statement::StructDef(def) => Ok(self.compile_struct_def(def)),
            Statement::Import { module_name } => {
                self.imported_modules.insert(module_name.clone());
                let mut out = String::from_str("pub mod ");
                out.append(module_name.as_str());
                out.append(";");
                Ok(out)
            },
            Statement::VarDecl { ident, value } => {
                let val = match self.compile_expr(value) {
                    Ok(t) => t,
                    Err(f) => {
                        return Err(f);
                    },
                };
                self.known_vars.put(ident.clone(), VarInfo { is_mutable: true });
                if self.in_pure_context {
                    self.pure_scope_params.insert(ident.clone());
                }
                let mut out = String::from_str("let mut ");
                out.append(ident.as_str());
                out.append(" = ");
                out.append(val.as_str());
                out.append(";");
                Ok(out)
            },
            Statement::AssignStmt { .. } => self.compile_statement_rest(statement),
            Statement::Print(e) => {
                if self.in_pure_context {
                    return Err(Fault::PurityViolation);
                }
                let val = match self.compile_expr(e) {
                    Ok(t) => t,
                    Err(f) => {
                        return Err(f);
                    },
                };
                let mut out = String::from_str("println!(\"{}\", ");
                out.append(val.as_str());
                out.append(");");
                Ok(out)
            },
            Statement::On { condition, body, else_clause, error_clauses } => {
                self.compile_on(condition, body, else_clause, error_clauses)
            },
            Statement::LoopOn { .. } => self.compile_statement_rest(statement),
            Statement::LoopIter { iterator, iterable, step, filter, body, else_clause } => {
                self.compile_loop_iter(iterator, iterable, step, filter, body, else_clause)
            },
            Statement::FunctionDef(def) => self.compile_function_def(def),
            Statement::RustFnDecl(def) => Ok(self.compile_rust_fn_decl(def)),
            Statement::ExprStmt(e) => {
                let val = match self.compile_expr(e) {
                    Ok(t) => t,
                    Err(f) => {
                        return Err(f);
                    },
                };
                let mut out = val;
                out.append(";");
                Ok(out)
            },
            Statement::Give(_, _) => self.compile_statement_rest(statement),
            Statement::Close(_) => self.compile_statement_rest(statement),
            Statement::Return(opt) => {
                match opt {
                    Some(e) => {
                        let val = match self.compile_expr(e) {
                            Ok(t) => t,
                            Err(f) => {
                                return Err(f);
                            },
                        };
                        if self.in_failable_fn && !str_starts_err(&val) {
                            let mut out = String::from_str("return Ok(");
                            out.append(val.as_str());
                            out.append(");");
                            Ok(out)
                        } else {
                            let mut out = String::from_str("return ");
                            out.append(val.as_str());
                            out.append(";");
                            Ok(out)
                        }
                    },
                    None => {
                        if self.in_failable_fn {
                            Ok(String::from_str("return Ok(());"))
                        } else {
                            Ok(String::from_str("return;"))
                        }
                    },
                }
            },
            Statement::Break => Ok(String::from_str("break;")),
            Statement::Continue => Ok(String::from_str("continue;")),
            Statement::Documented { item, .. } => {
                match item {
                    AnnotatableItem::StructDef(def) => Ok(self.compile_struct_def(def)),
                    AnnotatableItem::FunctionDef(def) => self.compile_function_def(def),
                    AnnotatableItem::RustFnDecl(def) => Ok(self.compile_rust_fn_decl(def)),
                }
            },
        }
    }

    #[verifier::rlimit(100)]
    fn compile_statement_rest(&mut self, statement: &Statement) -> (r: Result<String, Fault>)
        requires
            statement matches Statement::AssignStmt { .. } || statement matches Statement::LoopOn {
                ..
            } || statement matches Statement::Give(_, _) || statement matches Statement::Close(_),
        ensures
            ({
                let (m, st) = lower_stmt(old(self)@, *statement);
                final(self)@ == st && res_matches(r, m)
            }),
        decreases stmt_size(*statement), 0nat,
    {
        match statement {
            Statement::AssignStmt { lhs, rhs } => {
                let rhs_str = match self.compile_expr(rhs) {
                    Ok(t) => t,
                    Err(f) => {
                        return Err(f);
                    },
                };
                match lhs {
                    Expression::Variable(v) => {
                        match self.known_vars.get(&v.value) {
                            Some(info) => {
                                if info.is_mutable {
                                    let mut out = v.value.clone();
                                    out.append(".kiro_assign(");
                                    out.append(rhs_str.as_str());
                                    out.append(");");
                                    Ok(out)
                                } else {
                                    Err(Fault::ImmutableMutation)
                                }
                            },
                            None => {
                                self.known_vars.put(
                                    v.value.clone(),
                                    VarInfo { is_mutable: false },
                                );
                                if self.in_pure_context {
                                    self.pure_scope_params.insert(v.value.clone());
                                }
                                let mut out = String::from_str("let ");
                                out.append(v.value.as_str());
                                out.append(" = ");
                                out.append(rhs_str.as_str());
                                out.append(";");
                                Ok(out)
                            },
                        }
                    },
                    _ => {
                        let lv = match self.compile_lvalue(lhs) {
                            Ok(t) => t,
                            Err(f) => {
                                return Err(f);
                            },
                        };
                        let mut out = lv;
                        out.append(".kiro_assign(");
                        out.append(rhs_str.as_str());
                        out.append(");");
                        Ok(out)
                    },
                }
            },
            Statement::LoopOn { condition, body } => {
                let cond = match self.compile_expr(condition) {
                    Ok(t) => t,
                    Err(f) => {
                        return Err(f);
                    },
                };
                let bt = match self.compile_block(body) {
                    Ok(t) => t,
                    Err(f) => {
                        return Err(f);
                    },
                };
                let mut out = String::from_str("while ");
                out.append(cond.as_str());
                out.append(" ");
                out.append(bt.as_str());
                Ok(out)
            },
            Statement::Give(ch, val) => {
                if self.in_pure_context {
                    return Err(Fault::PurityViolation);
                }
                let c = match self.compile_expr(ch) {
                    Ok(t) => t,
                    Err(f) => {
                        return Err(f);
                    },
                };
                let v = match self.compile_expr(val) {
                    Ok(t) => t,
                    Err(f) => {
                        return Err(f);
                    },
                };
                let mut out = c;
                out.append(".tx.send(");
                out.append(v.as_str());
                out.append(").await.unwrap();");
                Ok(out)
            },
            Statement::Close(ch) => {
                let c = match self.compile_expr(ch) {
                    Ok(t) => t,
                    Err(f) => {
                        return Err(f);
                    },
                };
                let mut out = c;
                out.append(".tx.close();");
                Ok(out)
            },
            _ => Err(Fault::InvalidLValue),
        }
    }

    #[verifier::rlimit(100)]
    fn compile_on(
        &mut self,
        condition: &Expression,
        body: &Block,
        else_clause: &Option<OffClause>,
        error_clauses: &Option<ErrorClauseList>,
    ) -> (r: Result<String, Fault>)
        ensures
            ({
                let (m, st) = lower_on(old(self)@, *condition, *body, *else_clause, *error_clauses);
                final(self)@ == st && res_matches(r, m)
            }),
        decreases expr_size(*condition) + block_size(*body) + opt_block_size(*else_clause)
            + opt_clauses_size(*error_clauses), 2nat,
    {
        let cond = match self.compile_expr(condition) {
            Ok(t) => t,
            Err(f) => {
                return Err(f);
            },
        };
        let bt = match self.compile_block(body) {
            Ok(t) => t,
            Err(f) => {
                return Err(f);
            },
        };
        match error_clauses {
            Some(l) => {
                let cl = match self.compile_clauses(l) {
                    Ok(p) => p,
                    Err(f) => {
                        return Err(f);
                    },
                };
                let shadow = match condition {
                    Expression::Variable(v) => {
                        let mut sh = String::from_str("let ");
                        sh.append(v.value.as_str());
                        sh.append(" = __kiro_val;");
                        sh
                    },
                    _ => String::new(),
                };
                let joined = if cl.1 {
                    cl.0
                } else {
                    let mut j = cl.0;
                    j.append(" else ");
                    if self.in_failable_fn {
                        j.append("{ return Err(__kiro_err); }");
                    } else {
                        j.append("{ Err::<(), anyhow::Error>(__kiro_err).unwrap(); }");
                    }
                    j
                };
                let mut out = String::from_str("match ");
                out.append(cond.as_str());
                out.append(" { Ok(__kiro_val) => { ");
                out.append(shadow.as_str());
                out.append(" ");
                out.append(bt.as_str());
                out.append(" } Err(__kiro_err) => { ");
                out.append(joined.as_str());
                out.append(" } }");
                Ok(out)
            },
            None => {
                match else_clause {
                    Some(c) => {
                        let et = match self.compile_block(&c.body) {
                            Ok(t) => t,
                            Err(f) => {
                                return Err(f);
                            },
                        };
                        let mut out = String::from_str("if (");
                        out.append(cond.as_str());
                        out.append(").kiro_truthy() ");
                        out.append(bt.as_str());
                        out.append(" ");
                        out.append("else ");
                        out.append(et.as_str());
                        Ok(out)
                    },
                    None => {
                        let mut out = String::from_str("if (");
                        out.append(cond.as_str());
                        out.append(").kiro_truthy() ");
                        out.append(bt.as_str());
                        out.append(" ");
                        Ok(out)
                    },
                }
            },
        }
    }

    #[verifier::rlimit(100)]
    fn compile_loop_iter(
        &mut self,
        iterator: &String,
        iterable: &Expression,
        step: &Option<StepClause>,
        filter: &Option<LoopFilter>,
        body: &Block,
        else_clause: &Option<OffClause>,
    ) -> (r: Result<String, Fault>)
        ensures
            ({
                let (m, st) = lower_loop_iter(
                    old(self)@,
                    iterator@,
                    *iterable,
                    *step,
                    *filter,
                    *body,
                    *else_clause,
                );
                final(self)@ == st && res_matches(r, m)
            }),
        decreases expr_size(*iterable) + (match step {
            Some(sc) => expr_size(sc.value),
            None => 0,
        }) + (match filter {
            Some(f) => expr_size(f.condition),
            None => 0,
        }) + block_size(*body) + opt_block_size(*else_clause), 2nat,
    {
        let range_str = match self.compile_expr(iterable) {
            Ok(t) => t,
            Err(f) => {
                return Err(f);
            },
        };
        let iter_call = match step {
            Some(sc) => {
                let sv = match self.compile_expr(&sc.value) {
                    Ok(t) => t,
                    Err(f) => {
                        return Err(f);
                    },
                };
                let mut ic = range_str;
                ic.append(".kiro_iter().step_by(");
                ic.append(sv.as_str());
                ic.append(" as usize)");
                ic
            },
            None => {
                let mut ic = range_str;
                ic.append(".kiro_iter()");
                ic
            },
        };
        let inner = match filter {
            Some(fc) => {
                let cond = match self.compile_expr(&fc.condition) {
                    Ok(t) => t,
                    Err(f) => {
                        return Err(f);
                    },
                };
                let tb = match self.compile_block(body) {
                    Ok(t) => t,
                    Err(f) => {
                        return Err(f);
                    },
                };
                let mut inn = String::from_str("{ if ");
                inn.append(cond.as_str());
                inn.append(" ");
                inn.append(tb.as_str());
                inn.append(" ");
                match else_clause {
                    Some(c) => {
                        let fb = match self.compile_block(&c.body) {
                            Ok(t) => t,
                            Err(f) => {
                                return Err(f);
                            },
                        };
                        inn.append("else ");
                        inn.append(fb.as_str());
                        inn.append(" }");
                    },
                    None => {
                        inn.append(" }");
                    },
                }
                inn
            },
            None => {
                match self.compile_block(body) {
                    Ok(t) => t,
                    Err(f) => {
                        return Err(f);
                    },
                }
            },
        };
        self.known_vars.put(iterator.clone(), VarInfo { is_mutable: false });
        let mut out = String::from_str("for ");
        out.append(iterator.as_str());
        out.append("_temp in ");
        out.append(iter_call.as_str());
        out.append(" { let ");
        out.append(iterator.as_str());
        out.append(" = ");
        out.append(iterator.as_str());
        out.append("_temp.as_kiro(); ");
        out.append(inner.as_str());
        out.append(" }");
        Ok(out)
    }

    #[verifier::rlimit(100)]
    fn compile_stmts(&mut self, ss: &[Statement]) -> (r: Result<String, Fault>)
        ensures
            ({
                let (m, st) = lower_stmts(old(self)@, ss@);
                final(self)@ == st && res_matches(r, m)
            }),
        decreases stmts_size(ss@), 0nat,
    {
        if ss.len() == 0 {
            return Ok(String::new());
        }
        let line_res = if ss.len() == 1 {
            match slice_index_get(ss, 0) {
                Statement::ExprStmt(e) => self.compile_expr(e),
                other => self.compile_statement(other),
            }
        } else {
            self.compile_statement(slice_index_get(ss, 0))
        };
        let line = match line_res {
            Ok(t) => t,
            Err(f) => {
                return Err(f);
            },
        };
        if ss.len() == 1 {
            return Ok(line);
        }
        let rest = match self.compile_stmts(slice_subrange(ss, 1, ss.len())) {
            Ok(t) => t,
            Err(f) => {
                return Err(f);
            },
        };
        let mut out = line;
        out.append("\n");
        out.append(rest.as_str());
        Ok(out)
    }

    /// Lowers a block as `lower_block` states.
    #[verifier::rlimit(100)]
    pub fn compile_block(&mut self, block: &Block) -> (r: Result<String, Fault>)
        ensures
            ({
                let (m, st) = lower_block(old(self)@, *block);
                final(self)@ == st && res_matches(r, m)
            }),
        decreases block_size(*block), 0nat,
    {
        let lines = match self.compile_stmts(block.statements.as_slice()) {
            Ok(t) => t,
            Err(f) => {
                return Err(f);
            },
        };
        let mut out = String::from_str("{\n");
        out.append(lines.as_str());
        out.append("\n}");
        Ok(out)
    }

    #[verifier::rlimit(100)]
    fn compile_unit(&mut self, ss: &[Statement]) -> (r: Result<(String, String), Fault>)
        ensures
            ({
                let (m, st) = lower_unit(old(self)@, ss@);
                final(self)@ == st && (match r {
                    Ok(p) => m is Ok && p.0@ == m->Ok_0.0 && p.1@ == m->Ok_0.1,
                    Err(f) => m == Err::<(Seq<char>, Seq<char>), Fault>(f),
                })
            }),
        decreases stmts_size(ss@), 1nat,
    {
        if ss.len() == 0 {
            return Ok((String::new(), String::new()));
        }
        let line = match self.compile_statement(slice_index_get(ss, 0)) {
            Ok(t) => t,
            Err(f) => {
                return Err(f);
            },
        };
        let parts = match self.compile_unit(slice_subrange(ss, 1, ss.len())) {
            Ok(p) => p,
            Err(f) => {
                return Err(f);
            },
        };
        let hoisted = match slice_index_get(ss, 0) {
            Statement::Import { .. } => true,
            Statement::StructDef(_) => true,
            _ => false,
        };
        if hoisted {
            let mut top = line;
            top.append("\n");
            top.append(parts.0.as_str());
            Ok((top, parts.1))
        } else {
            let mut body = line;
            body.append("\n");
            body.append(parts.1.as_str());
            Ok((parts.0, body))
        }
    }

    /// Compiles one source unit to target text, as `lower_program` states:
    /// the pre-scan registers every top-level function, the statements are
    /// lowered in order with imports and struct definitions hoisted, and
    /// the root unit wraps the body in the program entry point below the
    /// runtime prelude.
    #[verifier::rlimit(100)]
    pub fn compile(&mut self, program: &Program, is_main: bool) -> (r: Result<String, Fault>)
        ensures
            ({
                let (m, st) = lower_program(old(self)@, *program, is_main);
                final(self)@ == st && res_matches(r, m)
            }),
    {
        let n = program.statements.len();
        let mut i: usize = 0;
        while i < n
            invariant
                i <= n,
                n == program.statements@.len(),
                self@ == (CState {
                    funcs: prescan(old(self)@.funcs, program.statements@.take(i as int)),
                    ..old(self)@
                }),
            decreases n - i,
        {
            match &program.statements[i] {
                Statement::FunctionDef(def) => {
                    self.functions.put(
                        def.name.clone(),
                        FunctionInfo { is_pure: def.is_pure, can_error: def.can_error },
                    );
                },
                _ => {},
            }
            proof {
                assert(program.statements@.take(i + 1).drop_last() =~= program.statements@.take(
                    i as int,
                ));
                assert(program.statements@.take(i + 1).last() == program.statements@[i as int]);
            }
            i = i + 1;
        }
        proof {
            assert(program.statements@.take(n as int) =~= program.statements@);
        }
        let parts = match self.compile_unit(program.statements.as_slice()) {
            Ok(p) => p,
            Err(f) => {
                return Err(f);
            },
        };
        let mut out = String::from_str("#![allow(unused)]\nuse async_channel;\n");
        if is_main {
            out.append("mod header;\n");
            out.append(
                "
#[derive(Clone, Debug)]
pub struct KiroPipe<T> {
    pub tx: async_channel::Sender<T>,
    pub rx: async_channel::Receiver<T>,
}

pub trait KiroGet {
    type Inner;
    fn kiro_get<R>(&self, f: impl FnOnce(&Self::Inner) -> R) -> R;
}

impl<T> KiroGet for std::sync::Arc<std::sync::Mutex<T>> {
    type Inner = T;
    fn kiro_get<R>(&self, f: impl FnOnce(&T) -> R) -> R {
        let guard = self.lock().unwrap();
        f(&*guard)
    }
}

pub trait KiroAt<I, O> { fn kiro_at(&self, index: I) -> O; }

impl<T: Clone> KiroAt<f64, T> for Vec<T> {
    fn kiro_at(&self, index: f64) -> T {
        self.get(index as usize).cloned().expect(\"Index out of bounds\")
    }
}

impl<K, V> KiroAt<K, V> for std::collections::HashMap<K, V>
where K: std::hash::Hash + Eq + Clone, V: Clone {
    fn kiro_at(&self, key: K) -> V {
        self.get(&key).cloned().expect(\"Key not found\")
    }
}

pub trait KiroAdd<Rhs = Self> { type Output; fn kiro_add(self, rhs: Rhs) -> Self::Output; }
impl KiroAdd for f64 { type Output = f64; fn kiro_add(self, rhs: f64) -> f64 { self + rhs } }
impl KiroAdd for String {
    type Output = String;
    fn kiro_add(self, rhs: String) -> String { let mut s = self; s.push_str(&rhs); s }
}

pub trait KiroLen { fn kiro_len(&self) -> f64; }
impl<T> KiroLen for Vec<T> { fn kiro_len(&self) -> f64 { self.len() as f64 } }
impl<K, V> KiroLen for std::collections::HashMap<K, V> { fn kiro_len(&self) -> f64 { self.len() as f64 } }
impl KiroLen for String { fn kiro_len(&self) -> f64 { self.len() as f64 } }

pub trait KiroIter { type Item; type IntoIter: Iterator<Item = Self::Item>; fn kiro_iter(self) -> Self::IntoIter; }
impl KiroIter for std::ops::Range<i64> { type Item = i64; type IntoIter = std::ops::Range<i64>; fn kiro_iter(self) -> Self::IntoIter { self } }
impl<T> KiroIter for Vec<T> { type Item = T; type IntoIter = std::vec::IntoIter<T>; fn kiro_iter(self) -> Self::IntoIter { self.into_iter() } }
impl KiroIter for String { type Item = char; type IntoIter = std::vec::IntoIter<char>; fn kiro_iter(self) -> Self::IntoIter { self.chars().collect::<Vec<_>>().into_iter() } }

pub trait AsKiroLoopVar { type Out; fn as_kiro(self) -> Self::Out; }
impl AsKiroLoopVar for i64 { type Out = f64; fn as_kiro(self) -> f64 { self as f64 } }
impl AsKiroLoopVar for f64 { type Out = f64; fn as_kiro(self) -> f64 { self } }
impl AsKiroLoopVar for char { type Out = String; fn as_kiro(self) -> String { self.to_string() } }
impl AsKiroLoopVar for String { type Out = String; fn as_kiro(self) -> String { self } }

pub trait KiroAssign<Rhs> { fn kiro_assign(&mut self, rhs: Rhs); }
impl<T> KiroAssign<T> for T { fn kiro_assign(&mut self, rhs: T) { *self = rhs; } }
impl<T> KiroAssign<Option<std::sync::Arc<std::sync::Mutex<T>>>> for usize {
    fn kiro_assign(&mut self, rhs: Option<std::sync::Arc<std::sync::Mutex<T>>>) {
        *self = rhs.as_ref().map(|a| std::sync::Arc::as_ptr(a) as usize).unwrap_or(0);
    }
}

pub trait KiroTruthy { fn kiro_truthy(&self) -> bool; }
impl KiroTruthy for bool { fn kiro_truthy(&self) -> bool { *self } }
impl KiroTruthy for f64 { fn kiro_truthy(&self) -> bool { *self != 0.0 } }
impl<T, E> KiroTruthy for Result<T, E> { fn kiro_truthy(&self) -> bool { self.is_ok() } }
",
            );
        } else {
            out.append("use crate::*;\n");
        }
        out.append(parts.0.as_str());
        if is_main {
            out.append("#[tokio::main]\nasync fn main(){\n");
            out.append(parts.1.as_str());
            out.append("}\n");
        } else {
            out.append(parts.1.as_str());
        }
        Ok(out)
    }
}

} // verus!
