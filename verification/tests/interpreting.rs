use std::rc::Rc;

use kiro::ast::Block;
use kiro::ast::BoolVal;
use kiro::ast::Expression;
use kiro::ast::FuncParam;
use kiro::ast::FunctionDef;
use kiro::ast::KiroType;
use kiro::ast::LoopFilter;
use kiro::ast::NumberVal;
use kiro::ast::Program;
use kiro::ast::Statement;
use kiro::ast::VariableVal;
use kiro::ast::ErrorClause;
use kiro::ast::ErrorClauseList;
use kiro::interpreter::Interpreter;
use kiro::semantics::Fault;
use kiro::tables::Table;

fn num(text: &str) -> Expression {
    Expression::Number(NumberVal { value: String::from(text) })
}

fn var(name: &str) -> Expression {
    Expression::Variable(VariableVal { value: String::from(name) })
}

fn block(statements: Vec<Statement>) -> Block {
    Block { statements }
}

fn no_modules() -> Table<Program> {
    Table { entries: vec![] }
}

fn run_program(statements: Vec<Statement>) -> Result<Interpreter, Fault> {
    let mut interp = Interpreter::new();
    let mods = no_modules();
    let prog = Program { statements };
    interp.run(&prog, &mods).map(|_| interp)
}

fn output_of(interp: &Interpreter) -> Vec<String> {
    interp.output.clone()
}

#[test]
fn print_renders_arithmetic() {
    let interp = run_program(vec![Statement::Print(Expression::Add(
        Box::new(num("1")),
        Box::new(num("2")),
    ))])
    .unwrap();
    assert_eq!(output_of(&interp), vec![String::from("3")]);
}

#[test]
fn mutable_declaration_then_reassignment_succeeds() {
    // Declaring with the mutable form, then reassigning, never trips the
    // immutable-mutation rule.
    let interp = run_program(vec![
        Statement::VarDecl { ident: String::from("x"), value: num("1") },
        Statement::AssignStmt { lhs: var("x"), rhs: num("2") },
        Statement::Print(var("x")),
    ])
    .unwrap();
    assert_eq!(output_of(&interp), vec![String::from("2")]);
}

#[test]
fn fresh_assignment_declares_immutably() {
    // A first write to an unknown name declares it immutable, so a second
    // write must fail.
    let mut interp = Interpreter::new();
    let mods = no_modules();
    let prog = Program {
        statements: vec![
            Statement::AssignStmt { lhs: var("y"), rhs: num("1") },
            Statement::AssignStmt { lhs: var("y"), rhs: num("2") },
        ],
    };
    assert_eq!(interp.run(&prog, &mods), Err(Fault::ImmutableMutation));
}

#[test]
fn move_then_read_fails_before_printing() {
    // `var a = 5` then `b = move a` then `print a` must fail with the
    // use-after-move fault, with no output produced.
    let mut interp = Interpreter::new();
    let mods = no_modules();
    let prog = Program {
        statements: vec![
            Statement::VarDecl { ident: String::from("a"), value: num("5") },
            Statement::AssignStmt {
                lhs: var("b"),
                rhs: Expression::MoveExpr(VariableVal { value: String::from("a") }),
            },
            Statement::Print(var("a")),
        ],
    };
    assert_eq!(interp.run(&prog, &mods), Err(Fault::UseAfterMove));
    assert!(interp.output.is_empty());
}

#[test]
fn loop_filter_is_per_item_not_a_prefilter() {
    // loop x in 0..6 on (x / 2 * 2 == x) { print x } off { print 0 - 1 }
    // prints 0 -1 2 -1 4 -1: even items run the body, odd items run `off`.
    let is_even = Expression::Eq(
        Box::new(Expression::Mul(
            Box::new(Expression::Div(Box::new(var("x")), Box::new(num("2")))),
            Box::new(num("2")),
        )),
        Box::new(var("x")),
    );
    let interp = run_program(vec![Statement::LoopIter {
        iterator: String::from("x"),
        iterable: Expression::Range(Box::new(num("0")), Box::new(num("6"))),
        step: None,
        filter: Some(LoopFilter { condition: is_even }),
        body: block(vec![Statement::Print(var("x"))]),
        else_clause: Some(kiro::ast::OffClause {
            body: block(vec![Statement::Print(Expression::Sub(
                Box::new(num("0")),
                Box::new(num("1")),
            ))]),
        }),
    }])
    .unwrap();
    assert_eq!(
        output_of(&interp),
        vec!["0", "-1", "2", "-1", "4", "-1"]
            .into_iter()
            .map(String::from)
            .collect::<Vec<_>>()
    );
}

#[test]
fn closing_a_channel_twice_is_not_an_error() {
    // Closing is one-way and idempotent.
    run_program(vec![
        Statement::VarDecl {
            ident: String::from("p"),
            value: Expression::PipeInit(KiroType::Num),
        },
        Statement::Close(var("p")),
        Statement::Close(var("p")),
    ])
    .unwrap();
}

#[test]
fn give_after_close_fails() {
    let mut interp = Interpreter::new();
    let mods = no_modules();
    let prog = Program {
        statements: vec![
            Statement::VarDecl {
                ident: String::from("p"),
                value: Expression::PipeInit(KiroType::Num),
            },
            Statement::Close(var("p")),
            Statement::Give(var("p"), num("1")),
        ],
    };
    assert_eq!(interp.run(&prog, &mods), Err(Fault::PipeClosed));
}

#[test]
fn give_then_take_delivers_in_order() {
    let interp = run_program(vec![
        Statement::VarDecl {
            ident: String::from("p"),
            value: Expression::PipeInit(KiroType::Num),
        },
        Statement::Give(var("p"), num("7")),
        Statement::Give(var("p"), num("8")),
        Statement::Print(Expression::Take(Box::new(var("p")))),
        Statement::Print(Expression::Take(Box::new(var("p")))),
    ])
    .unwrap();
    assert_eq!(output_of(&interp), vec![String::from("7"), String::from("8")]);
}

#[test]
fn take_from_empty_channel_fails() {
    let mut interp = Interpreter::new();
    let mods = no_modules();
    let prog = Program {
        statements: vec![
            Statement::VarDecl {
                ident: String::from("p"),
                value: Expression::PipeInit(KiroType::Num),
            },
            Statement::ExprStmt(Expression::Take(Box::new(var("p")))),
        ],
    };
    assert_eq!(interp.run(&prog, &mods), Err(Fault::PipeUnavailable));
}

fn two_param_function() -> Statement {
    Statement::FunctionDef(Rc::new(FunctionDef {
        is_pure: false,
        name: String::from("two"),
        params: vec![
            FuncParam { name: String::from("a"), command_type: KiroType::Num },
            FuncParam { name: String::from("b"), command_type: KiroType::Num },
        ],
        return_type: Some(KiroType::Num),
        can_error: false,
        body: block(vec![Statement::Return(Some(var("a")))]),
    }))
}

#[test]
fn arity_mismatch_is_a_fatal_error() {
    // Calling a two-parameter function with one argument fails with an
    // arity error; nothing is silently defaulted.
    let mut interp = Interpreter::new();
    let mods = no_modules();
    let prog = Program {
        statements: vec![
            two_param_function(),
            Statement::ExprStmt(Expression::Call(Box::new(var("two")), vec![num("1")])),
        ],
    };
    assert_eq!(interp.run(&prog, &mods), Err(Fault::ArityMismatch));
}

#[test]
fn call_with_matching_arity_returns_the_value() {
    let interp = run_program(vec![
        two_param_function(),
        Statement::Print(Expression::Call(
            Box::new(var("two")),
            vec![num("41"), num("1")],
        )),
    ])
    .unwrap();
    assert_eq!(output_of(&interp), vec![String::from("41")]);
}

#[test]
fn empty_matched_error_clause_carries_the_error_forward() {
    // `on (mayFail()) { } error NotFound { }` whose matched clause is empty
    // re-raises the original error: the caller sees the tagged error value,
    // not void.
    let inner = Statement::FunctionDef(Rc::new(FunctionDef {
        is_pure: false,
        name: String::from("inner"),
        params: vec![],
        return_type: None,
        can_error: true,
        body: block(vec![Statement::On {
            condition: var("NotFound"),
            body: block(vec![]),
            else_clause: None,
            error_clauses: Some(ErrorClauseList {
                first: ErrorClause {
                    error_type: Some(String::from("NotFound")),
                    body: block(vec![]),
                },
                rest: None,
            }),
        }]),
    }));
    let interp = run_program(vec![
        Statement::ErrorDef { name: String::from("NotFound"), description: None },
        inner,
        Statement::AssignStmt {
            lhs: var("x"),
            rhs: Expression::Call(Box::new(var("inner")), vec![]),
        },
        Statement::Print(var("x")),
    ])
    .unwrap();
    assert_eq!(output_of(&interp), vec![String::from("<Error NotFound>")]);
}

#[test]
fn handler_with_explicit_return_swallows_the_error() {
    // A handler that returns a substitute value replaces the error.
    let inner = Statement::FunctionDef(Rc::new(FunctionDef {
        is_pure: false,
        name: String::from("inner"),
        params: vec![],
        return_type: Some(KiroType::Num),
        can_error: true,
        body: block(vec![Statement::On {
            condition: var("NotFound"),
            body: block(vec![]),
            else_clause: None,
            error_clauses: Some(ErrorClauseList {
                first: ErrorClause {
                    error_type: Some(String::from("NotFound")),
                    body: block(vec![Statement::Return(Some(num("9")))]),
                },
                rest: None,
            }),
        }]),
    }));
    let interp = run_program(vec![
        Statement::ErrorDef { name: String::from("NotFound"), description: None },
        inner,
        Statement::Print(Expression::Call(Box::new(var("inner")), vec![])),
    ])
    .unwrap();
    assert_eq!(output_of(&interp), vec![String::from("9")]);
}

#[test]
fn pure_function_cannot_print() {
    let f = Statement::FunctionDef(Rc::new(FunctionDef {
        is_pure: true,
        name: String::from("quiet"),
        params: vec![],
        return_type: None,
        can_error: false,
        body: block(vec![Statement::Print(num("1"))]),
    }));
    let mut interp = Interpreter::new();
    let mods = no_modules();
    let prog = Program {
        statements: vec![
            f,
            Statement::ExprStmt(Expression::Call(Box::new(var("quiet")), vec![])),
        ],
    };
    assert_eq!(interp.run(&prog, &mods), Err(Fault::PurityViolation));
}

#[test]
fn pure_function_cannot_read_outer_names() {
    let f = Statement::FunctionDef(Rc::new(FunctionDef {
        is_pure: true,
        name: String::from("capture"),
        params: vec![],
        return_type: Some(KiroType::Num),
        can_error: false,
        body: block(vec![Statement::Return(Some(var("outer")))]),
    }));
    let mut interp = Interpreter::new();
    let mods = no_modules();
    let prog = Program {
        statements: vec![
            Statement::AssignStmt { lhs: var("outer"), rhs: num("1") },
            f,
            Statement::ExprStmt(Expression::Call(Box::new(var("capture")), vec![])),
        ],
    };
    assert_eq!(interp.run(&prog, &mods), Err(Fault::PurityViolation));
}

#[test]
fn pure_function_rejects_mutable_arguments() {
    let f = Statement::FunctionDef(Rc::new(FunctionDef {
        is_pure: true,
        name: String::from("id"),
        params: vec![FuncParam { name: String::from("v"), command_type: KiroType::Num }],
        return_type: Some(KiroType::Num),
        can_error: false,
        body: block(vec![Statement::Return(Some(var("v")))]),
    }));
    let mut interp = Interpreter::new();
    let mods = no_modules();
    let prog = Program {
        statements: vec![
            Statement::VarDecl { ident: String::from("m"), value: num("1") },
            f,
            Statement::ExprStmt(Expression::Call(Box::new(var("id")), vec![var("m")])),
        ],
    };
    assert_eq!(interp.run(&prog, &mods), Err(Fault::MutableArgToPureFn));
}

#[test]
fn pure_function_accepts_immutable_arguments_and_computes() {
    let f = Statement::FunctionDef(Rc::new(FunctionDef {
        is_pure: true,
        name: String::from("double"),
        params: vec![FuncParam { name: String::from("v"), command_type: KiroType::Num }],
        return_type: Some(KiroType::Num),
        can_error: false,
        body: block(vec![Statement::Return(Some(Expression::Mul(
            Box::new(var("v")),
            Box::new(num("2")),
        )))]),
    }));
    let interp = run_program(vec![
        Statement::AssignStmt { lhs: var("k"), rhs: num("21") },
        f,
        Statement::Print(Expression::Call(Box::new(var("double")), vec![var("k")])),
    ])
    .unwrap();
    assert_eq!(output_of(&interp), vec![String::from("42")]);
}

#[test]
fn while_loop_counts_and_break_stops_it() {
    // loop on (i < 3) { print i; i = i + 1 } then a loop broken on entry.
    let interp = run_program(vec![
        Statement::VarDecl { ident: String::from("i"), value: num("0") },
        Statement::LoopOn {
            condition: Expression::Lt(Box::new(var("i")), Box::new(num("3"))),
            body: block(vec![
                Statement::Print(var("i")),
                Statement::AssignStmt {
                    lhs: var("i"),
                    rhs: Expression::Add(Box::new(var("i")), Box::new(num("1"))),
                },
            ]),
        },
        Statement::LoopOn {
            condition: Expression::BoolLit(BoolVal::True),
            body: block(vec![Statement::Break]),
        },
    ])
    .unwrap();
    assert_eq!(
        output_of(&interp),
        vec!["0", "1", "2"].into_iter().map(String::from).collect::<Vec<_>>()
    );
}

#[test]
fn modules_expose_their_bindings() {
    let module = Program {
        statements: vec![Statement::AssignStmt { lhs: var("answer"), rhs: num("42") }],
    };
    let mods = Table { entries: vec![(String::from("util"), module)] };
    let mut interp = Interpreter::new();
    let prog = Program {
        statements: vec![
            Statement::Import { module_name: String::from("util") },
            Statement::Print(Expression::FieldAccess(
                Box::new(var("util")),
                kiro::ast::FieldNameVal { value: String::from("answer") },
            )),
        ],
    };
    interp.run(&prog, &mods).unwrap();
    assert_eq!(interp.output, vec![String::from("42")]);
}

#[test]
fn division_by_zero_is_reported() {
    let mut interp = Interpreter::new();
    let mods = no_modules();
    let prog = Program {
        statements: vec![Statement::Print(Expression::Div(
            Box::new(num("1")),
            Box::new(num("0")),
        ))],
    };
    assert_eq!(interp.run(&prog, &mods), Err(Fault::DivByZero));
}

#[test]
fn list_literals_index_and_measure() {
    let interp = run_program(vec![
        Statement::VarDecl {
            ident: String::from("l"),
            value: Expression::ListInit(KiroType::Num, vec![num("5"), num("6"), num("7")]),
        },
        Statement::Print(Expression::At(Box::new(var("l")), Box::new(num("1")))),
        Statement::Print(Expression::Len(Box::new(var("l")))),
    ])
    .unwrap();
    assert_eq!(output_of(&interp), vec![String::from("6"), String::from("3")]);
}

#[test]
fn strings_concatenate_with_rendered_values() {
    let interp = run_program(vec![Statement::Print(Expression::Add(
        Box::new(Expression::StringLit(kiro::ast::StringVal {
            value: String::from("\"n = \""),
        })),
        Box::new(num("4")),
    ))])
    .unwrap();
    assert_eq!(output_of(&interp), vec![String::from("n = 4")]);
}

#[test]
fn maps_compare_regardless_of_entry_order() {
    // Two map literals holding the same pairs in different orders are the
    // same map.
    let map_ab = Expression::MapInit(
        KiroType::Str,
        KiroType::Num,
        vec![
            kiro::ast::MapPair {
                key: Expression::StringLit(kiro::ast::StringVal { value: String::from("\"a\"") }),
                value: num("1"),
            },
            kiro::ast::MapPair {
                key: Expression::StringLit(kiro::ast::StringVal { value: String::from("\"b\"") }),
                value: num("2"),
            },
        ],
    );
    let map_ba = Expression::MapInit(
        KiroType::Str,
        KiroType::Num,
        vec![
            kiro::ast::MapPair {
                key: Expression::StringLit(kiro::ast::StringVal { value: String::from("\"b\"") }),
                value: num("2"),
            },
            kiro::ast::MapPair {
                key: Expression::StringLit(kiro::ast::StringVal { value: String::from("\"a\"") }),
                value: num("1"),
            },
        ],
    );
    let interp = run_program(vec![Statement::Print(Expression::Eq(
        Box::new(map_ab),
        Box::new(map_ba),
    ))])
    .unwrap();
    assert_eq!(output_of(&interp), vec![String::from("true")]);
}

#[test]
fn maps_with_different_values_compare_unequal() {
    let map_a1 = Expression::MapInit(
        KiroType::Str,
        KiroType::Num,
        vec![kiro::ast::MapPair {
            key: Expression::StringLit(kiro::ast::StringVal { value: String::from("\"a\"") }),
            value: num("1"),
        }],
    );
    let map_a2 = Expression::MapInit(
        KiroType::Str,
        KiroType::Num,
        vec![kiro::ast::MapPair {
            key: Expression::StringLit(kiro::ast::StringVal { value: String::from("\"a\"") }),
            value: num("2"),
        }],
    );
    let interp = run_program(vec![Statement::Print(Expression::Eq(
        Box::new(map_a1),
        Box::new(map_a2),
    ))])
    .unwrap();
    assert_eq!(output_of(&interp), vec![String::from("false")]);
}

#[test]
fn failing_pure_body_does_not_poison_later_lowering() {
    // A function definition whose body is rejected leaves the compiler's
    // purity and fallibility contexts as they were, so lowering can go on.
    let mut c = kiro::compiler::Compiler::new();
    let bad = Statement::FunctionDef(Rc::new(FunctionDef {
        is_pure: true,
        name: String::from("noisy"),
        params: vec![],
        return_type: None,
        can_error: false,
        body: block(vec![Statement::Print(num("1"))]),
    }));
    assert_eq!(c.compile_statement(&bad), Err(Fault::PurityViolation));
    // A later print must lower normally: the pure context was restored.
    let line = c.compile_statement(&Statement::Print(num("2"))).unwrap();
    assert_eq!(line, "println!(\"{}\", 2.0);");
}
