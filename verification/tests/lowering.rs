use kiro::ast::Expression;
use kiro::ast::KiroType;
use kiro::ast::NumberVal;
use kiro::ast::Program;
use kiro::ast::Statement;
use kiro::compiler::Compiler;
use kiro::types::compile_type;

#[test]
fn num_type_lowers_to_float_text() {
    assert_eq!(compile_type(&KiroType::Num), "f64");
}

#[test]
fn list_type_lowers_recursively() {
    assert_eq!(compile_type(&KiroType::List(Box::new(KiroType::Str))), "Vec<String>");
}

#[test]
fn var_decl_lowers_to_mutable_binding() {
    let mut c = Compiler::new();
    let stmt = Statement::VarDecl {
        ident: String::from("x"),
        value: Expression::Number(NumberVal { value: String::from("5") }),
    };
    let line = c.compile_statement(&stmt).unwrap();
    assert_eq!(line, "let mut x = 5.0;");
}

#[test]
fn fresh_assignment_is_immutable_declaration() {
    let mut c = Compiler::new();
    let first = Statement::AssignStmt {
        lhs: Expression::Variable(kiro::ast::VariableVal { value: String::from("y") }),
        rhs: Expression::Number(NumberVal { value: String::from("1") }),
    };
    let line = c.compile_statement(&first).unwrap();
    assert_eq!(line, "let y = 1.0;");
    let second = Statement::AssignStmt {
        lhs: Expression::Variable(kiro::ast::VariableVal { value: String::from("y") }),
        rhs: Expression::Number(NumberVal { value: String::from("2") }),
    };
    assert!(c.compile_statement(&second).is_err());
}

#[test]
fn empty_program_compiles_as_submodule() {
    let mut c = Compiler::new();
    let out = c.compile(&Program { statements: vec![] }, false).unwrap();
    assert_eq!(out, "#![allow(unused)]\nuse async_channel;\nuse crate::*;\n");
}
