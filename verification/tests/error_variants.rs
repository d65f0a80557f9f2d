use hulk_core::ast::{
    Binding, ElifBranch, Expression, FunctionDef, Param, Program, Statement, TypeDef,
};
use hulk_core::semantic::analyzer::SemanticAnalyzer;
use hulk_core::semantic::errors::SemanticError;
use hulk_core::tokens::{OperatorToken, Span};

fn sp() -> Span {
    Span { start: 0, end: 1 }
}

fn num(v: &str) -> Expression {
    Expression::Number { value: v.to_string(), span: sp() }
}

fn strlit(v: &str) -> Expression {
    Expression::Str { value: v.to_string(), span: sp() }
}

fn run(statements: Vec<Statement>) -> Vec<SemanticError> {
    let mut analyzer = SemanticAnalyzer::new();
    analyzer.analyze(&Program { statements }).unwrap_err()
}

fn expr_stmt(e: Expression) -> Statement {
    Statement::StatementExpression(Box::new(e))
}

fn empty_type(name: &str, parent: Option<&str>) -> Statement {
    Statement::StatementTypeDef(Box::new(TypeDef {
        identifier: name.to_string(),
        params: vec![],
        parent: parent.map(|p| p.to_string()),
        parent_args: vec![],
        members: vec![],
        span: sp(),
    }))
}

fn fn_def(name: &str, params: Vec<(&str, &str)>, ret: &str, body: Expression) -> Statement {
    Statement::StatementFunctionDef(Box::new(FunctionDef {
        name: name.to_string(),
        params: params
            .into_iter()
            .map(|(n, t)| Param { name: n.to_string(), signature: t.to_string(), span: sp() })
            .collect(),
        return_type: ret.to_string(),
        body,
        span: sp(),
    }))
}

/// Redefining a type (or shadowing a built-in) is rejected.
#[test]
fn type_redefinition() {
    let errors = run(vec![empty_type("A", None), empty_type("A", None)]);
    assert!(errors.iter().any(|e| matches!(
        e,
        SemanticError::RedefinitionOfType(n, _) if n == "A"
    )));
    let errors = run(vec![empty_type("Number", None)]);
    assert!(errors.iter().any(|e| matches!(
        e,
        SemanticError::RedefinitionOfType(n, _) if n == "Number"
    )));
}

/// Inheriting from a type that does not exist is rejected.
#[test]
fn undefined_parent() {
    let errors = run(vec![empty_type("A", Some("Ghostly"))]);
    assert!(errors.iter().any(|e| matches!(
        e,
        SemanticError::UndefinedType(n, _) if n == "Ghostly"
    )));
}

/// Adding a number to a string is an invalid binary operation.
#[test]
fn bad_binary_operation() {
    let bad = Expression::BinaryOp {
        operator: OperatorToken::PLUS,
        left: Box::new(num("1")),
        right: Box::new(strlit("s")),
        span: sp(),
    };
    let errors = run(vec![expr_stmt(bad)]);
    assert!(errors.iter().any(|e| matches!(
        e,
        SemanticError::InvalidBinaryOperation(l, r, OperatorToken::PLUS, _)
            if l == "Number" && r == "String"
    )));
}

/// A numeric `while` condition is rejected.
#[test]
fn bad_condition() {
    let bad = Expression::WhileLoop {
        condition: Box::new(num("1")),
        body: Box::new(num("2")),
        span: sp(),
    };
    let errors = run(vec![expr_stmt(bad)]);
    assert!(errors.iter().any(|e| matches!(
        e,
        SemanticError::InvalidConditionType(t, _) if t == "Number"
    )));
}

/// Printing an object is rejected.
#[test]
fn bad_print() {
    let bad = Expression::Print {
        expression: Box::new(Expression::TypeInstance {
            ty_name: "A".to_string(),
            arguments: vec![],
            span: sp(),
        }),
        span: sp(),
    };
    let errors = run(vec![empty_type("A", None), expr_stmt(bad)]);
    assert!(errors.iter().any(|e| matches!(
        e,
        SemanticError::InvalidPrint(t, _) if t == "A"
    )));
}

/// Calling a missing method is rejected.
#[test]
fn missing_method() {
    let bad = Expression::TypeFunctionAccess {
        object: Box::new(Expression::TypeInstance {
            ty_name: "A".to_string(),
            arguments: vec![],
            span: sp(),
        }),
        member_name: "fly".to_string(),
        member_args: vec![],
        member_span: sp(),
        span: sp(),
    };
    let errors = run(vec![empty_type("A", None), expr_stmt(bad)]);
    assert!(errors.iter().any(|e| matches!(
        e,
        SemanticError::InvalidTypeFunctionAccess(t, m, _) if t == "A" && m == "fly"
    )));
}

/// A body that is not a subtype of the declared return type is rejected.
#[test]
fn bad_function_return() {
    let errors = run(vec![fn_def("f", vec![], "String", num("1"))]);
    assert!(errors.iter().any(|e| matches!(
        e,
        SemanticError::InvalidFunctionReturn(body, ret, name, _)
            if body == "Number" && ret == "String" && name == "f"
    )));
}

/// Duplicate parameter names and duplicate function names are rejected.
#[test]
fn duplicate_declarations() {
    let errors = run(vec![fn_def(
        "f",
        vec![("x", "Number"), ("x", "Number")],
        "Number",
        num("1"),
    )]);
    assert!(errors.iter().any(|e| matches!(
        e,
        SemanticError::ParamNameAlreadyExist(p, o, _, _) if p == "x" && o == "f"
    )));
    let errors = run(vec![
        fn_def("g", vec![], "Number", num("1")),
        fn_def("g", vec![], "Number", num("2")),
    ]);
    assert!(errors.iter().any(|e| matches!(
        e,
        SemanticError::RedefinitionOfFunction(n, _) if n == "g"
    )));
}

/// Wrong constructor arity and an ill-typed constructor argument.
#[test]
fn constructor_checks() {
    let animal = Statement::StatementTypeDef(Box::new(TypeDef {
        identifier: "Animal".to_string(),
        params: vec![Param {
            name: "n".to_string(),
            signature: "String".to_string(),
            span: sp(),
        }],
        parent: None,
        parent_args: vec![],
        members: vec![],
        span: sp(),
    }));
    let too_many = Expression::TypeInstance {
        ty_name: "Animal".to_string(),
        arguments: vec![strlit("a"), strlit("b")],
        span: sp(),
    };
    let errors = run(vec![animal, expr_stmt(too_many)]);
    assert!(errors.iter().any(|e| matches!(
        e,
        SemanticError::InvalidTypeArgumentCount(2, 1, n, _) if n == "Animal"
    )));

    let animal = Statement::StatementTypeDef(Box::new(TypeDef {
        identifier: "Animal".to_string(),
        params: vec![Param {
            name: "n".to_string(),
            signature: "String".to_string(),
            span: sp(),
        }],
        parent: None,
        parent_args: vec![],
        members: vec![],
        span: sp(),
    }));
    let ill_typed = Expression::TypeInstance {
        ty_name: "Animal".to_string(),
        arguments: vec![num("1")],
        span: sp(),
    };
    let errors = run(vec![animal, expr_stmt(ill_typed)]);
    assert!(errors.iter().any(|e| matches!(
        e,
        SemanticError::InvalidTypeArgument(_, found, expected, 0, n, _)
            if found == "Number" && expected == "String" && n == "Animal"
    )));
}

/// Assigning to something that is neither an identifier nor a field.
#[test]
fn bad_assignment_target() {
    let bad = Expression::DestructiveAssign {
        identifier: Box::new(num("1")),
        expression: Box::new(num("2")),
        span: sp(),
    };
    let errors = run(vec![expr_stmt(bad)]);
    assert!(errors.iter().any(|e| matches!(
        e,
        SemanticError::UnknownError(m, _)
            if m == "Destructive assignment can only be done to an identifier or type property access"
    )));
}

/// Elif conditions must be boolean; the joined type survives the branches.
#[test]
fn elif_condition_checked() {
    let bad = Expression::IfElse {
        condition: Box::new(Expression::Boolean { value: true, span: sp() }),
        if_expression: Box::new(num("1")),
        elifs: vec![
            ElifBranch { condition: Some(num("7")), body: num("2") },
            ElifBranch { condition: None, body: num("3") },
        ],
        span: sp(),
    };
    let errors = run(vec![
        expr_stmt(Expression::LetIn {
            assignments: vec![Binding {
                identifier: "v".to_string(),
                expression: bad,
                span: sp(),
            }],
            body: Box::new(Expression::Identifier { value: "missing".to_string(), span: sp() }),
            span: sp(),
        }),
    ]);
    assert!(errors.iter().any(|e| matches!(
        e,
        SemanticError::InvalidConditionType(t, _) if t == "Number"
    )));
}
