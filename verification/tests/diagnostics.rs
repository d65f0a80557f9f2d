use hulk_core::ast::{Binding, Expression, Program, Statement, TypeDef};
use hulk_core::semantic::analyzer::SemanticAnalyzer;
use hulk_core::semantic::errors::SemanticError;
use hulk_core::tokens::Span;

fn sp(start: usize, end: usize) -> Span {
    Span { start, end }
}

/// The message text of the wrong-arity diagnostic.
#[test]
fn arity_message() {
    let e = SemanticError::InvalidArgumentsCount(2, 1, "f".to_string(), sp(0, 1));
    assert_eq!(e.message(), "Function 'f' expects 1 arguments, found 2");
}

/// The message text of a few other diagnostics.
#[test]
fn message_texts() {
    let e = SemanticError::UndefinedIdentifier("x".to_string(), sp(0, 1));
    assert_eq!(e.message(), "Undefined identifier: x");
    let e = SemanticError::CycleDetected("A".to_string(), sp(0, 1));
    assert_eq!(e.message(), "Type dependency cycle detected: A");
    let e = SemanticError::UndefinedType("Foo".to_string(), sp(0, 1));
    assert_eq!(e.message(), "Type 'Foo' is not defined");
    let e = SemanticError::InvalidTypeFunctionAccess(
        "Animal".to_string(),
        "fly".to_string(),
        sp(0, 1),
    );
    assert_eq!(e.message(), "Type 'Animal' has no method 'fly'");
}

/// A report carries the 1-based line and column, the offending line, and a
/// caret under the offending column.
#[test]
fn report_format() {
    let source = "let a = 1 in\nprint(x);";
    // `x` sits on line 2, column 7 (character offset 19).
    let e = SemanticError::UndefinedIdentifier("x".to_string(), sp(19, 20));
    let report = e.report(source);
    assert_eq!(
        report,
        "\x1b[31mError (line 2, column 7): Undefined identifier: x\n  print(x);\n        ^\x1b[0m"
    );
}

/// The if/else join of two sibling classes is their common ancestor; joining
/// a class with a string is rejected as incompatible.
#[test]
fn branch_join() {
    let sp0 = sp(0, 1);
    let mk_type = |name: &str, parent: Option<&str>| {
        Statement::StatementTypeDef(Box::new(TypeDef {
            identifier: name.to_string(),
            params: vec![],
            parent: parent.map(|p| p.to_string()),
            parent_args: vec![],
            members: vec![],
            span: sp0,
        }))
    };
    let new_of = |name: &str| Expression::TypeInstance {
        ty_name: name.to_string(),
        arguments: vec![],
        span: sp0,
    };
    let if_else = |other: Expression| Expression::LetIn {
        assignments: vec![Binding {
            identifier: "v".to_string(),
            expression: Expression::IfElse {
                condition: Box::new(Expression::Boolean { value: true, span: sp0 }),
                if_expression: Box::new(new_of("Dog")),
                elifs: vec![hulk_core::ast::ElifBranch { condition: None, body: other }],
                span: sp0,
            },
            span: sp0,
        }],
        body: Box::new(Expression::Number { value: "1".to_string(), span: sp0 }),
        span: sp0,
    };

    // if (true) new Dog() else new C()  has type Animal: no diagnostics
    let ok = Program {
        statements: vec![
            mk_type("Animal", None),
            mk_type("Dog", Some("Animal")),
            mk_type("C", Some("Animal")),
            Statement::StatementExpression(Box::new(if_else(new_of("C")))),
        ],
    };
    let mut analyzer = SemanticAnalyzer::new();
    assert!(analyzer.analyze(&ok).is_ok());
    let joined = analyzer
        .annotations()
        .iter()
        .any(|a| a.ty == "Animal");
    assert!(joined);

    // if (true) new Dog() else "str"  joins at Object: incompatible branches
    let bad = Program {
        statements: vec![
            mk_type("Animal", None),
            mk_type("Dog", Some("Animal")),
            Statement::StatementExpression(Box::new(if_else(Expression::Str {
                value: "str".to_string(),
                span: sp0,
            }))),
        ],
    };
    let mut analyzer = SemanticAnalyzer::new();
    let errors = analyzer.analyze(&bad).unwrap_err();
    assert!(errors.iter().any(|e| matches!(
        e,
        SemanticError::UnknownError(m, _) if m == "Incompatible types in if-else branches"
    )));
}
