use hulk_core::ast::{Expression, Program, Statement};
use hulk_core::codegen::generator::Generator;
use hulk_core::semantic::analyzer::SemanticAnalyzer;
use hulk_core::tokens::{OperatorToken, Span};

fn sp() -> Span {
    Span { start: 0, end: 1 }
}

fn num(v: &str) -> Expression {
    Expression::Number { value: v.to_string(), span: sp() }
}

/// `print(2 + 3 * 4);` analyzes cleanly and its module holds the arithmetic.
#[test]
fn arithmetic_lowering() {
    let expr = Expression::Print {
        expression: Box::new(Expression::BinaryOp {
            operator: OperatorToken::PLUS,
            left: Box::new(num("2")),
            right: Box::new(Expression::BinaryOp {
                operator: OperatorToken::MUL,
                left: Box::new(num("3")),
                right: Box::new(num("4")),
                span: sp(),
            }),
            span: sp(),
        }),
        span: sp(),
    };
    let program = Program { statements: vec![Statement::StatementExpression(Box::new(expr))] };
    let mut analyzer = SemanticAnalyzer::new();
    assert!(analyzer.analyze(&program).is_ok());
    let mut generator = Generator::new();
    generator.generate(&program);
    let code = generator.code.clone();
    assert!(code.contains("fmul double 3"));
    assert!(code.contains("fadd double 2"));
    assert!(code.contains("call i32 (ptr, ...) @printf("));
    assert!(code.contains("@.str.f"));
    // emission is deterministic: a fresh generator gives identical text
    let mut generator2 = Generator::new();
    generator2.generate(&program);
    assert_eq!(code, generator2.code);
}

/// `print(x);` yields a single undefined-identifier diagnostic.
#[test]
fn undefined_identifier() {
    let expr = Expression::Print {
        expression: Box::new(Expression::Identifier { value: "x".to_string(), span: sp() }),
        span: sp(),
    };
    let program = Program { statements: vec![Statement::StatementExpression(Box::new(expr))] };
    let mut analyzer = SemanticAnalyzer::new();
    let result = analyzer.analyze(&program);
    match result {
        Err(errors) => {
            assert_eq!(errors.len(), 1);
            match &errors[0] {
                hulk_core::semantic::errors::SemanticError::UndefinedIdentifier(name, _) => {
                    assert_eq!(name, "x");
                }
                other => panic!("unexpected diagnostic: {:?}", other),
            }
        }
        Ok(()) => panic!("analysis unexpectedly succeeded"),
    }
}

/// `type A inherits B {} type B inherits A {}` reports a cycle on `A` or `B`.
#[test]
fn inheritance_cycle() {
    let mk = |name: &str, parent: &str| {
        Statement::StatementTypeDef(Box::new(hulk_core::ast::TypeDef {
            identifier: name.to_string(),
            params: vec![],
            parent: Some(parent.to_string()),
            parent_args: vec![],
            members: vec![],
            span: sp(),
        }))
    };
    let program = Program { statements: vec![mk("A", "B"), mk("B", "A")] };
    let mut analyzer = SemanticAnalyzer::new();
    let errors = analyzer.analyze(&program).unwrap_err();
    assert!(errors.iter().any(|e| matches!(
        e,
        hulk_core::semantic::errors::SemanticError::CycleDetected(n, _) if n == "A" || n == "B"
    )));
}

/// `function f(x: Number): Number => x; f(1, 2);` reports the wrong arity.
#[test]
fn wrong_arity() {
    let f = Statement::StatementFunctionDef(Box::new(hulk_core::ast::FunctionDef {
        name: "f".to_string(),
        params: vec![hulk_core::ast::Param {
            name: "x".to_string(),
            signature: "Number".to_string(),
            span: sp(),
        }],
        return_type: "Number".to_string(),
        body: Expression::Identifier { value: "x".to_string(), span: sp() },
        span: sp(),
    }));
    let call = Statement::StatementExpression(Box::new(Expression::FunctionCall {
        function_name: "f".to_string(),
        arguments: vec![num("1"), num("2")],
        span: sp(),
    }));
    let program = Program { statements: vec![f, call] };
    let mut analyzer = SemanticAnalyzer::new();
    let errors = analyzer.analyze(&program).unwrap_err();
    assert!(errors.iter().any(|e| matches!(
        e,
        hulk_core::semantic::errors::SemanticError::InvalidArgumentsCount(2, 1, n, _) if n == "f"
    )));
}

/// Analysis is deterministic: the same program gives identical diagnostics.
#[test]
fn analysis_deterministic() {
    let expr = Expression::Print {
        expression: Box::new(Expression::Identifier { value: "y".to_string(), span: sp() }),
        span: sp(),
    };
    let program = Program { statements: vec![Statement::StatementExpression(Box::new(expr))] };
    let mut a1 = SemanticAnalyzer::new();
    let mut a2 = SemanticAnalyzer::new();
    assert_eq!(a1.analyze(&program).unwrap_err(), a2.analyze(&program).unwrap_err());
}
