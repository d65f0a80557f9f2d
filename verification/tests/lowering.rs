use hulk_core::ast::{Binding, Expression, FunctionDef, Param, Program, Statement};
use hulk_core::codegen::generator::Generator;
use hulk_core::semantic::analyzer::SemanticAnalyzer;
use hulk_core::tokens::{OperatorToken, Span};

fn sp() -> Span {
    Span { start: 0, end: 1 }
}

fn num(v: &str) -> Expression {
    Expression::Number { value: v.to_string(), span: sp() }
}

fn strlit(v: &str) -> Expression {
    Expression::Str { value: v.to_string(), span: sp() }
}

fn emit(statements: Vec<Statement>) -> String {
    let program = Program { statements };
    let mut analyzer = SemanticAnalyzer::new();
    assert!(analyzer.analyze(&program).is_ok());
    let mut generator = Generator::new();
    generator.generate(&program);
    generator.code
}

fn expr_stmt(e: Expression) -> Statement {
    Statement::StatementExpression(Box::new(e))
}

fn binop(op: OperatorToken, l: Expression, r: Expression) -> Expression {
    Expression::BinaryOp { operator: op, left: Box::new(l), right: Box::new(r), span: sp() }
}

/// A `while` loop lowers to condition, body, and exit blocks.
#[test]
fn while_blocks() {
    let w = Expression::WhileLoop {
        condition: Box::new(binop(OperatorToken::LT, num("1"), num("2"))),
        body: Box::new(Expression::Print { expression: Box::new(num("3")), span: sp() }),
        span: sp(),
    };
    let code = emit(vec![expr_stmt(w)]);
    assert!(code.contains("br label %cond1"));
    assert!(code.contains("cond1:"));
    assert!(code.contains("fcmp olt double 1, 2"));
    assert!(code.contains(", label %body1, label %exit1"));
    assert!(code.contains("exit1:"));
}

/// A `for` loop lowers to a while over a stored induction variable.
#[test]
fn for_lowering() {
    let f = Expression::ForLoop {
        variable: "i".to_string(),
        start: Box::new(num("0")),
        end: Box::new(num("5")),
        body: Box::new(Expression::Print {
            expression: Box::new(Expression::Identifier { value: "i".to_string(), span: sp() }),
            span: sp(),
        }),
        span: sp(),
    };
    let code = emit(vec![expr_stmt(f)]);
    assert!(code.contains("%i.1 = alloca double"));
    assert!(code.contains("store double 0, ptr %i.1"));
    assert!(code.contains("fcmp olt double"));
    assert!(code.contains(", 0x3FF0000000000000"));
}

/// Modulo, power, string equality, concatenation, and boolean printing each
/// lower through their runtime calls.
#[test]
fn runtime_calls() {
    let modexp = binop(OperatorToken::MOD, num("7"), num("2"));
    let powexp = binop(OperatorToken::POW, num("2"), num("8"));
    let streq = binop(OperatorToken::EQ, strlit("a"), strlit("b"));
    let concat = binop(OperatorToken::CONCAT, strlit("a"), strlit("b"));
    let code = emit(vec![
        expr_stmt(Expression::Print { expression: Box::new(modexp), span: sp() }),
        expr_stmt(Expression::Print { expression: Box::new(powexp), span: sp() }),
        expr_stmt(Expression::Print { expression: Box::new(streq), span: sp() }),
        expr_stmt(Expression::Print { expression: Box::new(concat), span: sp() }),
    ]);
    assert!(code.contains("call double @fmod(double 7, double 2)"));
    assert!(code.contains("call double @pow(double 2, double 8)"));
    assert!(code.contains("call i32 @strcmp(ptr @.str.0, ptr @.str.1)"));
    assert!(code.contains(" = icmp eq i32 "));
    assert!(code.contains("call ptr @concat(ptr @.str.0, ptr @.str.1)"));
    assert!(code.contains(" = zext i1 "));
    assert!(code.contains("call i32 (ptr, ...) @printf(ptr @.str.d, i32 "));
}

/// String literals are interned: one global per distinct text.
#[test]
fn string_interning() {
    let code = emit(vec![
        expr_stmt(Expression::Print { expression: Box::new(strlit("hi")), span: sp() }),
        expr_stmt(Expression::Print { expression: Box::new(strlit("hi")), span: sp() }),
    ]);
    assert_eq!(code.matches("@.str.0 = private unnamed_addr constant").count(), 1);
    assert!(!code.contains("@.str.1 = private unnamed_addr constant"));
    assert_eq!(
        code.matches("call i32 (ptr, ...) @printf(ptr @.str.s, ptr @.str.0)").count(),
        2
    );
}

/// A declared function is emitted and called with spilled `ptr` arguments.
#[test]
fn function_call_lowering() {
    let f = Statement::StatementFunctionDef(Box::new(FunctionDef {
        name: "double_of".to_string(),
        params: vec![Param {
            name: "x".to_string(),
            signature: "Number".to_string(),
            span: sp(),
        }],
        return_type: "Number".to_string(),
        body: binop(
            OperatorToken::MUL,
            Expression::Identifier { value: "x".to_string(), span: sp() },
            num("2"),
        ),
        span: sp(),
    }));
    let call = Expression::Print {
        expression: Box::new(Expression::FunctionCall {
            function_name: "double_of".to_string(),
            arguments: vec![num("21")],
            span: sp(),
        }),
        span: sp(),
    };
    let code = emit(vec![f, expr_stmt(call)]);
    assert!(code.contains("define double @double_of(ptr %x.1) {"));
    assert!(code.contains(" = call double @double_of(ptr "));
    assert!(code.contains("define i32 @main() {"));
    assert!(code.ends_with("}"));
}

/// Let bindings allocate, store, and are read back through a load; a
/// destructive assignment stores into the same slot.
#[test]
fn let_and_assign_lowering() {
    let letin = Expression::LetIn {
        assignments: vec![Binding {
            identifier: "a".to_string(),
            expression: num("1"),
            span: sp(),
        }],
        body: Box::new(Expression::CodeBlock {
            expressions: vec![
                Expression::DestructiveAssign {
                    identifier: Box::new(Expression::Identifier {
                        value: "a".to_string(),
                        span: sp(),
                    }),
                    expression: Box::new(num("2")),
                    span: sp(),
                },
                Expression::Print {
                    expression: Box::new(Expression::Identifier {
                        value: "a".to_string(),
                        span: sp(),
                    }),
                    span: sp(),
                },
            ],
            span: sp(),
        }),
        span: sp(),
    };
    let code = emit(vec![expr_stmt(letin)]);
    assert!(code.contains("%a.1 = alloca double"));
    assert!(code.contains("store double 1, ptr %a.1"));
    assert!(code.contains("store double 2, ptr %a.1"));
    assert!(code.contains(" = load double, ptr %a.1"));
}

/// An if/else joins its branches with a `phi` in the continuation block.
#[test]
fn if_else_phi() {
    let ife = Expression::Print {
        expression: Box::new(Expression::IfElse {
            condition: Box::new(Expression::Boolean { value: true, span: sp() }),
            if_expression: Box::new(num("1")),
            elifs: vec![hulk_core::ast::ElifBranch { condition: None, body: num("2") }],
            span: sp(),
        }),
        span: sp(),
    };
    let code = emit(vec![expr_stmt(ife)]);
    assert!(code.contains("br i1 true, label %then1, label %else1"));
    assert!(code.contains("then1:"));
    assert!(code.contains("else1:"));
    assert!(code.contains("cont1:"));
    assert!(code.contains(" = phi double [ 1, %then1 ], [ 2, %else1 ]"));
}
