use hulk_core::ast::{
    Expression, FunctionDef, Param, Program, PropertyDef, Statement, TypeDef, TypeMember,
};
use hulk_core::codegen::generator::Generator;
use hulk_core::semantic::analyzer::SemanticAnalyzer;
use hulk_core::tokens::Span;

fn sp() -> Span {
    Span { start: 0, end: 1 }
}

fn strlit(v: &str) -> Expression {
    Expression::Str { value: v.to_string(), span: sp() }
}

fn ident(v: &str) -> Expression {
    Expression::Identifier { value: v.to_string(), span: sp() }
}

fn speak_method(body: &str) -> TypeMember {
    TypeMember::Method(FunctionDef {
        name: "speak".to_string(),
        params: vec![],
        return_type: "String".to_string(),
        body: strlit(body),
        span: sp(),
    })
}

/// `type Animal(n: String) { name = n; speak(): String => "..."; }`
fn animal_def() -> Statement {
    Statement::StatementTypeDef(Box::new(TypeDef {
        identifier: "Animal".to_string(),
        params: vec![Param {
            name: "n".to_string(),
            signature: "String".to_string(),
            span: sp(),
        }],
        parent: None,
        parent_args: vec![],
        members: vec![
            TypeMember::Property(PropertyDef {
                identifier: "name".to_string(),
                expression: ident("n"),
                declared_type: Some("String".to_string()),
                span: sp(),
            }),
            speak_method("..."),
        ],
        span: sp(),
    }))
}

/// `type Dog(n: String) inherits Animal(n) { speak(): String => "woof"; }`
fn dog_def() -> Statement {
    Statement::StatementTypeDef(Box::new(TypeDef {
        identifier: "Dog".to_string(),
        params: vec![Param {
            name: "n".to_string(),
            signature: "String".to_string(),
            span: sp(),
        }],
        parent: Some("Animal".to_string()),
        parent_args: vec![ident("n")],
        members: vec![speak_method("woof")],
        span: sp(),
    }))
}

fn inheritance_program() -> Program {
    // let d: Animal = new Dog("rex") in print(d.speak());
    let body = Expression::Print {
        expression: Box::new(Expression::TypeFunctionAccess {
            object: Box::new(ident("d")),
            member_name: "speak".to_string(),
            member_args: vec![],
            member_span: sp(),
            span: sp(),
        }),
        span: sp(),
    };
    let letin = Expression::LetIn {
        assignments: vec![hulk_core::ast::Binding {
            identifier: "d".to_string(),
            expression: Expression::TypeInstance {
                ty_name: "Dog".to_string(),
                arguments: vec![strlit("rex")],
                span: sp(),
            },
            span: sp(),
        }],
        body: Box::new(body),
        span: sp(),
    };
    Program {
        statements: vec![
            animal_def(),
            dog_def(),
            Statement::StatementExpression(Box::new(letin)),
        ],
    }
}

/// Inheritance with an override: no diagnostics, dispatch goes through
/// `@get_vtable_method`, and `Dog`'s vtable carries `@Dog_speak`.
#[test]
fn override_dispatch() {
    let program = inheritance_program();
    let mut analyzer = SemanticAnalyzer::new();
    assert!(analyzer.analyze(&program).is_ok());
    let mut generator = Generator::new();
    generator.generate(&program);
    let code = &generator.code;
    assert!(code.contains("call ptr @get_vtable_method(i32 "));
    assert!(code.contains("@Dog_vtable = constant %VTableType [ ptr @Dog_speak ]"));
    assert!(code.contains("@Animal_vtable = constant %VTableType [ ptr @Animal_speak ]"));
    assert!(code.contains("define ptr @Dog_new("));
    assert!(code.contains("define ptr @Animal_new("));
}

/// The super-vtable holds exactly one entry per declared type, and type-ids
/// are dense: `Animal` takes 0 and `Dog` takes 1.
#[test]
fn super_vtable_and_ids() {
    let program = inheritance_program();
    let mut analyzer = SemanticAnalyzer::new();
    assert!(analyzer.analyze(&program).is_ok());
    let mut generator = Generator::new();
    generator.generate(&program);
    let code = &generator.code;
    assert!(code.contains(
        "@super_vtable = global [2 x ptr] [ptr @Animal_vtable, ptr @Dog_vtable]"
    ));
    assert!(code.contains("store i32 0, ptr %index_ptr"));
    assert!(code.contains("store i32 1, ptr %index_ptr"));
}

/// A child's field layout starts with its parent's, and an overridden method
/// keeps its parent's slot.
#[test]
fn layout_prefix_and_slots() {
    let program = inheritance_program();
    let mut generator = Generator::new();
    generator.init_all_type_methods_and_props(&program);
    let animal = generator.ctx.layout_of("Animal").expect("Animal layout");
    let dog = generator.ctx.layout_of("Dog").expect("Dog layout");
    assert!(dog.members.len() >= animal.members.len());
    for (i, m) in animal.members.iter().enumerate() {
        assert_eq!(&dog.members[i].0, &m.0);
        assert_eq!(&dog.members[i].1, &m.1);
    }
    assert_eq!(animal.methods[0].name, "speak");
    assert_eq!(dog.methods[0].name, "speak");
    assert_eq!(dog.methods[0].llvm_name, "@Dog_speak");
    assert_eq!(animal.type_id, 0);
    assert_eq!(dog.type_id, 1);
}

/// A valid program leaves every annotation at a known, non-`Unknown` type.
#[test]
fn annotations_all_resolved() {
    let program = inheritance_program();
    let mut analyzer = SemanticAnalyzer::new();
    assert!(analyzer.analyze(&program).is_ok());
    let anns = analyzer.annotations();
    assert!(!anns.is_empty());
    for ann in anns.iter() {
        assert_ne!(ann.ty, "Unknown");
    }
}
