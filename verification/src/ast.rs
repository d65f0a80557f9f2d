//! The abstract syntax tree handed over by a parser.
//!
//! A program is a sequence of statements: executable expressions, top-level
//! function definitions, and type definitions.  Expressions form a single
//! recursive sum type; every node carries its source span.

use vstd::prelude::*;
use crate::tokens::{OperatorToken, Span};

verus! {

/// A parameter declaration: a name and the name of its declared type.
pub struct Param {
    pub name: String,
    pub signature: String,
    pub span: Span,
}

/// A function (or method) definition with an expression body.
pub struct FunctionDef {
    pub name: String,
    pub params: Vec<Param>,
    pub return_type: String,
    pub body: Expression,
    pub span: Span,
}

/// One binding of a `let ... in` expression.
pub struct Binding {
    pub identifier: String,
    pub expression: Expression,
    pub span: Span,
}

/// One `elif`/`else` arm of an `if` expression; the final `else` has no
/// condition.
pub struct ElifBranch {
    pub condition: Option<Expression>,
    pub body: Expression,
}

/// An instance field of a type definition: a name, an initializer, and an
/// optional declared type name.
pub struct PropertyDef {
    pub identifier: String,
    pub expression: Expression,
    pub declared_type: Option<String>,
    pub span: Span,
}

/// A member of a type definition.
pub enum TypeMember {
    Property(PropertyDef),
    Method(FunctionDef),
}

/// A type definition: constructor parameters, an optional parent with the
/// arguments passed to its constructor, and the ordered members.
pub struct TypeDef {
    pub identifier: String,
    pub params: Vec<Param>,
    pub parent: Option<String>,
    pub parent_args: Vec<Expression>,
    pub members: Vec<TypeMember>,
    pub span: Span,
}

/// An expression node.  `TypeFunctionAccess` is a method call on an object;
/// `TypePropAccess` is a field read.
#[allow(inconsistent_fields)]
pub enum Expression {
    Number { value: String, span: Span },
    Boolean { value: bool, span: Span },
    Str { value: String, span: Span },
    Identifier { value: String, span: Span },
    FunctionCall { function_name: String, arguments: Vec<Expression>, span: Span },
    WhileLoop { condition: Box<Expression>, body: Box<Expression>, span: Span },
    ForLoop {
        variable: String,
        start: Box<Expression>,
        end: Box<Expression>,
        body: Box<Expression>,
        span: Span,
    },
    CodeBlock { expressions: Vec<Expression>, span: Span },
    BinaryOp {
        operator: OperatorToken,
        left: Box<Expression>,
        right: Box<Expression>,
        span: Span,
    },
    UnaryOp { operator: OperatorToken, operand: Box<Expression>, span: Span },
    IfElse {
        condition: Box<Expression>,
        if_expression: Box<Expression>,
        elifs: Vec<ElifBranch>,
        span: Span,
    },
    LetIn { assignments: Vec<Binding>, body: Box<Expression>, span: Span },
    DestructiveAssign { identifier: Box<Expression>, expression: Box<Expression>, span: Span },
    TypeInstance { ty_name: String, arguments: Vec<Expression>, span: Span },
    TypeFunctionAccess {
        object: Box<Expression>,
        member_name: String,
        member_args: Vec<Expression>,
        member_span: Span,
        span: Span,
    },
    TypePropAccess { object: Box<Expression>, member: String, span: Span },
    Print { expression: Box<Expression>, span: Span },
}

impl Expression {
    /// The source span of the node.
    pub fn span(&self) -> (r: Span)
        ensures
            r == self.spec_span(),
    {
        match self {
            Expression::Number { span, .. } => *span,
            Expression::Boolean { span, .. } => *span,
            Expression::Str { span, .. } => *span,
            Expression::Identifier { span, .. } => *span,
            Expression::FunctionCall { span, .. } => *span,
            Expression::WhileLoop { span, .. } => *span,
            Expression::ForLoop { span, .. } => *span,
            Expression::CodeBlock { span, .. } => *span,
            Expression::BinaryOp { span, .. } => *span,
            Expression::UnaryOp { span, .. } => *span,
            Expression::IfElse { span, .. } => *span,
            Expression::LetIn { span, .. } => *span,
            Expression::DestructiveAssign { span, .. } => *span,
            Expression::TypeInstance { span, .. } => *span,
            Expression::TypeFunctionAccess { span, .. } => *span,
            Expression::TypePropAccess { span, .. } => *span,
            Expression::Print { span, .. } => *span,
        }
    }

    pub open spec fn spec_span(&self) -> Span {
        match self {
            Expression::Number { span, .. } => *span,
            Expression::Boolean { span, .. } => *span,
            Expression::Str { span, .. } => *span,
            Expression::Identifier { span, .. } => *span,
            Expression::FunctionCall { span, .. } => *span,
            Expression::WhileLoop { span, .. } => *span,
            Expression::ForLoop { span, .. } => *span,
            Expression::CodeBlock { span, .. } => *span,
            Expression::BinaryOp { span, .. } => *span,
            Expression::UnaryOp { span, .. } => *span,
            Expression::IfElse { span, .. } => *span,
            Expression::LetIn { span, .. } => *span,
            Expression::DestructiveAssign { span, .. } => *span,
            Expression::TypeInstance { span, .. } => *span,
            Expression::TypeFunctionAccess { span, .. } => *span,
            Expression::TypePropAccess { span, .. } => *span,
            Expression::Print { span, .. } => *span,
        }
    }
}

/// A top-level statement.
pub enum Statement {
    StatementExpression(Box<Expression>),
    StatementFunctionDef(Box<FunctionDef>),
    StatementTypeDef(Box<TypeDef>),
}

/// A whole source program.
pub struct Program {
    pub statements: Vec<Statement>,
}

} // verus!
