//! Source spans and the token vocabulary of the language.
//!
//! The analyzer and the emitter only consume spans and operator tags; the
//! full token set is the interface a lexer hands to a parser.

use vstd::prelude::*;

verus! {

/// A half-open byte range into the source text.
#[derive(Debug, Clone, Copy, PartialEq, Eq, Structural)]
pub struct Span {
    pub start: usize,
    pub end: usize,
}

impl Span {
    pub fn new(start: usize, end: usize) -> (r: Self)
        ensures
            r == (Span { start, end }),
    {
        Span { start, end }
    }
}

#[derive(Debug, Clone, Copy, PartialEq, Eq, Structural)]
pub enum KeywordToken {
    FUNCTION,
    LET,
    IN,
    IF,
    ELSE,
    ELIF,
    WHILE,
    FOR,
    TYPE,
    INHERITS,
    NEW,
    PRINT,
    TRUE,
    FALSE,
}

#[derive(Debug, Clone, Copy, PartialEq, Eq, Structural)]
pub enum OperatorToken {
    PLUS,
    MINUS,
    MUL,
    DIV,
    MOD,
    POW,
    NOT,
    EQ,
    NEQ,
    GT,
    GTE,
    LT,
    LTE,
    AND,
    OR,
    DOT,
    ASSIGN,
    DASSIGN,
    NEG,
    CONCAT,
}

#[derive(Debug, Clone, Copy, PartialEq, Eq, Structural)]
pub enum DelimiterToken {
    LPAREN,
    RPAREN,
    LBRACE,
    RBRACE,
    SEMICOLON,
    COMMA,
    COLON,
    ARROW,
}

/// One lexed token: keywords, literals, operators, and delimiters.
#[derive(Debug, Clone, PartialEq, Eq)]
pub enum Token {
    Function(KeywordToken),
    Let(KeywordToken),
    In(KeywordToken),
    If(KeywordToken),
    Else(KeywordToken),
    Elif(KeywordToken),
    While(KeywordToken),
    For(KeywordToken),
    Type(KeywordToken),
    Inherits(KeywordToken),
    New(KeywordToken),
    Print(KeywordToken),
    True(KeywordToken),
    False(KeywordToken),
    Identifier(String),
    Num(String),
    Str(String),
    Plus(OperatorToken),
    Minus(OperatorToken),
    Star(OperatorToken),
    Slash(OperatorToken),
    Mod(OperatorToken),
    PowOp(OperatorToken),
    Not(OperatorToken),
    Equal(OperatorToken),
    NotEqual(OperatorToken),
    Greater(OperatorToken),
    GreaterEqual(OperatorToken),
    Less(OperatorToken),
    LessEqual(OperatorToken),
    And(OperatorToken),
    Or(OperatorToken),
    DotOp(OperatorToken),
    DestructiveAssignOp(OperatorToken),
    LParen(DelimiterToken),
    RParen(DelimiterToken),
    LBrace(DelimiterToken),
    RBrace(DelimiterToken),
    Semicolon(DelimiterToken),
    Comma(DelimiterToken),
    Colon(DelimiterToken),
    Arrow(DelimiterToken),
    Unknown(char),
}

} // verus!
