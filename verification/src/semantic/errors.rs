//! The diagnostics the analyzer accumulates.  Every error carries the source
//! span it points at; analysis never aborts on the first error.

use vstd::prelude::*;
use crate::tokens::{OperatorToken, Span};

verus! {

/// Which construct an ill-typed argument belongs to.
#[derive(Debug, Clone, Copy, PartialEq, Eq, Structural)]
pub enum ArgKind {
    Function,
    Type,
    ForRange,
}

/// Which kind of definition a duplicated parameter name appears in.
#[derive(Debug, Clone, Copy, PartialEq, Eq, Structural)]
pub enum DefKind {
    Function,
    Type,
}

/// A semantic diagnostic.  Type payloads are type names.
#[derive(Debug, PartialEq, Eq)]
pub enum SemanticError {
    /// A literal zero appears as the right operand of a division.
    DivisionByZero(Span),
    /// Use of an identifier that is not in scope.
    UndefinedIdentifier(String, Span),
    /// A condition whose type is not `Boolean`.
    InvalidConditionType(String, Span),
    /// A binary operator applied to operand types it does not accept.
    InvalidBinaryOperation(String, String, OperatorToken, Span),
    /// A unary operator applied to an operand type it does not accept.
    InvalidUnaryOperation(String, OperatorToken, Span),
    /// A function name defined twice.
    RedefinitionOfFunction(String, Span),
    /// A call to a function that was never declared.
    UndeclaredFunction(String, Span),
    /// A catch-all with a free-form message.
    UnknownError(String, Span),
    /// Wrong number of call arguments: found, expected, callee.
    InvalidArgumentsCount(usize, usize, String, Span),
    /// An argument of the wrong type: kind, found, expected, position, callee.
    InvalidTypeArgument(ArgKind, String, String, usize, String, Span),
    /// A function body whose type is not a subtype of the declared return:
    /// body type, declared type, function name.
    InvalidFunctionReturn(String, String, String, Span),
    /// A variable defined twice in one scope.
    RedefinitionOfVariable(String, Span),
    /// A reference to a type name that does not exist.
    UndefinedType(String, Span),
    /// A parameter name repeated in one definition: parameter, owner, kind.
    ParamNameAlreadyExist(String, String, DefKind, Span),
    /// A type name defined twice.
    RedefinitionOfType(String, Span),
    /// A type that sits on an inheritance cycle.
    CycleDetected(String, Span),
    /// Wrong number of constructor arguments: found, expected, type.
    InvalidTypeArgumentCount(usize, usize, String, Span),
    /// A method call on a type that has no such method: type, method.
    InvalidTypeFunctionAccess(String, String, Span),
    /// A field access outside any type context: type, member.
    InvalidTypePropertyAccess(String, String, Span),
    /// A field access on a type that has no such field: type, member.
    InvalidTypeProperty(String, String, Span),
    /// `print` applied to a type it cannot format.
    InvalidPrint(String, Span),
    /// A `for` loop over something that is not a range: callee, argument count.
    InvalidIterable(String, usize, Span),
}

/// The mathematical value of a diagnostic: names as character sequences.
pub ghost enum ErrV {
    DivisionByZero(Span),
    UndefinedIdentifier(Seq<char>, Span),
    InvalidConditionType(Seq<char>, Span),
    InvalidBinaryOperation(Seq<char>, Seq<char>, OperatorToken, Span),
    InvalidUnaryOperation(Seq<char>, OperatorToken, Span),
    RedefinitionOfFunction(Seq<char>, Span),
    UndeclaredFunction(Seq<char>, Span),
    UnknownError(Seq<char>, Span),
    InvalidArgumentsCount(nat, nat, Seq<char>, Span),
    InvalidTypeArgument(ArgKind, Seq<char>, Seq<char>, nat, Seq<char>, Span),
    InvalidFunctionReturn(Seq<char>, Seq<char>, Seq<char>, Span),
    RedefinitionOfVariable(Seq<char>, Span),
    UndefinedType(Seq<char>, Span),
    ParamNameAlreadyExist(Seq<char>, Seq<char>, DefKind, Span),
    RedefinitionOfType(Seq<char>, Span),
    CycleDetected(Seq<char>, Span),
    InvalidTypeArgumentCount(nat, nat, Seq<char>, Span),
    InvalidTypeFunctionAccess(Seq<char>, Seq<char>, Span),
    InvalidTypePropertyAccess(Seq<char>, Seq<char>, Span),
    InvalidTypeProperty(Seq<char>, Seq<char>, Span),
    InvalidPrint(Seq<char>, Span),
    InvalidIterable(Seq<char>, nat, Span),
}

impl View for SemanticError {
    type V = ErrV;

    open spec fn view(&self) -> ErrV {
        match self {
            SemanticError::DivisionByZero(sp) => ErrV::DivisionByZero(*sp),
            SemanticError::UndefinedIdentifier(a, sp) => ErrV::UndefinedIdentifier(a@, *sp),
            SemanticError::InvalidConditionType(a, sp) => ErrV::InvalidConditionType(a@, *sp),
            SemanticError::InvalidBinaryOperation(a, b, op, sp) => ErrV::InvalidBinaryOperation(
                a@,
                b@,
                *op,
                *sp,
            ),
            SemanticError::InvalidUnaryOperation(a, op, sp) => ErrV::InvalidUnaryOperation(
                a@,
                *op,
                *sp,
            ),
            SemanticError::RedefinitionOfFunction(a, sp) => ErrV::RedefinitionOfFunction(a@, *sp),
            SemanticError::UndeclaredFunction(a, sp) => ErrV::UndeclaredFunction(a@, *sp),
            SemanticError::UnknownError(a, sp) => ErrV::UnknownError(a@, *sp),
            SemanticError::InvalidArgumentsCount(f, e, n, sp) => ErrV::InvalidArgumentsCount(
                *f as nat,
                *e as nat,
                n@,
                *sp,
            ),
            SemanticError::InvalidTypeArgument(k, f, e, i, n, sp) => ErrV::InvalidTypeArgument(
                *k,
                f@,
                e@,
                *i as nat,
                n@,
                *sp,
            ),
            SemanticError::InvalidFunctionReturn(b, r, n, sp) => ErrV::InvalidFunctionReturn(
                b@,
                r@,
                n@,
                *sp,
            ),
            SemanticError::RedefinitionOfVariable(a, sp) => ErrV::RedefinitionOfVariable(a@, *sp),
            SemanticError::UndefinedType(a, sp) => ErrV::UndefinedType(a@, *sp),
            SemanticError::ParamNameAlreadyExist(p, o, k, sp) => ErrV::ParamNameAlreadyExist(
                p@,
                o@,
                *k,
                *sp,
            ),
            SemanticError::RedefinitionOfType(a, sp) => ErrV::RedefinitionOfType(a@, *sp),
            SemanticError::CycleDetected(a, sp) => ErrV::CycleDetected(a@, *sp),
            SemanticError::InvalidTypeArgumentCount(f, e, n, sp) => ErrV::InvalidTypeArgumentCount(
                *f as nat,
                *e as nat,
                n@,
                *sp,
            ),
            SemanticError::InvalidTypeFunctionAccess(t, m, sp) => ErrV::InvalidTypeFunctionAccess(
                t@,
                m@,
                *sp,
            ),
            SemanticError::InvalidTypePropertyAccess(t, m, sp) => ErrV::InvalidTypePropertyAccess(
                t@,
                m@,
                *sp,
            ),
            SemanticError::InvalidTypeProperty(t, m, sp) => ErrV::InvalidTypeProperty(t@, m@, *sp),
            SemanticError::InvalidPrint(t, sp) => ErrV::InvalidPrint(t@, *sp),
            SemanticError::InvalidIterable(n, c, sp) => ErrV::InvalidIterable(n@, *c as nat, *sp),
        }
    }
}

impl DeepView for SemanticError {
    type V = ErrV;

    open spec fn deep_view(&self) -> ErrV {
        self.view()
    }
}

impl SemanticError {
    /// An equal copy of the diagnostic.
    pub fn duplicate(&self) -> (r: Self)
        ensures
            r@ == self@,
    {
        match self {
            SemanticError::DivisionByZero(sp) => SemanticError::DivisionByZero(*sp),
            SemanticError::UndefinedIdentifier(a, sp) => SemanticError::UndefinedIdentifier(
                crate::strmap::clone_string(a),
                *sp,
            ),
            SemanticError::InvalidConditionType(a, sp) => SemanticError::InvalidConditionType(
                crate::strmap::clone_string(a),
                *sp,
            ),
            SemanticError::InvalidBinaryOperation(a, b, op, sp) => SemanticError::InvalidBinaryOperation(
                crate::strmap::clone_string(a),
                crate::strmap::clone_string(b),
                *op,
                *sp,
            ),
            SemanticError::InvalidUnaryOperation(a, op, sp) => SemanticError::InvalidUnaryOperation(
                crate::strmap::clone_string(a),
                *op,
                *sp,
            ),
            SemanticError::RedefinitionOfFunction(a, sp) => SemanticError::RedefinitionOfFunction(
                crate::strmap::clone_string(a),
                *sp,
            ),
            SemanticError::UndeclaredFunction(a, sp) => SemanticError::UndeclaredFunction(
                crate::strmap::clone_string(a),
                *sp,
            ),
            SemanticError::UnknownError(a, sp) => SemanticError::UnknownError(
                crate::strmap::clone_string(a),
                *sp,
            ),
            SemanticError::InvalidArgumentsCount(f, e, n, sp) => SemanticError::InvalidArgumentsCount(
                *f,
                *e,
                crate::strmap::clone_string(n),
                *sp,
            ),
            SemanticError::InvalidTypeArgument(k, f, e, i, n, sp) => SemanticError::InvalidTypeArgument(
                *k,
                crate::strmap::clone_string(f),
                crate::strmap::clone_string(e),
                *i,
                crate::strmap::clone_string(n),
                *sp,
            ),
            SemanticError::InvalidFunctionReturn(b, r, n, sp) => SemanticError::InvalidFunctionReturn(
                crate::strmap::clone_string(b),
                crate::strmap::clone_string(r),
                crate::strmap::clone_string(n),
                *sp,
            ),
            SemanticError::RedefinitionOfVariable(a, sp) => SemanticError::RedefinitionOfVariable(
                crate::strmap::clone_string(a),
                *sp,
            ),
            SemanticError::UndefinedType(a, sp) => SemanticError::UndefinedType(
                crate::strmap::clone_string(a),
                *sp,
            ),
            SemanticError::ParamNameAlreadyExist(p, o, k, sp) => SemanticError::ParamNameAlreadyExist(
                crate::strmap::clone_string(p),
                crate::strmap::clone_string(o),
                *k,
                *sp,
            ),
            SemanticError::RedefinitionOfType(a, sp) => SemanticError::RedefinitionOfType(
                crate::strmap::clone_string(a),
                *sp,
            ),
            SemanticError::CycleDetected(a, sp) => SemanticError::CycleDetected(
                crate::strmap::clone_string(a),
                *sp,
            ),
            SemanticError::InvalidTypeArgumentCount(f, e, n, sp) => SemanticError::InvalidTypeArgumentCount(
                *f,
                *e,
                crate::strmap::clone_string(n),
                *sp,
            ),
            SemanticError::InvalidTypeFunctionAccess(t, m, sp) => SemanticError::InvalidTypeFunctionAccess(
                crate::strmap::clone_string(t),
                crate::strmap::clone_string(m),
                *sp,
            ),
            SemanticError::InvalidTypePropertyAccess(t, m, sp) => SemanticError::InvalidTypePropertyAccess(
                crate::strmap::clone_string(t),
                crate::strmap::clone_string(m),
                *sp,
            ),
            SemanticError::InvalidTypeProperty(t, m, sp) => SemanticError::InvalidTypeProperty(
                crate::strmap::clone_string(t),
                crate::strmap::clone_string(m),
                *sp,
            ),
            SemanticError::InvalidPrint(t, sp) => SemanticError::InvalidPrint(
                crate::strmap::clone_string(t),
                *sp,
            ),
            SemanticError::InvalidIterable(n, c, sp) => SemanticError::InvalidIterable(
                crate::strmap::clone_string(n),
                *c,
                *sp,
            ),
        }
    }
}

} // verus!

verus! {

/// The kind word used in duplicate-parameter messages.
pub open spec fn spec_kind_text(k: DefKind) -> Seq<char> {
    match k {
        DefKind::Function => "function"@,
        DefKind::Type => "type"@,
    }
}

fn kind_text(k: DefKind) -> (r: &'static str)
    ensures
        r@ == spec_kind_text(k),
{
    match k {
        DefKind::Function => "function",
        DefKind::Type => "type",
    }
}

/// The human-readable message of each diagnostic.
pub open spec fn spec_message(e: ErrV) -> Seq<char> {
    match e {
        ErrV::DivisionByZero(_) => "Division by zero is not allowed"@,
        ErrV::UndefinedIdentifier(id, _) => "Undefined identifier: "@ + id,
        ErrV::InvalidConditionType(t, _) => "Invalid condition type: "@ + t,
        ErrV::InvalidBinaryOperation(l, r, op, _) => "Invalid binary operation between types "@ + l
            + " and "@ + r + " with operator "@ + crate::semantic::model::op_symbol(op),
        ErrV::InvalidUnaryOperation(t, op, _) => "Invalid unary operation on type "@ + t
            + " with operator "@ + crate::semantic::model::op_symbol(op),
        ErrV::RedefinitionOfFunction(n, _) => "Function '"@ + n + "' is already defined"@,
        ErrV::UndeclaredFunction(n, _) => "Function '"@ + n + "' is not defined"@,
        ErrV::UnknownError(msg, _) => msg,
        ErrV::InvalidArgumentsCount(found, expected, fname, _) => "Function '"@ + fname
            + "' expects "@ + crate::text::dec_str(expected) + " arguments, found "@
            + crate::text::dec_str(found),
        ErrV::InvalidTypeArgument(_, found, expected, pos, stmt, _) => stmt + ": Argument "@
            + crate::text::dec_str(crate::text::sat_plus(pos, 1)) + " should be "@ + expected
            + ", found "@ + found,
        ErrV::InvalidFunctionReturn(body, ret, fname, _) => "Function '"@ + fname
            + "' should return "@ + ret + ", found "@ + body,
        ErrV::RedefinitionOfVariable(v, _) => "Variable '"@ + v + "' is already defined"@,
        ErrV::UndefinedType(t, _) => "Type '"@ + t + "' is not defined"@,
        ErrV::ParamNameAlreadyExist(param, stmt, kind, _) => "Duplicate parameter '"@ + param
            + "' in "@ + spec_kind_text(kind) + " '"@ + stmt + "'"@,
        ErrV::RedefinitionOfType(t, _) => "Type '"@ + t + "' is already defined"@,
        ErrV::CycleDetected(n, _) => "Type dependency cycle detected: "@ + n,
        ErrV::InvalidTypeArgumentCount(found, expected, ty, _) => "Type '"@ + ty + "' expects "@
            + crate::text::dec_str(expected) + " arguments, found "@ + crate::text::dec_str(found),
        ErrV::InvalidTypeFunctionAccess(ty, f, _) => "Type '"@ + ty + "' has no method '"@ + f
            + "'"@,
        ErrV::InvalidTypePropertyAccess(ty, prop, _) => "Property '"@ + prop + "' of type '"@ + ty
            + "' is private"@,
        ErrV::InvalidTypeProperty(ty, prop, _) => "Type '"@ + ty + "' has no property '"@ + prop
            + "'"@,
        ErrV::InvalidPrint(ty, _) => "Cannot print values of type '"@ + ty + "'"@,
        ErrV::InvalidIterable(f, cnt, _) => "For loops require range() function, found '"@ + f
            + "("@ + crate::text::dec_str(cnt) + " arguments)'"@,
    }
}

/// The source span a diagnostic points at.
pub open spec fn spec_span(e: ErrV) -> Span {
    match e {
        ErrV::DivisionByZero(sp) => sp,
        ErrV::UndefinedIdentifier(_, sp) => sp,
        ErrV::InvalidConditionType(_, sp) => sp,
        ErrV::InvalidBinaryOperation(_, _, _, sp) => sp,
        ErrV::InvalidUnaryOperation(_, _, sp) => sp,
        ErrV::RedefinitionOfFunction(_, sp) => sp,
        ErrV::UndeclaredFunction(_, sp) => sp,
        ErrV::UnknownError(_, sp) => sp,
        ErrV::InvalidArgumentsCount(_, _, _, sp) => sp,
        ErrV::InvalidTypeArgument(_, _, _, _, _, sp) => sp,
        ErrV::InvalidFunctionReturn(_, _, _, sp) => sp,
        ErrV::RedefinitionOfVariable(_, sp) => sp,
        ErrV::UndefinedType(_, sp) => sp,
        ErrV::ParamNameAlreadyExist(_, _, _, sp) => sp,
        ErrV::RedefinitionOfType(_, sp) => sp,
        ErrV::CycleDetected(_, sp) => sp,
        ErrV::InvalidTypeArgumentCount(_, _, _, sp) => sp,
        ErrV::InvalidTypeFunctionAccess(_, _, sp) => sp,
        ErrV::InvalidTypePropertyAccess(_, _, sp) => sp,
        ErrV::InvalidTypeProperty(_, _, sp) => sp,
        ErrV::InvalidPrint(_, sp) => sp,
        ErrV::InvalidIterable(_, _, sp) => sp,
    }
}

impl SemanticError {
    /// A readable one-line description of the diagnostic.
    #[verifier::rlimit(60)]
    pub fn message(&self) -> (r: String)
        ensures
            r@ == spec_message(self@),
    {
        match self {
            SemanticError::DivisionByZero(_) => String::from_str(
                "Division by zero is not allowed",
            ),
            SemanticError::UndefinedIdentifier(id, _) => crate::text::cat2(
                "Undefined identifier: ",
                id.as_str(),
            ),
            SemanticError::InvalidConditionType(t, _) => crate::text::cat2(
                "Invalid condition type: ",
                t.as_str(),
            ),
            SemanticError::InvalidBinaryOperation(l, r, op, _) => crate::text::cat6(
                "Invalid binary operation between types ",
                l.as_str(),
                " and ",
                r.as_str(),
                " with operator ",
                crate::semantic::analyzer::op_text(*op),
            ),
            SemanticError::InvalidUnaryOperation(t, op, _) => crate::text::cat4(
                "Invalid unary operation on type ",
                t.as_str(),
                " with operator ",
                crate::semantic::analyzer::op_text(*op),
            ),
            SemanticError::RedefinitionOfFunction(n, _) => crate::text::cat3(
                "Function '",
                n.as_str(),
                "' is already defined",
            ),
            SemanticError::UndeclaredFunction(n, _) => crate::text::cat3(
                "Function '",
                n.as_str(),
                "' is not defined",
            ),
            SemanticError::UnknownError(msg, _) => crate::strmap::clone_string(msg),
            SemanticError::InvalidArgumentsCount(found, expected, fname, _) => crate::text::cat6(
                "Function '",
                fname.as_str(),
                "' expects ",
                crate::text::fmt_usize(*expected).as_str(),
                " arguments, found ",
                crate::text::fmt_usize(*found).as_str(),
            ),
            SemanticError::InvalidTypeArgument(_, found, expected, pos, stmt, _) => crate::text::cat7(
                stmt.as_str(),
                ": Argument ",
                crate::text::fmt_usize(crate::text::sat_add(*pos, 1)).as_str(),
                " should be ",
                expected.as_str(),
                ", found ",
                found.as_str(),
            ),
            SemanticError::InvalidFunctionReturn(body, ret, fname, _) => crate::text::cat6(
                "Function '",
                fname.as_str(),
                "' should return ",
                ret.as_str(),
                ", found ",
                body.as_str(),
            ),
            SemanticError::RedefinitionOfVariable(v, _) => crate::text::cat3(
                "Variable '",
                v.as_str(),
                "' is already defined",
            ),
            SemanticError::UndefinedType(t, _) => crate::text::cat3(
                "Type '",
                t.as_str(),
                "' is not defined",
            ),
            SemanticError::ParamNameAlreadyExist(param, stmt, kind, _) => crate::text::cat7(
                "Duplicate parameter '",
                param.as_str(),
                "' in ",
                kind_text(*kind),
                " '",
                stmt.as_str(),
                "'",
            ),
            SemanticError::RedefinitionOfType(t, _) => crate::text::cat3(
                "Type '",
                t.as_str(),
                "' is already defined",
            ),
            SemanticError::CycleDetected(n, _) => crate::text::cat2(
                "Type dependency cycle detected: ",
                n.as_str(),
            ),
            SemanticError::InvalidTypeArgumentCount(found, expected, ty, _) => crate::text::cat6(
                "Type '",
                ty.as_str(),
                "' expects ",
                crate::text::fmt_usize(*expected).as_str(),
                " arguments, found ",
                crate::text::fmt_usize(*found).as_str(),
            ),
            SemanticError::InvalidTypeFunctionAccess(ty, f, _) => crate::text::cat5(
                "Type '",
                ty.as_str(),
                "' has no method '",
                f.as_str(),
                "'",
            ),
            SemanticError::InvalidTypePropertyAccess(ty, prop, _) => crate::text::cat5(
                "Property '",
                prop.as_str(),
                "' of type '",
                ty.as_str(),
                "' is private",
            ),
            SemanticError::InvalidTypeProperty(ty, prop, _) => crate::text::cat5(
                "Type '",
                ty.as_str(),
                "' has no property '",
                prop.as_str(),
                "'",
            ),
            SemanticError::InvalidPrint(ty, _) => crate::text::cat3(
                "Cannot print values of type '",
                ty.as_str(),
                "'",
            ),
            SemanticError::InvalidIterable(f, cnt, _) => crate::text::cat5(
                "For loops require range() function, found '",
                f.as_str(),
                "(",
                crate::text::fmt_usize(*cnt).as_str(),
                " arguments)'",
            ),
        }
    }

    /// The source span the diagnostic points at.
    pub fn span(&self) -> (r: Span)
        ensures
            r == spec_span(self@),
    {
        match self {
            SemanticError::DivisionByZero(sp) => *sp,
            SemanticError::UndefinedIdentifier(_, sp) => *sp,
            SemanticError::InvalidConditionType(_, sp) => *sp,
            SemanticError::InvalidBinaryOperation(_, _, _, sp) => *sp,
            SemanticError::InvalidUnaryOperation(_, _, sp) => *sp,
            SemanticError::RedefinitionOfFunction(_, sp) => *sp,
            SemanticError::UndeclaredFunction(_, sp) => *sp,
            SemanticError::UnknownError(_, sp) => *sp,
            SemanticError::InvalidArgumentsCount(_, _, _, sp) => *sp,
            SemanticError::InvalidTypeArgument(_, _, _, _, _, sp) => *sp,
            SemanticError::InvalidFunctionReturn(_, _, _, sp) => *sp,
            SemanticError::RedefinitionOfVariable(_, sp) => *sp,
            SemanticError::UndefinedType(_, sp) => *sp,
            SemanticError::ParamNameAlreadyExist(_, _, _, sp) => *sp,
            SemanticError::RedefinitionOfType(_, sp) => *sp,
            SemanticError::CycleDetected(_, sp) => *sp,
            SemanticError::InvalidTypeArgumentCount(_, _, _, sp) => *sp,
            SemanticError::InvalidTypeFunctionAccess(_, _, sp) => *sp,
            SemanticError::InvalidTypePropertyAccess(_, _, sp) => *sp,
            SemanticError::InvalidTypeProperty(_, _, sp) => *sp,
            SemanticError::InvalidPrint(_, sp) => *sp,
            SemanticError::InvalidIterable(_, _, sp) => *sp,
        }
    }
}

} // verus!

verus! {

/// Newlines among the first `i` characters.
pub open spec fn count_nl(s: Seq<char>, i: int) -> int
    decreases i,
{
    if i <= 0 || i > s.len() {
        0
    } else {
        count_nl(s, i - 1) + if s[i - 1] == '\n' {
            1int
        } else {
            0int
        }
    }
}

proof fn lemma_count_nl_bounds(s: Seq<char>, i: int)
    ensures
        0 <= count_nl(s, i),
        i >= 0 ==> count_nl(s, i) <= i,
    decreases i,
{
    if i > 0 && i <= s.len() {
        lemma_count_nl_bounds(s, i - 1);
    }
}

/// Where the line containing position `i - 1` begins: one past the last
/// newline among the first `i` characters, or the start of the text.
pub open spec fn last_line_start(s: Seq<char>, i: int) -> int
    decreases i,
{
    if i <= 0 || i > s.len() {
        0
    } else if s[i - 1] == '\n' {
        i
    } else {
        last_line_start(s, i - 1)
    }
}

/// The next newline at or after `j`, or the end of the text.
pub open spec fn next_nl(s: Seq<char>, j: int) -> int
    decreases s.len() - j,
{
    if j < 0 || j >= s.len() {
        s.len() as int
    } else if s[j] == '\n' {
        j
    } else {
        next_nl(s, j + 1)
    }
}

/// How far the scan walks: one past the offset, capped at the text's end.
pub open spec fn scan_bound(s: Seq<char>, off: int) -> int {
    if off + 1 <= s.len() {
        off + 1
    } else {
        s.len() as int
    }
}

/// The 1-based line of a character offset.
pub open spec fn spec_line(s: Seq<char>, off: int) -> nat {
    crate::text::sat_plus(count_nl(s, scan_bound(s, off)) as nat, 1)
}

pub open spec fn spec_line_start(s: Seq<char>, off: int) -> int {
    last_line_start(s, scan_bound(s, off))
}

pub open spec fn spec_line_end(s: Seq<char>, off: int) -> int {
    next_nl(s, spec_line_start(s, off))
}

/// The text of the line the offset falls on.
pub open spec fn line_text(s: Seq<char>, off: int) -> Seq<char> {
    s.subrange(spec_line_start(s, off), spec_line_end(s, off))
}

/// The 1-based column of a character offset within its line.
pub open spec fn spec_column(s: Seq<char>, off: int) -> nat {
    if s.len() == 0 {
        1
    } else {
        let ls = spec_line_start(s, off);
        crate::text::sat_plus(
            if off >= ls {
                (off - ls) as nat
            } else {
                0
            },
            1,
        )
    }
}

/// The line, column, line text, and line start of a character offset;
/// offsets count characters.
#[verifier::loop_isolation(false)]
pub fn get_line_context(input: &str, offset: usize) -> (r: (usize, usize, String, usize))
    ensures
        r.0 as nat == spec_line(input@, offset as int),
        r.1 as nat == spec_column(input@, offset as int),
        r.2@ == line_text(input@, offset as int),
        r.3 as int == spec_line_start(input@, offset as int),
{
    let n = input.unicode_len();
    if n == 0 {
        proof {
            assert(line_text(input@, offset as int) =~= Seq::<char>::empty());
        }
        return (1, 1, String::new(), 0);
    }
    let bound = if offset < n {
        offset + 1
    } else {
        n
    };
    let mut line: usize = 1;
    let mut ls: usize = 0;
    let mut i: usize = 0;
    while i < bound
        invariant
            i <= bound,
            ls <= i,
            line as nat == crate::text::sat_plus(count_nl(input@, i as int) as nat, 1),
            ls as int == last_line_start(input@, i as int),
        decreases bound - i,
    {
        proof {
            lemma_count_nl_bounds(input@, i as int);
            lemma_count_nl_bounds(input@, i + 1);
            assert(count_nl(input@, i + 1) == count_nl(input@, i as int) + if input@[i as int]
                == '\n' {
                1int
            } else {
                0int
            });
        }
        if input.get_char(i) == '\n' {
            if line < usize::MAX {
                line = line + 1;
            }
            ls = i + 1;
        }
        i += 1;
    }
    let mut le: usize = ls;
    while le < n && input.get_char(le) != '\n'
        invariant
            ls <= le <= n,
            next_nl(input@, le as int) == next_nl(input@, ls as int),
        decreases n - le,
    {
        le += 1;
    }
    let mut text = String::new();
    let mut j: usize = ls;
    while j < le
        invariant
            ls <= j <= le,
            text@ == input@.subrange(ls as int, j as int),
        decreases le - j,
    {
        crate::text::push_char(&mut text, input.get_char(j));
        proof {
            assert(text@ =~= input@.subrange(ls as int, j + 1));
        }
        j += 1;
    }
    proof {
        assert(text@ =~= input@.subrange(ls as int, le as int));
    }
    let diff = if offset >= ls {
        offset - ls
    } else {
        0
    };
    let col = crate::text::sat_add(diff, 1);
    (line, col, text, ls)
}

/// The run of spaces before a caret.
pub open spec fn spaces(n: nat) -> Seq<char>
    decreases n,
{
    if n == 0 {
        Seq::empty()
    } else {
        spaces((n - 1) as nat).push(' ')
    }
}

/// The caret marker for a 1-based column.
pub open spec fn spec_caret(col: nat) -> Seq<char> {
    spaces(if col > 0 {
        (col - 1) as nat
    } else {
        0
    }).push('^')
}

/// A string that points at the given 1-based column with a caret.
pub fn build_caret_point(col: usize) -> (r: String)
    ensures
        r@ == spec_caret(col as nat),
{
    let m = if col > 0 {
        col - 1
    } else {
        0
    };
    let mut out = String::new();
    let mut j: usize = 0;
    while j < m
        invariant
            j <= m,
            out@ == spaces(j as nat),
        decreases m - j,
    {
        crate::text::push_char(&mut out, ' ');
        j += 1;
    }
    crate::text::push_char(&mut out, '^');
    out
}

/// The whole report of one diagnostic: its location, message, offending line,
/// and a caret under the offending column.
pub open spec fn spec_report(e: ErrV, s: Seq<char>) -> Seq<char> {
    let off = spec_span(e).start as int;
    "\x1b[31mError (line "@ + crate::text::dec_str(spec_line(s, off)) + ", column "@
        + crate::text::dec_str(spec_column(s, off)) + "): "@ + spec_message(e) + "\n  "@
        + line_text(s, off) + "\n  "@ + spec_caret(spec_column(s, off)) + "\x1b[0m"@
}

impl SemanticError {
    /// Formats the diagnostic against the source text, with the offending
    /// line and a caret column marker.
    pub fn report(&self, input: &str) -> (r: String)
        ensures
            r@ == spec_report(self@, input@),
    {
        let span = self.span();
        let (line, col, line_str, _) = get_line_context(input, span.start);
        let caret = build_caret_point(col);
        let message = self.message();
        let mut out = String::from_str("\x1b[31mError (line ");
        out.append(crate::text::fmt_usize(line).as_str());
        out.append(", column ");
        out.append(crate::text::fmt_usize(col).as_str());
        out.append("): ");
        out.append(message.as_str());
        out.append("\n  ");
        out.append(line_str.as_str());
        out.append("\n  ");
        out.append(caret.as_str());
        out.append("\x1b[0m");
        out
    }
}

} // verus!
