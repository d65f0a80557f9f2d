//! The functional model of semantic analysis.
//!
//! Every analyzer operation is defined here as a mathematical function from
//! analysis state to analysis state, so the executable analyzer can promise
//! `final(self)@ == v_program(old(self)@, program)` — and determinism of the
//! whole pass follows.  The model mirrors the checking rules: nominal type
//! equality, `is_ancestor`-based assignability, error accumulation with
//! `Unknown` propagation.

use vstd::prelude::*;
use crate::ast::{Binding, ElifBranch, Expression, FunctionDef, Program, Statement, TypeDef,
    TypeMember};
use crate::semantic::errors::{ArgKind, DefKind, ErrV};
use crate::tokens::{OperatorToken, Span};
use crate::types_tree::{first_index, spec_check_cycle, spec_find_lca, spec_find_method,
    spec_is_ancestor, tree_lookup, method_lookup, walk_fuel, MethodSigV, TypeNodeV};

verus! {

broadcast use vstd::std_specs::vec::axiom_vec_index_decreases;

/// A declared function's signature.
#[verifier::ext_equal]
pub ghost struct FunctionInfoV {
    pub name: Seq<char>,
    pub arg_types: Seq<(Seq<char>, Seq<char>)>,
    pub return_type: Seq<char>,
}

/// The lexical context that scopes save and restore.
#[verifier::ext_equal]
pub ghost struct ScopeV {
    pub symbols: Map<Seq<char>, Seq<char>>,
    pub current_type: Option<Seq<char>>,
    pub current_function: Option<Seq<char>>,
}

/// One recorded annotation: the node's span and its resolved type name.
#[verifier::ext_equal]
pub ghost struct AnnV {
    pub span: Span,
    pub ty: Seq<char>,
}

/// The whole analysis state.
#[verifier::ext_equal]
pub ghost struct StateV {
    pub scope: ScopeV,
    pub saved: Seq<ScopeV>,
    pub functions: Map<Seq<char>, FunctionInfoV>,
    pub declared: Seq<int>,
    pub errors: Seq<ErrV>,
    pub anns: Seq<AnnV>,
    pub tree: Seq<TypeNodeV>,
}

pub open spec fn with_error(st: StateV, e: ErrV) -> StateV {
    StateV { errors: st.errors.push(e), ..st }
}

pub open spec fn with_ann(st: StateV, span: Span, ty: Seq<char>) -> StateV {
    StateV { anns: st.anns.push(AnnV { span, ty }), ..st }
}

pub open spec fn with_symbol(st: StateV, name: Seq<char>, ty: Seq<char>) -> StateV {
    StateV { scope: ScopeV { symbols: st.scope.symbols.insert(name, ty), ..st.scope }, ..st }
}

pub open spec fn pushed_scope(st: StateV) -> StateV {
    StateV { saved: st.saved.push(st.scope), ..st }
}

pub open spec fn popped_scope(st: StateV) -> StateV {
    if st.saved.len() > 0 {
        StateV { scope: st.saved.last(), saved: st.saved.drop_last(), ..st }
    } else {
        st
    }
}

/// The printed form of an operator, as the lexer reads it.
pub open spec fn op_symbol(op: OperatorToken) -> Seq<char> {
    match op {
        OperatorToken::PLUS => "+"@,
        OperatorToken::MINUS => "-"@,
        OperatorToken::MUL => "*"@,
        OperatorToken::DIV => "/"@,
        OperatorToken::MOD => "%"@,
        OperatorToken::POW => "^"@,
        OperatorToken::NOT => "!"@,
        OperatorToken::EQ => "=="@,
        OperatorToken::NEQ => "!="@,
        OperatorToken::GT => ">"@,
        OperatorToken::GTE => ">="@,
        OperatorToken::LT => "<"@,
        OperatorToken::LTE => "<="@,
        OperatorToken::AND => "&&"@,
        OperatorToken::OR => "||"@,
        OperatorToken::DOT => "."@,
        OperatorToken::ASSIGN => "="@,
        OperatorToken::DASSIGN => ":="@,
        OperatorToken::NEG => "-"@,
        OperatorToken::CONCAT => "@"@,
    }
}

/// Resolution of one expression node: the state afterwards and the node's
/// type name.
pub open spec fn v_expr(st: StateV, e: &Expression) -> (StateV, Seq<char>)
    decreases e, 0int,
{
    match e {
        Expression::Number { span, .. } => (with_ann(st, *span, "Number"@), "Number"@),
        Expression::Boolean { span, .. } => (with_ann(st, *span, "Boolean"@), "Boolean"@),
        Expression::Str { span, .. } => (with_ann(st, *span, "String"@), "String"@),
        Expression::Identifier { value, span } => v_identifier(st, value@, *span),
        Expression::FunctionCall { function_name, arguments, span } => v_function_call(
            st,
            function_name@,
            arguments,
            *span,
        ),
        Expression::WhileLoop { condition, body, span } => {
            let (st1, cty) = v_expr(st, condition);
            let st2 = if cty != "Boolean"@ {
                with_error(st1, ErrV::InvalidConditionType(cty, *span))
            } else {
                st1
            };
            let (st3, bty) = v_expr(st2, body);
            (with_ann(st3, *span, bty), bty)
        },
        Expression::ForLoop { variable, start, end, body, span } => {
            let st1 = with_symbol(pushed_scope(st), variable@, "Number"@);
            let (st2, sty) = v_expr(st1, start);
            let (st3, ety) = v_expr(st2, end);
            let st4 = if sty != "Number"@ {
                with_error(
                    st3,
                    ErrV::InvalidTypeArgument(ArgKind::ForRange, sty, "Number"@, 0, "range"@, *span),
                )
            } else {
                st3
            };
            let st5 = if ety != "Number"@ {
                with_error(
                    st4,
                    ErrV::InvalidTypeArgument(ArgKind::ForRange, ety, "Number"@, 1, "range"@, *span),
                )
            } else {
                st4
            };
            let (st6, bty) = v_expr(st5, body);
            let st7 = popped_scope(st6);
            (with_ann(st7, *span, bty), bty)
        },
        Expression::CodeBlock { expressions, span } => {
            let (st1, last) = v_block_from(pushed_scope(st), expressions, 0, "Unknown"@);
            let st2 = popped_scope(st1);
            (with_ann(st2, *span, last), last)
        },
        Expression::BinaryOp { operator, left, right, span } => {
            let (st1, lty) = v_expr(st, left);
            let (st2, rty) = v_expr(st1, right);
            v_binary_result(st2, *operator, lty, rty, *span)
        },
        Expression::UnaryOp { operator, operand, span } => {
            let (st1, oty) = v_expr(st, operand);
            v_unary_result(st1, *operator, oty, *span)
        },
        Expression::IfElse { condition, if_expression, elifs, span } => {
            let (st1, cty) = v_expr(st, condition);
            let st2 = if cty != "Boolean"@ {
                with_error(st1, ErrV::InvalidConditionType(cty, condition.spec_span()))
            } else {
                st1
            };
            let (st3, ity) = v_expr(st2, if_expression);
            let (st4, rty) = v_elifs_from(st3, elifs, 0, ity, *span);
            (with_ann(st4, *span, rty), rty)
        },
        Expression::LetIn { assignments, body, span } => {
            let st1 = v_bindings_from(pushed_scope(st), assignments, 0);
            let (st2, bty) = v_expr(st1, body);
            let st3 = popped_scope(st2);
            (with_ann(st3, *span, bty), bty)
        },
        Expression::DestructiveAssign { identifier, expression, span } => match &**identifier {
            Expression::Identifier { value, span: idspan } => {
                if st.scope.symbols.contains_key(value@) {
                    let (st1, nty) = v_expr(st, expression);
                    let st2 = with_symbol(st1, value@, nty);
                    (with_ann(st2, *span, nty), nty)
                } else {
                    (with_error(st, ErrV::UndefinedIdentifier(value@, *idspan)), "Unknown"@)
                }
            },
            Expression::TypePropAccess { object, member, span: aspan } => {
                let (st1, oty) = v_expr(st, object);
                match tree_lookup(st1.tree, oty) {
                    Some(node) => if node.variables.contains_key(member@) {
                        let (st2, nty) = v_expr(st1, expression);
                        (with_ann(st2, *span, nty), nty)
                    } else {
                        (
                            with_error(st1, ErrV::InvalidTypePropertyAccess(oty, member@, *aspan)),
                            "Unknown"@,
                        )
                    },
                    None => (
                        with_error(st1, ErrV::InvalidTypePropertyAccess(oty, member@, *aspan)),
                        "Unknown"@,
                    ),
                }
            },
            _ => (
                with_error(
                    st,
                    ErrV::UnknownError(
                        "Destructive assignment can only be done to an identifier or type property access"@,
                        *span,
                    ),
                ),
                "Unknown"@,
            ),
        },
        Expression::TypeInstance { ty_name, arguments, span } => match tree_lookup(
            st.tree,
            ty_name@,
        ) {
            Some(node) => if node.params.len() != arguments.len() {
                (
                    with_error(
                        st,
                        ErrV::InvalidTypeArgumentCount(
                            arguments.len() as nat,
                            node.params.len(),
                            ty_name@,
                            *span,
                        ),
                    ),
                    "Unknown"@,
                )
            } else {
                let st1 = v_instance_args_from(st, arguments, 0, node, ty_name@, *span);
                (with_ann(st1, *span, node.name), node.name)
            },
            None => (with_error(st, ErrV::UndefinedType(ty_name@, *span)), "Unknown"@),
        },
        Expression::TypeFunctionAccess { object, member_name, member_args, member_span, span } => {
            let (st1, oty) = v_expr(st, object);
            match spec_find_method(st1.tree, oty, member_name@, walk_fuel(st1.tree)) {
                Some(func) => if func.params.len() != member_args.len() {
                    (
                        with_error(
                            st1,
                            ErrV::InvalidArgumentsCount(
                                member_args.len() as nat,
                                func.params.len(),
                                member_name@,
                                *member_span,
                            ),
                        ),
                        "Unknown"@,
                    )
                } else {
                    let st2 = v_method_args_from(
                        st1,
                        member_args,
                        0,
                        func,
                        member_name@,
                        *member_span,
                    );
                    match tree_lookup(st2.tree, func.return_type) {
                        Some(_) => (
                            with_ann(
                                with_ann(st2, *span, func.return_type),
                                *member_span,
                                func.return_type,
                            ),
                            func.return_type,
                        ),
                        None => (
                            with_error(
                                st2,
                                ErrV::UndefinedType(func.return_type, *member_span),
                            ),
                            "Unknown"@,
                        ),
                    }
                },
                None => (
                    with_error(
                        st1,
                        ErrV::InvalidTypeFunctionAccess(oty, member_name@, *member_span),
                    ),
                    "Unknown"@,
                ),
            }
        },
        Expression::TypePropAccess { object, member, span } => {
            let (st1, oty) = v_expr(st, object);
            match st1.scope.current_type {
                Some(ct) => match tree_lookup(st1.tree, ct) {
                    Some(node) => if node.variables.contains_key(member@) {
                        let pty = node.variables[member@];
                        match tree_lookup(st1.tree, pty) {
                            Some(_) => (with_ann(st1, *span, pty), pty),
                            None => (
                                with_error(st1, ErrV::UndefinedType(pty, *span)),
                                "Unknown"@,
                            ),
                        }
                    } else {
                        (
                            with_error(st1, ErrV::InvalidTypeProperty(oty, member@, *span)),
                            "Unknown"@,
                        )
                    },
                    None => (with_error(st1, ErrV::UndefinedType(ct, *span)), "Unknown"@),
                },
                None => (
                    with_error(st1, ErrV::InvalidTypePropertyAccess(oty, member@, *span)),
                    "Unknown"@,
                ),
            }
        },
        Expression::Print { expression, span } => {
            let (st1, ty) = v_expr(st, expression);
            let st2 = if ty != "Number"@ && ty != "String"@ && ty != "Boolean"@ && ty
                != "Unknown"@ {
                with_error(st1, ErrV::InvalidPrint(ty, *span))
            } else {
                st1
            };
            (with_ann(st2, *span, ty), ty)
        },
    }
}

/// Identifier resolution: the symbol table first, then `self`.
pub open spec fn v_identifier(st: StateV, name: Seq<char>, span: Span) -> (StateV, Seq<char>) {
    if st.scope.symbols.contains_key(name) {
        let tyname = st.scope.symbols[name];
        match tree_lookup(st.tree, tyname) {
            Some(_) => (with_ann(st, span, tyname), tyname),
            None => (with_error(st, ErrV::UndefinedType(tyname, span)), "Unknown"@),
        }
    } else if name == "self"@ {
        match st.scope.current_type {
            Some(ct) => match tree_lookup(st.tree, ct) {
                Some(_) => (with_ann(st, span, ct), ct),
                None => (with_error(st, ErrV::UndefinedType(ct, span)), "Unknown"@),
            },
            None => (with_error(st, ErrV::UndefinedIdentifier(name, span)), "Unknown"@),
        }
    } else {
        (with_error(st, ErrV::UndefinedIdentifier(name, span)), "Unknown"@)
    }
}

/// The typing of a binary operator over resolved operand types.
pub open spec fn v_binary_result(
    st: StateV,
    op: OperatorToken,
    lty: Seq<char>,
    rty: Seq<char>,
    span: Span,
) -> (StateV, Seq<char>) {
    match op {
        OperatorToken::PLUS
        | OperatorToken::MINUS
        | OperatorToken::MUL
        | OperatorToken::DIV
        | OperatorToken::MOD
        | OperatorToken::POW => {
            if lty == "Number"@ && rty == "Number"@ {
                (with_ann(st, span, "Number"@), "Number"@)
            } else {
                (with_error(st, ErrV::InvalidBinaryOperation(lty, rty, op, span)), "Unknown"@)
            }
        },
        OperatorToken::GT | OperatorToken::GTE | OperatorToken::LT | OperatorToken::LTE => {
            if lty == "Number"@ && rty == "Number"@ {
                (with_ann(st, span, "Boolean"@), "Boolean"@)
            } else {
                (with_error(st, ErrV::InvalidBinaryOperation(lty, rty, op, span)), "Unknown"@)
            }
        },
        OperatorToken::EQ | OperatorToken::NEQ => {
            if (lty == "String"@ && rty == "String"@) || (lty == "Boolean"@ && rty == "Boolean"@)
                || (lty == "Number"@ && rty == "Number"@) {
                (with_ann(st, span, "Boolean"@), "Boolean"@)
            } else {
                (with_error(st, ErrV::InvalidBinaryOperation(lty, rty, op, span)), "Unknown"@)
            }
        },
        OperatorToken::CONCAT => {
            if lty == "String"@ && rty == "String"@ {
                (with_ann(st, span, "String"@), "String"@)
            } else {
                (with_error(st, ErrV::InvalidBinaryOperation(lty, rty, op, span)), "Unknown"@)
            }
        },
        OperatorToken::AND | OperatorToken::OR => {
            if lty == "Boolean"@ && rty == "Boolean"@ {
                (with_ann(st, span, "Boolean"@), "Boolean"@)
            } else {
                (with_error(st, ErrV::InvalidBinaryOperation(lty, rty, op, span)), "Unknown"@)
            }
        },
        _ => (
            with_error(
                st,
                ErrV::UnknownError(
                    "Operator ( "@ + op_symbol(op) + " ) not supported in binary operation"@,
                    span,
                ),
            ),
            "Unknown"@,
        ),
    }
}

/// The typing of a unary operator over its resolved operand type.
pub open spec fn v_unary_result(st: StateV, op: OperatorToken, oty: Seq<char>, span: Span) -> (
    StateV,
    Seq<char>,
) {
    match op {
        OperatorToken::NEG | OperatorToken::MINUS => {
            if oty == "Number"@ {
                (with_ann(st, span, "Number"@), "Number"@)
            } else {
                (with_error(st, ErrV::InvalidUnaryOperation(oty, op, span)), "Unknown"@)
            }
        },
        OperatorToken::NOT => {
            if oty == "Boolean"@ {
                (with_ann(st, span, "Boolean"@), "Boolean"@)
            } else {
                (with_error(st, ErrV::InvalidUnaryOperation(oty, op, span)), "Unknown"@)
            }
        },
        _ => (
            with_error(
                st,
                ErrV::UnknownError(
                    "Operator ( "@ + op_symbol(op) + " ) not supported in unary operation"@,
                    span,
                ),
            ),
            "Unknown"@,
        ),
    }
}

/// The expressions of a block, in order; the block's type is the last one's.
pub open spec fn v_block_from(st: StateV, es: &Vec<Expression>, i: int, last: Seq<char>) -> (
    StateV,
    Seq<char>,
)
    decreases es, es.len() - i,
{
    if i < 0 || i >= es.len() {
        (st, last)
    } else {
        let (st1, ty) = v_expr(st, &es[i]);
        v_block_from(st1, es, i + 1, ty)
    }
}

/// Argument expressions of a call, collecting each one's type.
pub open spec fn v_args_from(
    st: StateV,
    args: &Vec<Expression>,
    i: int,
    acc: Seq<Seq<char>>,
) -> (StateV, Seq<Seq<char>>)
    decreases args, args.len() - i,
{
    if i < 0 || i >= args.len() {
        (st, acc)
    } else {
        let (st1, ty) = v_expr(st, &args[i]);
        v_args_from(st1, args, i + 1, acc.push(ty))
    }
}

/// `elif`/`else` arms: each body is typed, each present condition must be
/// `Boolean`, and differing branch types are joined at their lowest common
/// ancestor — `Unknown` or `Object` joins are reported as incompatible.
pub open spec fn v_elifs_from(
    st: StateV,
    elifs: &Vec<ElifBranch>,
    i: int,
    result: Seq<char>,
    span: Span,
) -> (StateV, Seq<char>)
    decreases elifs, elifs.len() - i,
{
    if i < 0 || i >= elifs.len() {
        (st, result)
    } else {
        let (st1, ety) = v_expr(st, &elifs[i].body);
        let st2 = match &elifs[i].condition {
            Some(c) => {
                let (st2a, cty) = v_expr(st1, c);
                if cty != "Boolean"@ {
                    with_error(st2a, ErrV::InvalidConditionType(cty, span))
                } else {
                    st2a
                }
            },
            None => st1,
        };
        if result != ety {
            let lca = spec_find_lca(st2.tree, result, ety);
            let st3 = if lca == "Unknown"@ || lca == "Object"@ {
                with_error(
                    st2,
                    ErrV::UnknownError("Incompatible types in if-else branches"@, span),
                )
            } else {
                st2
            };
            v_elifs_from(st3, elifs, i + 1, lca, span)
        } else {
            v_elifs_from(st2, elifs, i + 1, result, span)
        }
    }
}

/// `let` bindings: each initializer is typed in the current scope, annotated,
/// and then bound.
pub open spec fn v_bindings_from(st: StateV, bs: &Vec<Binding>, i: int) -> StateV
    decreases bs, bs.len() - i,
{
    if i < 0 || i >= bs.len() {
        st
    } else {
        let (st1, ty) = v_expr(st, &bs[i].expression);
        let st2 = with_symbol(with_ann(st1, bs[i].span, ty), bs[i].identifier@, ty);
        v_bindings_from(st2, bs, i + 1)
    }
}

/// Constructor arguments of `new T(...)`: each must be a subtype of the
/// matching constructor parameter.
pub open spec fn v_instance_args_from(
    st: StateV,
    args: &Vec<Expression>,
    i: int,
    node: TypeNodeV,
    tyname: Seq<char>,
    span: Span,
) -> StateV
    decreases args, args.len() - i,
{
    if i < 0 || i >= args.len() || i >= node.params.len() {
        st
    } else {
        let (st1, aty) = v_expr(st, &args[i]);
        let ok = tree_lookup(st1.tree, aty) is Some && tree_lookup(
            st1.tree,
            node.params[i].signature,
        ) is Some && spec_is_ancestor(st1.tree, node.params[i].signature, aty);
        let st2 = if !ok {
            with_error(
                st1,
                ErrV::InvalidTypeArgument(
                    ArgKind::Type,
                    aty,
                    node.params[i].signature,
                    i as nat,
                    tyname,
                    span,
                ),
            )
        } else {
            st1
        };
        v_instance_args_from(st2, args, i + 1, node, tyname, span)
    }
}

/// Arguments of a method call: each must be a subtype of the declared
/// parameter type.
pub open spec fn v_method_args_from(
    st: StateV,
    args: &Vec<Expression>,
    i: int,
    func: MethodSigV,
    fname: Seq<char>,
    span: Span,
) -> StateV
    decreases args, args.len() - i,
{
    if i < 0 || i >= args.len() || i >= func.params.len() {
        st
    } else {
        let (st1, aty) = v_expr(st, &args[i]);
        let ok = tree_lookup(st1.tree, aty) is Some && tree_lookup(
            st1.tree,
            func.params[i].signature,
        ) is Some && spec_is_ancestor(st1.tree, func.params[i].signature, aty);
        let st2 = if !ok {
            with_error(
                st1,
                ErrV::InvalidTypeArgument(
                    ArgKind::Function,
                    aty,
                    func.params[i].signature,
                    i as nat,
                    fname,
                    span,
                ),
            )
        } else {
            st1
        };
        v_method_args_from(st2, args, i + 1, func, fname, span)
    }
}

/// `base(...)` arguments are checked against the parent method's parameter
/// types by name equality.
pub open spec fn v_base_checks_from(
    st: StateV,
    atys: Seq<Seq<char>>,
    func: MethodSigV,
    i: int,
    span: Span,
) -> StateV
    decreases atys.len() - i,
{
    if i < 0 || i >= atys.len() || i >= func.params.len() {
        st
    } else {
        let st1 = if atys[i] != func.params[i].signature {
            with_error(
                st,
                ErrV::InvalidTypeArgument(
                    ArgKind::Function,
                    atys[i],
                    func.params[i].signature,
                    i as nat,
                    func.name,
                    span,
                ),
            )
        } else {
            st
        };
        v_base_checks_from(st1, atys, func, i + 1, span)
    }
}

/// Ordinary call arguments are checked against the declared parameter types
/// by ancestry.
pub open spec fn v_call_checks_from(
    st: StateV,
    atys: Seq<Seq<char>>,
    info: FunctionInfoV,
    i: int,
    span: Span,
) -> StateV
    decreases atys.len() - i,
{
    if i < 0 || i >= atys.len() || i >= info.arg_types.len() {
        st
    } else {
        let expected = info.arg_types[i].1;
        let ok = tree_lookup(st.tree, expected) is Some && tree_lookup(st.tree, atys[i]) is Some
            && spec_is_ancestor(st.tree, expected, atys[i]);
        let st1 = if !ok {
            with_error(
                st,
                ErrV::InvalidTypeArgument(
                    ArgKind::Function,
                    atys[i],
                    expected,
                    i as nat,
                    info.name,
                    span,
                ),
            )
        } else {
            st
        };
        v_call_checks_from(st1, atys, info, i + 1, span)
    }
}

/// Whether a call is a `base(...)` call that resolves to a parent method.
pub open spec fn base_target(st: StateV, name: Seq<char>) -> Option<MethodSigV> {
    if st.scope.current_type is Some && name == "base"@ {
        let ct = st.scope.current_type.unwrap();
        match tree_lookup(st.tree, ct) {
            Some(node) => match node.parent {
                Some(parent) => match st.scope.current_function {
                    Some(cf) => spec_find_method(st.tree, parent, cf, walk_fuel(st.tree)),
                    None => None,
                },
                None => None,
            },
            None => None,
        }
    } else {
        None
    }
}

/// A function call: arguments first, then `base` dispatch or the declared
/// function's arity, argument, and return-type checks.
pub open spec fn v_function_call(
    st: StateV,
    name: Seq<char>,
    args: &Vec<Expression>,
    span: Span,
) -> (StateV, Seq<char>)
    decreases args, args.len() + 1,
{
    let (st1, atys) = v_args_from(st, args, 0, Seq::empty());
    match base_target(st1, name) {
        Some(func) => {
            let st2 = if args.len() != func.params.len() {
                with_error(
                    st1,
                    ErrV::InvalidArgumentsCount(
                        args.len() as nat,
                        func.params.len(),
                        st1.scope.current_function.unwrap(),
                        span,
                    ),
                )
            } else {
                v_base_checks_from(st1, atys, func, 0, span)
            };
            match tree_lookup(st2.tree, func.return_type) {
                Some(_) => (with_ann(st2, span, func.return_type), func.return_type),
                None => (
                    with_error(st2, ErrV::UndefinedType(func.return_type, span)),
                    "Unknown"@,
                ),
            }
        },
        None => {
            if st1.functions.contains_key(name) {
                let info = st1.functions[name];
                let st2 = if args.len() != info.arg_types.len() {
                    with_error(
                        st1,
                        ErrV::InvalidArgumentsCount(
                            args.len() as nat,
                            info.arg_types.len(),
                            name,
                            span,
                        ),
                    )
                } else {
                    v_call_checks_from(st1, atys, info, 0, span)
                };
                match tree_lookup(st2.tree, info.return_type) {
                    Some(_) => (with_ann(st2, span, info.return_type), info.return_type),
                    None => (
                        with_error(st2, ErrV::UndefinedType(info.return_type, span)),
                        "Unknown"@,
                    ),
                }
            } else {
                (with_error(st1, ErrV::UndeclaredFunction(name, span)), "Unknown"@)
            }
        },
    }
}

/// A function or method definition: parameters come into scope, the body is
/// typed, and it must be a subtype of the declared return type.
pub open spec fn v_fn_def(st: StateV, f: &FunctionDef) -> (StateV, Seq<char>)
    decreases f, 0int,
{
    let st0 = pushed_scope(st);
    let st1 = StateV {
        scope: ScopeV { current_function: Some(f.name@), ..st0.scope },
        ..st0
    };
    let st2 = if st1.functions.contains_key(f.name@) {
        v_info_params_from(st1, st1.functions[f.name@].arg_types, 0)
    } else {
        match st1.scope.current_type {
            Some(ct) => match tree_lookup(st1.tree, ct) {
                Some(node) => match method_lookup(node.methods, f.name@) {
                    Some(m) => v_sig_params_from(st1, m.params, 0),
                    None => with_error(st1, ErrV::UndeclaredFunction(f.name@, f.span)),
                },
                None => with_error(st1, ErrV::UndefinedType(ct, f.span)),
            },
            None => with_error(st1, ErrV::UndeclaredFunction(f.name@, f.span)),
        }
    };
    let (st3, bty) = v_expr(st2, &f.body);
    let (st4, ret) = match tree_lookup(st3.tree, f.return_type@) {
        Some(_) => {
            let stc = if !spec_is_ancestor(st3.tree, f.return_type@, bty) {
                with_error(st3, ErrV::InvalidFunctionReturn(bty, f.return_type@, f.name@, f.span))
            } else {
                st3
            };
            (stc, f.return_type@)
        },
        None => (with_error(st3, ErrV::UndefinedType(f.return_type@, f.span)), "Unknown"@),
    };
    let st5 = popped_scope(st4);
    (with_ann(st5, f.span, ret), ret)
}

/// Binds a declared function's parameters in the current scope.
pub open spec fn v_info_params_from(
    st: StateV,
    pairs: Seq<(Seq<char>, Seq<char>)>,
    i: int,
) -> StateV
    decreases pairs.len() - i,
{
    if i < 0 || i >= pairs.len() {
        st
    } else {
        v_info_params_from(with_symbol(st, pairs[i].0, pairs[i].1), pairs, i + 1)
    }
}

/// Binds a method's parameters (name to declared type name).
pub open spec fn v_sig_params_from(st: StateV, params: Seq<crate::types_tree::ParamV>, i: int) -> StateV
    decreases params.len() - i,
{
    if i < 0 || i >= params.len() {
        st
    } else {
        v_sig_params_from(with_symbol(st, params[i].name, params[i].signature), params, i + 1)
    }
}

/// A type definition: constructor parameters come into scope, the parent's
/// constructor arguments are checked, field initializers are typed and
/// recorded, and then the methods are analyzed.
pub open spec fn v_type_def(st: StateV, t: &TypeDef) -> (StateV, Seq<char>)
    decreases t, 3int,
{
    let st1 = StateV {
        scope: ScopeV { current_type: Some(t.identifier@), ..pushed_scope(st).scope },
        ..pushed_scope(st)
    };
    let st2 = v_tparams_from(st1, t, 0);
    let st3 = match &t.parent {
        Some(pn) => match tree_lookup(st2.tree, pn@) {
            Some(pnode) => if pnode.params.len() != t.parent_args.len() {
                with_error(
                    st2,
                    ErrV::InvalidTypeArgumentCount(
                        t.parent_args.len() as nat,
                        pnode.params.len(),
                        pnode.name,
                        t.span,
                    ),
                )
            } else {
                v_parent_args_from(st2, t, pnode, 0)
            },
            None => with_error(st2, ErrV::UndefinedType(pn@, t.span)),
        },
        None => st2,
    };
    let st4 = v_props_from(st3, t, 0);
    let st5 = v_methods_from(st4, t, 0);
    let st6 = popped_scope(st5);
    match tree_lookup(st6.tree, t.identifier@) {
        Some(node) => (with_ann(st6, t.span, node.name), node.name),
        None => (st6, "Unknown"@),
    }
}

/// Constructor parameters of a type definition.
pub open spec fn v_tparams_from(st: StateV, t: &TypeDef, i: int) -> StateV
    decreases t, 2int, t.params.len() - i,
{
    if i < 0 || i >= t.params.len() {
        st
    } else {
        let p = t.params[i];
        let sta = if st.scope.symbols.contains_key(p.name@) {
            with_error(
                st,
                ErrV::ParamNameAlreadyExist(p.name@, t.identifier@, DefKind::Type, p.span),
            )
        } else {
            st
        };
        let stb = match tree_lookup(sta.tree, p.signature@) {
            Some(node) => with_symbol(sta, p.name@, node.name),
            None => with_symbol(
                with_error(sta, ErrV::UndefinedType(p.signature@, p.span)),
                p.name@,
                "Unknown"@,
            ),
        };
        v_tparams_from(stb, t, i + 1)
    }
}

/// Arguments handed to the parent constructor, checked by name equality.
pub open spec fn v_parent_args_from(st: StateV, t: &TypeDef, pnode: TypeNodeV, i: int) -> StateV
    decreases t, 2int, t.parent_args.len() - i,
{
    if i < 0 || i >= t.parent_args.len() || i >= pnode.params.len() {
        st
    } else {
        let (st1, aty) = v_expr(st, &t.parent_args[i]);
        let st2 = if aty != pnode.params[i].signature {
            with_error(
                st1,
                ErrV::InvalidTypeArgument(
                    ArgKind::Type,
                    aty,
                    pnode.params[i].signature,
                    i as nat,
                    t.identifier@,
                    t.parent_args[i].spec_span(),
                ),
            )
        } else {
            st1
        };
        v_parent_args_from(st2, t, pnode, i + 1)
    }
}

/// Field initializers of a type definition, re-recording each field at its
/// inferred type.
pub open spec fn v_props_from(st: StateV, t: &TypeDef, i: int) -> StateV
    decreases t, 2int, t.members.len() - i,
{
    if i < 0 || i >= t.members.len() {
        st
    } else {
        let st2 = match &t.members[i] {
            TypeMember::Property(prop) => {
                let (sta, pty) = v_expr(st, &prop.expression);
                let stb = with_ann(sta, prop.span, pty);
                StateV { tree: tree_add_variable(stb.tree, t.identifier@, prop.identifier@, pty), ..stb }
            },
            TypeMember::Method(_) => st,
        };
        v_props_from(st2, t, i + 1)
    }
}

/// The methods of a type definition, in declaration order.
pub open spec fn v_methods_from(st: StateV, t: &TypeDef, i: int) -> StateV
    decreases t, 2int, t.members.len() - i,
{
    if i < 0 || i >= t.members.len() {
        st
    } else {
        let st2 = match &t.members[i] {
            TypeMember::Method(m) => v_fn_def(st, m).0,
            TypeMember::Property(_) => st,
        };
        v_methods_from(st2, t, i + 1)
    }
}

/// The registry update of `add_variable`, as a function on node lists.
pub open spec fn tree_add_variable(
    ts: Seq<TypeNodeV>,
    name: Seq<char>,
    member: Seq<char>,
    mtype: Seq<char>,
) -> Seq<TypeNodeV> {
    match first_index(ts, name) {
        Some(j) => ts.update(
            j,
            TypeNodeV { variables: ts[j].variables.insert(member, mtype), ..ts[j] },
        ),
        None => ts,
    }
}

/// One top-level statement.
pub open spec fn v_statement(st: StateV, s: &Statement) -> StateV
    decreases s, 4int,
{
    match s {
        Statement::StatementExpression(e) => v_expr(st, e).0,
        Statement::StatementFunctionDef(f) => v_fn_def(st, f).0,
        Statement::StatementTypeDef(t) => v_type_def(st, t).0,
    }
}

/// All top-level statements in order.
pub open spec fn v_statements_from(st: StateV, p: &Program, i: int) -> StateV
    decreases p.statements.len() - i,
{
    if i < 0 || i >= p.statements.len() {
        st
    } else {
        v_statements_from(v_statement(st, &p.statements[i]), p, i + 1)
    }
}

/// The identifier of the type defined by statement `i`, if it is a type
/// definition.
pub open spec fn decl_ident(p: &Program, i: int) -> Seq<char> {
    if 0 <= i < p.statements.len() {
        match p.statements[i] {
            Statement::StatementTypeDef(td) => td.identifier@,
            _ => Seq::empty(),
        }
    } else {
        Seq::empty()
    }
}

pub open spec fn declared_contains(p: &Program, decl: Seq<int>, name: Seq<char>) -> bool {
    exists|k: int| 0 <= k < decl.len() && decl_ident(p, decl[k]) == name
}

/// Collection of type definitions: redefinitions are rejected, literal
/// self-inheritance is reported, and accepted definitions are recorded in
/// order.
pub open spec fn v_collect_types_from(st: StateV, p: &Program, i: int) -> StateV
    decreases p.statements.len() - i,
{
    if i < 0 || i >= p.statements.len() {
        st
    } else {
        let st2 = match &p.statements[i] {
            Statement::StatementTypeDef(td) => {
                if tree_lookup(st.tree, td.identifier@) is Some || declared_contains(
                    p,
                    st.declared,
                    td.identifier@,
                ) {
                    with_error(st, ErrV::RedefinitionOfType(td.identifier@, td.span))
                } else {
                    let sta = match &td.parent {
                        Some(pn) => if pn@ == td.identifier@ {
                            with_error(
                                st,
                                ErrV::UnknownError("Type cannot inherit from itself"@, td.span),
                            )
                        } else {
                            st
                        },
                        None => st,
                    };
                    StateV { declared: sta.declared.push(i), ..sta }
                }
            },
            _ => st,
        };
        v_collect_types_from(st2, p, i + 1)
    }
}

/// The variables recorded for a new registry node: each field at its declared
/// type, or `Unknown` where none was written.
pub open spec fn member_vars(ms: &Vec<TypeMember>, i: int) -> Map<Seq<char>, Seq<char>>
    decreases i,
{
    if i <= 0 || i > ms.len() {
        Map::empty()
    } else {
        match &ms[i - 1] {
            TypeMember::Property(prop) => member_vars(ms, i - 1).insert(
                prop.identifier@,
                match &prop.declared_type {
                    Some(ty) => ty@,
                    None => "Unknown"@,
                },
            ),
            TypeMember::Method(_) => member_vars(ms, i - 1),
        }
    }
}

/// The method signatures recorded for a new registry node.
pub open spec fn member_methods(ms: &Vec<TypeMember>, i: int) -> Seq<MethodSigV>
    decreases i,
{
    if i <= 0 || i > ms.len() {
        Seq::empty()
    } else {
        match &ms[i - 1] {
            TypeMember::Method(m) => member_methods(ms, i - 1).push(
                MethodSigV { name: m.name@, params: m.params.deep_view(), return_type: m.return_type@ },
            ),
            TypeMember::Property(_) => member_methods(ms, i - 1),
        }
    }
}

/// The registry node a type definition first registers: no parent yet.
pub open spec fn shell_node(td: &TypeDef) -> TypeNodeV {
    TypeNodeV {
        name: td.identifier@,
        params: td.params.deep_view(),
        parent: None,
        variables: member_vars(&td.members, td.members.len() as int),
        methods: member_methods(&td.members, td.members.len() as int),
    }
}

/// The registry update of `add_type`.
pub open spec fn tree_add(ts: Seq<TypeNodeV>, node: TypeNodeV) -> Seq<TypeNodeV> {
    if tree_lookup(ts, node.name) is Some {
        ts
    } else {
        ts.push(node)
    }
}

/// The registry update of `set_parent`.
pub open spec fn tree_set_parent(ts: Seq<TypeNodeV>, name: Seq<char>, parent: Seq<char>) -> Seq<
    TypeNodeV,
> {
    match first_index(ts, name) {
        Some(j) => ts.update(j, TypeNodeV { parent: Some(parent), ..ts[j] }),
        None => ts,
    }
}

/// First pass of `build_types`: register every collected definition.
pub open spec fn v_register_from(st: StateV, p: &Program, k: int) -> StateV
    decreases st.declared.len() - k,
{
    if k < 0 || k >= st.declared.len() {
        st
    } else {
        let st2 = if 0 <= st.declared[k] < p.statements.len() {
            match &p.statements[st.declared[k]] {
                Statement::StatementTypeDef(td) => StateV {
                    tree: tree_add(st.tree, shell_node(td)),
                    ..st
                },
                _ => st,
            }
        } else {
            st
        };
        v_register_from(st2, p, k + 1)
    }
}

/// Second pass of `build_types`: resolve parent links and check the argument
/// count handed to each parent constructor.
pub open spec fn v_link_from(st: StateV, p: &Program, k: int) -> StateV
    decreases st.declared.len() - k,
{
    if k < 0 || k >= st.declared.len() {
        st
    } else {
        let st2 = if !(0 <= st.declared[k] < p.statements.len()) {
            st
        } else {
            match &p.statements[st.declared[k]] {
            Statement::StatementTypeDef(td) => match &td.parent {
                Some(pn) => match tree_lookup(st.tree, pn@) {
                    Some(_) => {
                        let sta = StateV {
                            tree: tree_set_parent(st.tree, td.identifier@, pn@),
                            ..st
                        };
                        let plen = match tree_lookup(sta.tree, pn@) {
                            Some(pnode) => pnode.params.len() as int,
                            None => 0,
                        };
                        if td.parent_args.len() != plen {
                            with_error(
                                sta,
                                ErrV::InvalidTypeArgumentCount(
                                    td.parent_args.len() as nat,
                                    plen as nat,
                                    pn@,
                                    td.span,
                                ),
                            )
                        } else {
                            sta
                        }
                    },
                    None => with_error(st, ErrV::UndefinedType(pn@, td.span)),
                },
                None => st,
            },
            _ => st,
            }
        };
        v_link_from(st2, p, k + 1)
    }
}

/// The span of the collected definition of `name`, for the cycle report.
pub open spec fn declared_span_from(p: &Program, decl: Seq<int>, name: Seq<char>, k: int) -> Span
    decreases decl.len() - k,
{
    if k < 0 || k >= decl.len() {
        Span { start: 0, end: 0 }
    } else if !(0 <= decl[k] < p.statements.len()) {
        declared_span_from(p, decl, name, k + 1)
    } else {
        match p.statements[decl[k]] {
            Statement::StatementTypeDef(td) => if td.identifier@ == name {
                td.span
            } else {
                declared_span_from(p, decl, name, k + 1)
            },
            _ => declared_span_from(p, decl, name, k + 1),
        }
    }
}

/// `build_types`: register, link, then look for an inheritance cycle.
pub open spec fn v_build_types(st: StateV, p: &Program) -> StateV {
    let st1 = v_register_from(st, p, 0);
    let st2 = v_link_from(st1, p, 0);
    match spec_check_cycle(st2.tree) {
        Some(name) => with_error(
            st2,
            ErrV::CycleDetected(name, declared_span_from(p, st2.declared, name, 0)),
        ),
        None => st2,
    }
}

/// The parameter list a function declaration contributes, with duplicate
/// names and undefined types reported.
pub open spec fn v_fn_params_from(
    st: StateV,
    f: &FunctionDef,
    j: int,
    acc: Seq<(Seq<char>, Seq<char>)>,
) -> (StateV, Seq<(Seq<char>, Seq<char>)>)
    decreases f.params.len() - j,
{
    if j < 0 || j >= f.params.len() {
        (st, acc)
    } else {
        let p = f.params[j];
        let (st2, acc2) = if tree_lookup(st.tree, p.signature@) is Some {
            if exists|k: int| 0 <= k < acc.len() && acc[k].0 == p.name@ {
                (
                    with_error(
                        st,
                        ErrV::ParamNameAlreadyExist(p.name@, f.name@, DefKind::Function, p.span),
                    ),
                    acc,
                )
            } else {
                (st, acc.push((p.name@, p.signature@)))
            }
        } else {
            (
                with_error(st, ErrV::UndefinedType(p.signature@, p.span)),
                acc.push((p.name@, "Unknown"@)),
            )
        };
        v_fn_params_from(st2, f, j + 1, acc2)
    }
}

/// Collection of function declarations.
pub open spec fn v_collect_functions_from(st: StateV, p: &Program, i: int) -> StateV
    decreases p.statements.len() - i,
{
    if i < 0 || i >= p.statements.len() {
        st
    } else {
        let st2 = match &p.statements[i] {
            Statement::StatementFunctionDef(f) => {
                let (sta, acc) = v_fn_params_from(st, f, 0, Seq::empty());
                if sta.functions.contains_key(f.name@) {
                    with_error(sta, ErrV::RedefinitionOfFunction(f.name@, f.span))
                } else {
                    let ret = if tree_lookup(sta.tree, f.return_type@) is Some {
                        f.return_type@
                    } else {
                        "Unknown"@
                    };
                    StateV {
                        functions: sta.functions.insert(
                            f.name@,
                            FunctionInfoV { name: f.name@, arg_types: acc, return_type: ret },
                        ),
                        ..sta
                    }
                }
            },
            _ => st,
        };
        v_collect_functions_from(st2, p, i + 1)
    }
}

/// The whole analysis: collect types, build the registry, collect functions,
/// then type every statement.
pub open spec fn v_program(st: StateV, p: &Program) -> StateV {
    let st1 = v_collect_types_from(st, p, 0);
    let st2 = v_build_types(st1, p);
    let st3 = v_collect_functions_from(st2, p, 0);
    v_statements_from(st3, p, 0)
}

} // verus!

verus! {

/// Law: analysis is deterministic.  Two analyzer runs over the same AST from
/// equal starting states end in equal states — in particular with the same
/// annotations and identical diagnostics.  Together with `analyze`'s
/// contract, which pins its outcome to `v_program`, running the analyzer
/// twice on one AST cannot differ.
pub proof fn lemma_analysis_deterministic(a: StateV, b: StateV, p: &Program)
    requires
        a == b,
    ensures
        v_program(a, p) == v_program(b, p),
        v_program(a, p).anns == v_program(b, p).anns,
        v_program(a, p).errors == v_program(b, p).errors,
{
}

} // verus!
