//! Lowering of annotated expressions to IR lines, with its functional model.
//!
//! Each lowering returns a [`ResultCodegen`]: the operand holding the value,
//! its LLVM type, and its language type.  Every function is proved equal to a
//! model function of the context and the node, so emitting the same program
//! twice produces identical lines, registers, and literal ids.

use vstd::prelude::*;
use crate::ast::{Binding, ElifBranch, Expression};
use crate::codegen::context::{g_line, reg_name, resolve_reg, CodegenCtx, GCtx, MethodSlotV,
    str_lit_name, str_lit_global};
use crate::codegen::utils::{spec_llvm, to_llvm_type};
use crate::strmap::{clone_string, str_eq};
use crate::text::{cat2, cat3, cat4, cat5, cat6, cat7, cat8, cat9, dec_str, fmt_usize, sat_add,
    sat_inc, sat_plus};
use crate::tokens::OperatorToken;

verus! {

broadcast use vstd::std_specs::vec::axiom_vec_index_decreases;

/// What lowering one expression yields: the operand (a register or an
/// immediate), its LLVM type, and its language type.
pub struct ResultCodegen {
    pub register: String,
    pub llvm_type: String,
    pub ast_type: String,
}

#[verifier::ext_equal]
pub ghost struct RcV {
    pub register: Seq<char>,
    pub llvm_type: Seq<char>,
    pub ast_type: Seq<char>,
}

impl View for ResultCodegen {
    type V = RcV;

    open spec fn view(&self) -> RcV {
        RcV { register: self.register@, llvm_type: self.llvm_type@, ast_type: self.ast_type@ }
    }
}

impl ResultCodegen {
    pub fn new(register: String, llvm_type: String, ast_type: String) -> (r: Self)
        ensures
            r@ == (RcV { register: register@, llvm_type: llvm_type@, ast_type: ast_type@ }),
    {
        ResultCodegen { register, llvm_type, ast_type }
    }
}

/// The placeholder result for nodes no rule applies to.
pub open spec fn default_rcv() -> RcV {
    RcV { register: "undef"@, llvm_type: "double"@, ast_type: "Unknown"@ }
}

fn default_rc() -> (r: ResultCodegen)
    ensures
        r@ == default_rcv(),
{
    ResultCodegen {
        register: String::from_str("undef"),
        llvm_type: String::from_str("double"),
        ast_type: String::from_str("Unknown"),
    }
}

/// A fresh temporary at the given language type, as `fresh_temp_var` promises.
pub open spec fn g_fresh(c: GCtx, ty: Seq<char>) -> (GCtx, Seq<char>) {
    let name = "%"@ + dec_str(c.temp_counter);
    (
        GCtx {
            temp_counter: sat_inc(c.temp_counter),
            temp_types: c.temp_types.insert(name, ty),
            ..c
        },
        name,
    )
}

/// A fresh block id, as `fresh_id` promises.
pub open spec fn g_id(c: GCtx) -> (GCtx, nat) {
    (GCtx { ctx_id: sat_inc(c.ctx_id), ..c }, c.ctx_id)
}

/// A labelled block opened, as `start_block` promises.
pub open spec fn g_block(c: GCtx, label: Seq<char>) -> GCtx {
    GCtx { lines: c.lines.push(label + ":"@), current_block: label, ..c }
}

/// The arithmetic instruction for an operator (the call-based ones aside).
pub open spec fn spec_arith_instr(op: OperatorToken) -> Seq<char> {
    match op {
        OperatorToken::PLUS => "fadd"@,
        OperatorToken::MINUS => "fsub"@,
        OperatorToken::MUL => "fmul"@,
        _ => "fdiv"@,
    }
}

fn arith_instr(op: OperatorToken) -> (r: &'static str)
    ensures
        r@ == spec_arith_instr(op),
{
    match op {
        OperatorToken::PLUS => "fadd",
        OperatorToken::MINUS => "fsub",
        OperatorToken::MUL => "fmul",
        _ => "fdiv",
    }
}

/// The float comparison condition for an operator.
pub open spec fn spec_cmp_cond(op: OperatorToken) -> Seq<char> {
    match op {
        OperatorToken::LT => "olt"@,
        OperatorToken::LTE => "ole"@,
        OperatorToken::GT => "ogt"@,
        _ => "oge"@,
    }
}

fn cmp_cond(op: OperatorToken) -> (r: &'static str)
    ensures
        r@ == spec_cmp_cond(op),
{
    match op {
        OperatorToken::LT => "olt",
        OperatorToken::LTE => "ole",
        OperatorToken::GT => "ogt",
        _ => "oge",
    }
}

/// Index of the first vtable slot with the given method name.
pub open spec fn slot_of(ms: Seq<MethodSlotV>, name: Seq<char>) -> Option<int> {
    if exists|i: int| 0 <= i < ms.len() && ms[i].name == name {
        Some(
            choose|i: int|
                0 <= i < ms.len() && ms[i].name == name && (forall|m: int|
                    0 <= m < i ==> ms[m].name != name),
        )
    } else {
        None
    }
}

/// Index of the first member with the given field name.
pub open spec fn member_pos(ms: Seq<(Seq<char>, Seq<char>)>, name: Seq<char>) -> Option<int> {
    if exists|i: int| 0 <= i < ms.len() && ms[i].0 == name {
        Some(
            choose|i: int|
                0 <= i < ms.len() && ms[i].0 == name && (forall|m: int|
                    0 <= m < i ==> ms[m].0 != name),
        )
    } else {
        None
    }
}

/// Lowering of one expression: the context afterwards and the result operand.
pub open spec fn e_expr(c: GCtx, e: &Expression) -> (GCtx, RcV)
    decreases e, 0int,
{
    match e {
        Expression::Number { value, .. } => (
            c,
            RcV { register: value@, llvm_type: "double"@, ast_type: "Number"@ },
        ),
        Expression::Boolean { value, .. } => (
            c,
            RcV {
                register: if *value {
                    "true"@
                } else {
                    "false"@
                },
                llvm_type: "i1"@,
                ast_type: "Boolean"@,
            },
        ),
        Expression::Str { value, .. } => {
            let (c1, name) = if c.string_lits.contains_key(value@) {
                (c, c.string_lits[value@])
            } else {
                (
                    GCtx {
                        next_str_lit: sat_inc(c.next_str_lit),
                        globals: c.globals.push(str_lit_global(c.next_str_lit, value@)),
                        string_lits: c.string_lits.insert(value@, str_lit_name(c.next_str_lit)),
                        ..c
                    },
                    str_lit_name(c.next_str_lit),
                )
            };
            (c1, RcV { register: name, llvm_type: "ptr"@, ast_type: "String"@ })
        },
        Expression::Identifier { value, .. } => match resolve_reg(c.vars, value@, c.scope_id as int) {
            Some(reg) => {
                let llvm = c.vars[reg];
                let lang = if c.langs.contains_key(reg) {
                    c.langs[reg]
                } else {
                    "Unknown"@
                };
                let (c1, t) = g_fresh(c, lang);
                let c2 = g_line(c1, t + " = load "@ + llvm + ", ptr "@ + reg);
                (c2, RcV { register: t, llvm_type: llvm, ast_type: lang })
            },
            None => (c, RcV { register: "undef"@, llvm_type: "ptr"@, ast_type: "Unknown"@ }),
        },
        Expression::BinaryOp { operator, left, right, .. } => {
            let (c1, l) = e_expr(c, left);
            let (c2, r) = e_expr(c1, right);
            e_binary(c2, *operator, l, r)
        },
        Expression::UnaryOp { operator, operand, .. } => {
            let (c1, x) = e_expr(c, operand);
            match operator {
                OperatorToken::NEG | OperatorToken::MINUS => {
                    let (c2, t) = g_fresh(c1, "Number"@);
                    let c3 = g_line(c2, t + " = fneg double "@ + x.register);
                    (c3, RcV { register: t, llvm_type: "double"@, ast_type: "Number"@ })
                },
                OperatorToken::NOT => {
                    let (c2, t) = g_fresh(c1, "Boolean"@);
                    let c3 = g_line(c2, t + " = xor i1 "@ + x.register + ", true"@);
                    (c3, RcV { register: t, llvm_type: "i1"@, ast_type: "Boolean"@ })
                },
                _ => (c1, default_rcv()),
            }
        },
        Expression::Print { expression, .. } => {
            let (c1, r) = e_expr(c, expression);
            if r.ast_type == "Number"@ {
                let c2 = g_line(
                    c1,
                    "call i32 (ptr, ...) @printf(ptr @.str.f, double "@ + r.register + ")"@,
                );
                (c2, r)
            } else if r.ast_type == "Boolean"@ {
                let (c2, t) = g_fresh(c1, "Number"@);
                let c3 = g_line(c2, t + " = zext i1 "@ + r.register + " to i32"@);
                let c4 = g_line(
                    c3,
                    "call i32 (ptr, ...) @printf(ptr @.str.d, i32 "@ + t + ")"@,
                );
                (c4, r)
            } else if r.ast_type == "String"@ {
                let c2 = g_line(
                    c1,
                    "call i32 (ptr, ...) @printf(ptr @.str.s, ptr "@ + r.register + ")"@,
                );
                (c2, r)
            } else {
                (c1, r)
            }
        },
        Expression::CodeBlock { expressions, .. } => {
            let c1 = GCtx {
                scope_id: sat_inc(c.scope_id),
                saved_vars: c.saved_vars.push((c.vars, c.langs)),
                ..c
            };
            let (c2, last) = e_block_from(c1, expressions, 0, default_rcv());
            let c3 = g_popped(c2);
            (c3, last)
        },
        Expression::LetIn { assignments, body, .. } => {
            let c1 = GCtx {
                scope_id: sat_inc(c.scope_id),
                saved_vars: c.saved_vars.push((c.vars, c.langs)),
                ..c
            };
            let c2 = e_bindings_from(c1, assignments, 0);
            let (c3, r) = e_expr(c2, body);
            let c4 = g_popped(c3);
            (c4, r)
        },
        Expression::DestructiveAssign { identifier, expression, .. } => match &**identifier {
            Expression::Identifier { value, .. } => {
                let (c1, r) = e_expr(c, expression);
                match resolve_reg(c1.vars, value@, c1.scope_id as int) {
                    Some(reg) => {
                        let c2 = g_line(
                            c1,
                            "store "@ + r.llvm_type + " "@ + r.register + ", ptr "@ + reg,
                        );
                        (c2, r)
                    },
                    None => (c1, r),
                }
            },
            Expression::TypePropAccess { object, member, .. } => {
                let (c1, ro) = e_expr(c, object);
                let (c2, rv) = e_expr(c1, expression);
                if c2.types.contains_key(ro.ast_type) {
                    match member_pos(c2.types[ro.ast_type].members, member@) {
                        Some(idx) => {
                            let (c3, t) = g_fresh(c2, "Number"@);
                            let c4 = g_line(
                                c3,
                                t + " = getelementptr %"@ + ro.ast_type + "_type, ptr "@
                                    + ro.register + ", i32 0, i32 "@ + dec_str(sat_plus(idx as nat, 2)),
                            );
                            let c5 = g_line(
                                c4,
                                "store "@ + rv.llvm_type + " "@ + rv.register + ", ptr "@ + t,
                            );
                            (c5, rv)
                        },
                        None => (c2, rv),
                    }
                } else {
                    (c2, rv)
                }
            },
            _ => {
                let (c1, r) = e_expr(c, expression);
                (c1, r)
            },
        },
        Expression::WhileLoop { condition, body, .. } => {
            let (c1, id) = g_id(c);
            let c2 = g_line(c1, "br label %cond"@ + dec_str(id));
            let c3 = g_block(c2, "cond"@ + dec_str(id));
            let (c4, rc) = e_expr(c3, condition);
            let c5 = g_line(
                c4,
                "br i1 "@ + rc.register + ", label %body"@ + dec_str(id) + ", label %exit"@
                    + dec_str(id),
            );
            let c6 = g_block(c5, "body"@ + dec_str(id));
            let (c7, rb) = e_expr(c6, body);
            let c8 = g_line(c7, "br label %cond"@ + dec_str(id));
            let c9 = g_block(c8, "exit"@ + dec_str(id));
            (c9, RcV { register: "undef"@, llvm_type: rb.llvm_type, ast_type: rb.ast_type })
        },
        Expression::ForLoop { variable, start, end, body, .. } => {
            let c1 = GCtx {
                scope_id: sat_inc(c.scope_id),
                saved_vars: c.saved_vars.push((c.vars, c.langs)),
                ..c
            };
            let (c2, rs) = e_expr(c1, start);
            let (c3, re) = e_expr(c2, end);
            let reg = reg_name(variable@, c3.scope_id as int);
            let c4 = g_line(c3, reg + " = alloca double"@);
            let c5 = g_line(c4, "store double "@ + rs.register + ", ptr "@ + reg);
            let c6 = GCtx {
                vars: c5.vars.insert(reg, "double"@),
                langs: c5.langs.insert(reg, "Number"@),
                ..c5
            };
            let (c7, id) = g_id(c6);
            let c8 = g_line(c7, "br label %cond"@ + dec_str(id));
            let c9 = g_block(c8, "cond"@ + dec_str(id));
            let (c10, t1) = g_fresh(c9, "Number"@);
            let c11 = g_line(c10, t1 + " = load double, ptr "@ + reg);
            let (c12, t2) = g_fresh(c11, "Boolean"@);
            let c13 = g_line(c12, t2 + " = fcmp olt double "@ + t1 + ", "@ + re.register);
            let c14 = g_line(
                c13,
                "br i1 "@ + t2 + ", label %body"@ + dec_str(id) + ", label %exit"@ + dec_str(id),
            );
            let c15 = g_block(c14, "body"@ + dec_str(id));
            let (c16, rb) = e_expr(c15, body);
            let (c17, t3) = g_fresh(c16, "Number"@);
            let c18 = g_line(c17, t3 + " = load double, ptr "@ + reg);
            let (c19, t4) = g_fresh(c18, "Number"@);
            let c20 = g_line(c19, t4 + " = fadd double "@ + t3 + ", 0x3FF0000000000000"@);
            let c21 = g_line(c20, "store double "@ + t4 + ", ptr "@ + reg);
            let c22 = g_line(c21, "br label %cond"@ + dec_str(id));
            let c23 = g_block(c22, "exit"@ + dec_str(id));
            let c24 = g_popped(c23);
            (c24, RcV { register: "undef"@, llvm_type: rb.llvm_type, ast_type: rb.ast_type })
        },
        Expression::IfElse { condition, if_expression, elifs, .. } => {
            let (c1, rc) = e_expr(c, condition);
            let (c2, id) = g_id(c1);
            let c3 = g_line(
                c2,
                "br i1 "@ + rc.register + ", label %then"@ + dec_str(id) + ", label %else"@
                    + dec_str(id),
            );
            let c4 = g_block(c3, "then"@ + dec_str(id));
            let (c5, r1) = e_expr(c4, if_expression);
            let lbl1 = c5.current_block;
            let c6 = g_line(c5, "br label %cont"@ + dec_str(id));
            let c7 = g_block(c6, "else"@ + dec_str(id));
            let (c8, r2) = e_branches(c7, elifs, 0);
            let lbl2 = c8.current_block;
            let c9 = g_line(c8, "br label %cont"@ + dec_str(id));
            let c10 = g_block(c9, "cont"@ + dec_str(id));
            let (c11, t) = g_fresh(c10, r1.ast_type);
            let c12 = g_line(
                c11,
                t + " = phi "@ + r1.llvm_type + " [ "@ + r1.register + ", %"@ + lbl1 + " ], [ "@
                    + r2.register + ", %"@ + lbl2 + " ]"@,
            );
            (c12, RcV { register: t, llvm_type: r1.llvm_type, ast_type: r1.ast_type })
        },
        Expression::FunctionCall { function_name, arguments, .. } => {
            let (c1, argstr) = e_call_args_from(c, arguments, 0, Seq::empty());
            if c1.rets.contains_key(function_name@) {
                let (llvmr, langr) = c1.rets[function_name@];
                let (c2, t) = g_fresh(c1, langr);
                let c3 = g_line(
                    c2,
                    t + " = call "@ + llvmr + " @"@ + function_name@ + "("@ + argstr + ")"@,
                );
                (c3, RcV { register: t, llvm_type: llvmr, ast_type: langr })
            } else {
                (c1, default_rcv())
            }
        },
        Expression::TypeInstance { ty_name, arguments, .. } => {
            let (c1, argstr) = e_call_args_from(c, arguments, 0, Seq::empty());
            let (c2, t) = g_fresh(c1, ty_name@);
            let c3 = g_line(c2, t + " = call ptr @"@ + ty_name@ + "_new("@ + argstr + ")"@);
            (c3, RcV { register: t, llvm_type: "ptr"@, ast_type: ty_name@ })
        },
        Expression::TypeFunctionAccess { object, member_name, member_args, .. } => {
            let (c1, ro) = e_expr(c, object);
            if c1.types.contains_key(ro.ast_type) {
                let layout = c1.types[ro.ast_type];
                match slot_of(layout.methods, member_name@) {
                    Some(slot) => {
                        let ret_lang = layout.methods[slot].return_type;
                        let (c2, tidp) = g_fresh(c1, "Number"@);
                        let c3 = g_line(
                            c2,
                            tidp + " = getelementptr %"@ + ro.ast_type
                                + "_type, ptr "@ + ro.register + ", i32 0, i32 0"@,
                        );
                        let (c4, tid) = g_fresh(c3, "Number"@);
                        let c5 = g_line(c4, tid + " = load i32, ptr "@ + tidp);
                        let (c6, m) = g_fresh(c5, "Number"@);
                        let c7 = g_line(
                            c6,
                            m + " = call ptr @get_vtable_method(i32 "@ + tid + ", i32 "@ + dec_str(
                                slot as nat,
                            ) + ")"@,
                        );
                        let (c8, aself) = g_fresh(c7, ro.ast_type);
                        let c9 = g_line(c8, aself + " = alloca ptr"@);
                        let c10 = g_line(c9, "store ptr "@ + ro.register + ", ptr "@ + aself);
                        let (c11, argstr) = e_call_args_from(
                            c10,
                            member_args,
                            0,
                            "ptr "@ + aself,
                        );
                        let (c12, t) = g_fresh(c11, ret_lang);
                        let c13 = g_line(
                            c12,
                            t + " = call "@ + spec_llvm(ret_lang) + " "@ + m + "("@ + argstr
                                + ")"@,
                        );
                        (c13, RcV {
                            register: t,
                            llvm_type: spec_llvm(ret_lang),
                            ast_type: ret_lang,
                        })
                    },
                    None => (c1, default_rcv()),
                }
            } else {
                (c1, default_rcv())
            }
        },
        Expression::TypePropAccess { object, member, .. } => {
            let (c1, ro) = e_expr(c, object);
            if c1.types.contains_key(ro.ast_type) {
                let layout = c1.types[ro.ast_type];
                match member_pos(layout.members, member@) {
                    Some(idx) => {
                        let lang = layout.members[idx].1;
                        let (c2, p) = g_fresh(c1, "Number"@);
                        let c3 = g_line(
                            c2,
                            p + " = getelementptr %"@ + ro.ast_type + "_type, ptr "@ + ro.register
                                + ", i32 0, i32 "@ + dec_str(sat_plus(idx as nat, 2)),
                        );
                        let (c4, t) = g_fresh(c3, lang);
                        let c5 = g_line(c4, t + " = load "@ + spec_llvm(lang) + ", ptr "@ + p);
                        (c5, RcV { register: t, llvm_type: spec_llvm(lang), ast_type: lang })
                    },
                    None => (c1, default_rcv()),
                }
            } else {
                (c1, default_rcv())
            }
        },
    }
}

/// The scope restoration `pop_scope` performs.
pub open spec fn g_popped(c: GCtx) -> GCtx {
    GCtx {
        vars: if c.saved_vars.len() > 0 {
            c.saved_vars.last().0
        } else {
            Map::empty()
        },
        langs: if c.saved_vars.len() > 0 {
            c.saved_vars.last().1
        } else {
            Map::empty()
        },
        saved_vars: if c.saved_vars.len() > 0 {
            c.saved_vars.drop_last()
        } else {
            c.saved_vars
        },
        ..c
    }
}

/// The typing and instruction choice for a binary operator.
pub open spec fn e_binary(c: GCtx, op: OperatorToken, l: RcV, r: RcV) -> (GCtx, RcV) {
    match op {
        OperatorToken::PLUS | OperatorToken::MINUS | OperatorToken::MUL | OperatorToken::DIV => {
            let (c1, t) = g_fresh(c, "Number"@);
            let c2 = g_line(
                c1,
                t + " = "@ + spec_arith_instr(op) + " double "@ + l.register + ", "@ + r.register,
            );
            (c2, RcV { register: t, llvm_type: "double"@, ast_type: "Number"@ })
        },
        OperatorToken::MOD => {
            let (c1, t) = g_fresh(c, "Number"@);
            let c2 = g_line(
                c1,
                t + " = call double @fmod(double "@ + l.register + ", double "@ + r.register
                    + ")"@,
            );
            (c2, RcV { register: t, llvm_type: "double"@, ast_type: "Number"@ })
        },
        OperatorToken::POW => {
            let (c1, t) = g_fresh(c, "Number"@);
            let c2 = g_line(
                c1,
                t + " = call double @pow(double "@ + l.register + ", double "@ + r.register + ")"@,
            );
            (c2, RcV { register: t, llvm_type: "double"@, ast_type: "Number"@ })
        },
        OperatorToken::LT | OperatorToken::LTE | OperatorToken::GT | OperatorToken::GTE => {
            let (c1, t) = g_fresh(c, "Boolean"@);
            let c2 = g_line(
                c1,
                t + " = fcmp "@ + spec_cmp_cond(op) + " double "@ + l.register + ", "@
                    + r.register,
            );
            (c2, RcV { register: t, llvm_type: "i1"@, ast_type: "Boolean"@ })
        },
        OperatorToken::EQ | OperatorToken::NEQ => {
            let cond = if op is EQ {
                "eq"@
            } else {
                "ne"@
            };
            let fcond = if op is EQ {
                "oeq"@
            } else {
                "one"@
            };
            if l.ast_type == "Number"@ {
                let (c1, t) = g_fresh(c, "Boolean"@);
                let c2 = g_line(
                    c1,
                    t + " = fcmp "@ + fcond + " double "@ + l.register + ", "@ + r.register,
                );
                (c2, RcV { register: t, llvm_type: "i1"@, ast_type: "Boolean"@ })
            } else if l.ast_type == "Boolean"@ {
                let (c1, t) = g_fresh(c, "Boolean"@);
                let c2 = g_line(
                    c1,
                    t + " = icmp "@ + cond + " i1 "@ + l.register + ", "@ + r.register,
                );
                (c2, RcV { register: t, llvm_type: "i1"@, ast_type: "Boolean"@ })
            } else if l.ast_type == "String"@ {
                let (c1, t1) = g_fresh(c, "Number"@);
                let c2 = g_line(
                    c1,
                    t1 + " = call i32 @strcmp(ptr "@ + l.register + ", ptr "@ + r.register + ")"@,
                );
                let (c3, t2) = g_fresh(c2, "Boolean"@);
                let c4 = g_line(c3, t2 + " = icmp "@ + cond + " i32 "@ + t1 + ", 0"@);
                (c4, RcV { register: t2, llvm_type: "i1"@, ast_type: "Boolean"@ })
            } else {
                (c, RcV { register: "undef"@, llvm_type: "i1"@, ast_type: "Boolean"@ })
            }
        },
        OperatorToken::CONCAT => {
            let (c1, t) = g_fresh(c, "String"@);
            let c2 = g_line(
                c1,
                t + " = call ptr @concat(ptr "@ + l.register + ", ptr "@ + r.register + ")"@,
            );
            (c2, RcV { register: t, llvm_type: "ptr"@, ast_type: "String"@ })
        },
        OperatorToken::AND => {
            let (c1, t) = g_fresh(c, "Boolean"@);
            let c2 = g_line(c1, t + " = and i1 "@ + l.register + ", "@ + r.register);
            (c2, RcV { register: t, llvm_type: "i1"@, ast_type: "Boolean"@ })
        },
        OperatorToken::OR => {
            let (c1, t) = g_fresh(c, "Boolean"@);
            let c2 = g_line(c1, t + " = or i1 "@ + l.register + ", "@ + r.register);
            (c2, RcV { register: t, llvm_type: "i1"@, ast_type: "Boolean"@ })
        },
        _ => (c, default_rcv()),
    }
}

/// A block's expressions in order; the value is the last one's.
pub open spec fn e_block_from(c: GCtx, es: &Vec<Expression>, i: int, last: RcV) -> (GCtx, RcV)
    decreases es, es.len() - i,
{
    if i < 0 || i >= es.len() {
        (c, last)
    } else {
        let (c1, r) = e_expr(c, &es[i]);
        e_block_from(c1, es, i + 1, r)
    }
}

/// `let` bindings: an `alloca` and a `store` per binding, then the register
/// recorded under its scope-decorated name.
pub open spec fn e_bindings_from(c: GCtx, bs: &Vec<Binding>, i: int) -> GCtx
    decreases bs, bs.len() - i,
{
    if i < 0 || i >= bs.len() {
        c
    } else {
        let (c1, r) = e_expr(c, &bs[i].expression);
        let reg = reg_name(bs[i].identifier@, c1.scope_id as int);
        let c2 = g_line(c1, reg + " = alloca "@ + r.llvm_type);
        let c3 = g_line(c2, "store "@ + r.llvm_type + " "@ + r.register + ", ptr "@ + reg);
        let c4 = GCtx {
            vars: c3.vars.insert(reg, r.llvm_type),
            langs: c3.langs.insert(reg, r.ast_type),
            ..c3
        };
        e_bindings_from(c4, bs, i + 1)
    }
}

/// Call arguments: each value is spilled to an `alloca` and passed as `ptr`.
pub open spec fn e_call_args_from(c: GCtx, args: &Vec<Expression>, i: int, acc: Seq<char>) -> (
    GCtx,
    Seq<char>,
)
    decreases args, args.len() - i,
{
    if i < 0 || i >= args.len() {
        (c, acc)
    } else {
        let (c1, r) = e_expr(c, &args[i]);
        let (c2, a) = g_fresh(c1, r.ast_type);
        let c3 = g_line(c2, a + " = alloca "@ + r.llvm_type);
        let c4 = g_line(c3, "store "@ + r.llvm_type + " "@ + r.register + ", ptr "@ + a);
        let acc2 = if acc.len() == 0 {
            "ptr "@ + a
        } else {
            acc + ", ptr "@ + a
        };
        e_call_args_from(c4, args, i + 1, acc2)
    }
}

/// The `elif`/`else` chain of an `if` expression, as nested branches.
pub open spec fn e_branches(c: GCtx, elifs: &Vec<ElifBranch>, i: int) -> (GCtx, RcV)
    decreases elifs, elifs.len() - i, 1int,
{
    if i < 0 || i >= elifs.len() {
        (c, default_rcv())
    } else {
        match &elifs[i].condition {
            None => e_expr(c, &elifs[i].body),
            Some(cond) => {
                let (c1, rc) = e_expr(c, cond);
                let (c2, id) = g_id(c1);
                let c3 = g_line(
                    c2,
                    "br i1 "@ + rc.register + ", label %then"@ + dec_str(id) + ", label %else"@
                        + dec_str(id),
                );
                let c4 = g_block(c3, "then"@ + dec_str(id));
                let (c5, r1) = e_expr(c4, &elifs[i].body);
                let lbl1 = c5.current_block;
                let c6 = g_line(c5, "br label %cont"@ + dec_str(id));
                let c7 = g_block(c6, "else"@ + dec_str(id));
                let (c8, r2) = e_branches(c7, elifs, i + 1);
                let lbl2 = c8.current_block;
                let c9 = g_line(c8, "br label %cont"@ + dec_str(id));
                let c10 = g_block(c9, "cont"@ + dec_str(id));
                let (c11, t) = g_fresh(c10, r1.ast_type);
                let c12 = g_line(
                    c11,
                    t + " = phi "@ + r1.llvm_type + " [ "@ + r1.register + ", %"@ + lbl1
                        + " ], [ "@ + r2.register + ", %"@ + lbl2 + " ]"@,
                );
                (c12, RcV { register: t, llvm_type: r1.llvm_type, ast_type: r1.ast_type })
            },
        }
    }
}

} // verus!

verus! {

/// Finds the vtable slot of a method by name.
pub fn slot_index(ms: &Vec<crate::codegen::context::MethodSlot>, name: &str) -> (r: Option<usize>)
    ensures
        match r {
            Some(j) => j < ms.len() && slot_of(ms.deep_view(), name@) == Some(j as int),
            None => slot_of(ms.deep_view(), name@) is None,
        },
{
    let n = ms.len();
    let mut j: usize = 0;
    while j < n
        invariant
            n == ms.len(),
            j <= n,
            forall|m: int| 0 <= m < j ==> ms.deep_view()[m].name != name@,
        decreases n - j,
    {
        if str_eq(ms[j].name.as_str(), name) {
            proof {
                let ghost s = ms.deep_view();
                assert(s[j as int].name == name@);
                let i = choose|i: int|
                    0 <= i < s.len() && s[i].name == name@ && (forall|m: int|
                        0 <= m < i ==> s[m].name != name@);
                if i < j {
                    assert(s[i].name != name@);
                } else if (j as int) < i {
                    assert(s[j as int].name != name@);
                }
            }
            return Some(j);
        }
        j += 1;
    }
    proof {
        let ghost s = ms.deep_view();
        if slot_of(s, name@) is Some {
            let i = choose|i: int| 0 <= i < s.len() && s[i].name == name@;
            assert(s[i].name != name@);
        }
    }
    None
}

/// Finds the struct slot of a field by name (before the two header slots).
pub fn member_index_of(ms: &Vec<(String, String)>, name: &str) -> (r: Option<usize>)
    ensures
        match r {
            Some(j) => j < ms.len() && member_pos(ms.deep_view(), name@) == Some(j as int),
            None => member_pos(ms.deep_view(), name@) is None,
        },
{
    let n = ms.len();
    let mut j: usize = 0;
    while j < n
        invariant
            n == ms.len(),
            j <= n,
            forall|m: int| 0 <= m < j ==> ms.deep_view()[m].0 != name@,
        decreases n - j,
    {
        if str_eq(ms[j].0.as_str(), name) {
            proof {
                let ghost s = ms.deep_view();
                assert(s[j as int].0 == name@);
                let i = choose|i: int|
                    0 <= i < s.len() && s[i].0 == name@ && (forall|m: int|
                        0 <= m < i ==> s[m].0 != name@);
                if i < j {
                    assert(s[i].0 != name@);
                } else if (j as int) < i {
                    assert(s[j as int].0 != name@);
                }
            }
            return Some(j);
        }
        j += 1;
    }
    proof {
        let ghost s = ms.deep_view();
        if member_pos(s, name@) is Some {
            let i = choose|i: int| 0 <= i < s.len() && s[i].0 == name@;
            assert(s[i].0 != name@);
        }
    }
    None
}

/// Lowers one expression, appending its lines to the context.
#[verifier::loop_isolation(false)]
#[verifier::rlimit(100)]
pub fn emit_expression(ctx: &mut CodegenCtx, e: &Expression) -> (r: ResultCodegen)
    requires
        old(ctx).wf(),
    ensures
        (final(ctx)@, r@) == e_expr(old(ctx)@, e),
        final(ctx).wf(),
    decreases e, 9int,
{
    match e {
        Expression::Number { value, .. } => ResultCodegen {
            register: clone_string(value),
            llvm_type: String::from_str("double"),
            ast_type: String::from_str("Number"),
        },
        Expression::Boolean { value, .. } => ResultCodegen {
            register: if *value {
                String::from_str("true")
            } else {
                String::from_str("false")
            },
            llvm_type: String::from_str("i1"),
            ast_type: String::from_str("Boolean"),
        },
        Expression::Str { value, .. } => {
            let name = ctx.add_string_literal(value.as_str());
            ResultCodegen {
                register: name,
                llvm_type: String::from_str("ptr"),
                ast_type: String::from_str("String"),
            }
        },
        Expression::Identifier { value, .. } => {
            match ctx.lookup_var(value.as_str()) {
                Some(info) => {
                    let lang = ctx.lookup_lang(info.temp_var.as_str());
                    let t = ctx.fresh_temp_var(clone_string(&lang));
                    ctx.append_line(
                        cat5(
                            t.as_str(),
                            " = load ",
                            info.var_type.as_str(),
                            ", ptr ",
                            info.temp_var.as_str(),
                        ),
                    );
                    ResultCodegen { register: t, llvm_type: info.var_type, ast_type: lang }
                },
                None => ResultCodegen {
                    register: String::from_str("undef"),
                    llvm_type: String::from_str("ptr"),
                    ast_type: String::from_str("Unknown"),
                },
            }
        },
        Expression::BinaryOp { operator, left, right, .. } => {
            let l = emit_expression(ctx, left);
            let r = emit_expression(ctx, right);
            emit_binary(ctx, *operator, l, r)
        },
        Expression::UnaryOp { operator, operand, .. } => {
            let x = emit_expression(ctx, operand);
            if matches!(operator, OperatorToken::NEG | OperatorToken::MINUS) {
                let t = ctx.fresh_temp_var(String::from_str("Number"));
                ctx.append_line(cat3(t.as_str(), " = fneg double ", x.register.as_str()));
                ResultCodegen {
                    register: t,
                    llvm_type: String::from_str("double"),
                    ast_type: String::from_str("Number"),
                }
            } else if matches!(operator, OperatorToken::NOT) {
                let t = ctx.fresh_temp_var(String::from_str("Boolean"));
                ctx.append_line(cat4(t.as_str(), " = xor i1 ", x.register.as_str(), ", true"));
                ResultCodegen {
                    register: t,
                    llvm_type: String::from_str("i1"),
                    ast_type: String::from_str("Boolean"),
                }
            } else {
                default_rc()
            }
        },
        Expression::Print { expression, .. } => {
            let r = emit_expression(ctx, expression);
            if str_eq(r.ast_type.as_str(), "Number") {
                ctx.append_line(
                    cat3(
                        "call i32 (ptr, ...) @printf(ptr @.str.f, double ",
                        r.register.as_str(),
                        ")",
                    ),
                );
                r
            } else if str_eq(r.ast_type.as_str(), "Boolean") {
                let t = ctx.fresh_temp_var(String::from_str("Number"));
                ctx.append_line(cat4(t.as_str(), " = zext i1 ", r.register.as_str(), " to i32"));
                ctx.append_line(
                    cat3("call i32 (ptr, ...) @printf(ptr @.str.d, i32 ", t.as_str(), ")"),
                );
                r
            } else if str_eq(r.ast_type.as_str(), "String") {
                ctx.append_line(
                    cat3(
                        "call i32 (ptr, ...) @printf(ptr @.str.s, ptr ",
                        r.register.as_str(),
                        ")",
                    ),
                );
                r
            } else {
                r
            }
        },
        Expression::CodeBlock { .. } => emit_block_arm(ctx, e),
        Expression::LetIn { .. } => emit_letin_arm(ctx, e),
        Expression::DestructiveAssign { .. } => emit_dassign_arm(ctx, e),
        Expression::WhileLoop { .. } => emit_while_arm(ctx, e),
        Expression::ForLoop { .. } => emit_for_arm(ctx, e),
        Expression::IfElse { .. } => emit_ifelse_arm(ctx, e),
        Expression::FunctionCall { .. } => emit_call_arm(ctx, e),
        Expression::TypeInstance { .. } => emit_new_arm(ctx, e),
        Expression::TypeFunctionAccess { .. } => emit_mcall_arm(ctx, e),
        Expression::TypePropAccess { .. } => emit_faccess_arm(ctx, e),
    }
}


/// Lowering of one `CodeBlock` node.
#[verifier::loop_isolation(false)]
#[verifier::rlimit(100)]
fn emit_block_arm(ctx: &mut CodegenCtx, e: &Expression) -> (r: ResultCodegen)
    requires
        old(ctx).wf(),
        (e matches Expression::CodeBlock { .. }),
    ensures
        (final(ctx)@, r@) == e_expr(old(ctx)@, e),
        final(ctx).wf(),
    decreases e, 8int,
{
    match e {
        Expression::CodeBlock { expressions, .. } => {
            ctx.push_scope();
            let ghost c1 = ctx@;
            let mut last = default_rc();
            let n = expressions.len();
            let mut j: usize = 0;
            while j < n
                invariant
                    n == expressions.len(),
                    j <= n,
                    ctx.wf(),
                    e_block_from(ctx@, expressions, j as int, last@) == e_block_from(
                        c1,
                        expressions,
                        0,
                        default_rcv(),
                    ),
                decreases n - j,
            {
                last = emit_expression(ctx, &expressions[j]);
                j += 1;
            }
            ctx.pop_scope();
            last
        },
        _ => {
            proof {
                assert(false);
            }
            default_rc()
        },
    }
}


/// Lowering of one `LetIn` node.
#[verifier::loop_isolation(false)]
#[verifier::rlimit(100)]
fn emit_letin_arm(ctx: &mut CodegenCtx, e: &Expression) -> (r: ResultCodegen)
    requires
        old(ctx).wf(),
        (e matches Expression::LetIn { .. }),
    ensures
        (final(ctx)@, r@) == e_expr(old(ctx)@, e),
        final(ctx).wf(),
    decreases e, 8int,
{
    match e {
        Expression::LetIn { assignments, body, .. } => {
            ctx.push_scope();
            let ghost c1 = ctx@;
            let n = assignments.len();
            let mut j: usize = 0;
            while j < n
                invariant
                    n == assignments.len(),
                    j <= n,
                    ctx.wf(),
                    e_bindings_from(ctx@, assignments, j as int) == e_bindings_from(
                        c1,
                        assignments,
                        0,
                    ),
                decreases n - j,
            {
                let r = emit_expression(ctx, &assignments[j].expression);
                let scope = ctx.current_scope_id();
                let reg = cat4(
                    "%",
                    assignments[j].identifier.as_str(),
                    ".",
                    fmt_usize(scope).as_str(),
                );
                ctx.append_line(cat3(reg.as_str(), " = alloca ", r.llvm_type.as_str()));
                ctx.append_line(
                    cat6(
                        "store ",
                        r.llvm_type.as_str(),
                        " ",
                        r.register.as_str(),
                        ", ptr ",
                        reg.as_str(),
                    ),
                );
                ctx.add_var(clone_string(&reg), r.llvm_type);
                ctx.add_var_lang(reg, r.ast_type);
                j += 1;
            }
            let r = emit_expression(ctx, body);
            ctx.pop_scope();
            r
        },
        _ => {
            proof {
                assert(false);
            }
            default_rc()
        },
    }
}


/// Lowering of one `DestructiveAssign` node.
#[verifier::loop_isolation(false)]
#[verifier::rlimit(100)]
fn emit_dassign_arm(ctx: &mut CodegenCtx, e: &Expression) -> (r: ResultCodegen)
    requires
        old(ctx).wf(),
        (e matches Expression::DestructiveAssign { .. }),
    ensures
        (final(ctx)@, r@) == e_expr(old(ctx)@, e),
        final(ctx).wf(),
    decreases e, 8int,
{
    match e {
        Expression::DestructiveAssign { identifier, expression, .. } => {
            match &**identifier {
                Expression::Identifier { value, .. } => {
                    let r = emit_expression(ctx, expression);
                    match ctx.lookup_var(value.as_str()) {
                        Some(info) => {
                            ctx.append_line(
                                cat6(
                                    "store ",
                                    r.llvm_type.as_str(),
                                    " ",
                                    r.register.as_str(),
                                    ", ptr ",
                                    info.temp_var.as_str(),
                                ),
                            );
                            r
                        },
                        None => r,
                    }
                },
                Expression::TypePropAccess { object, member, .. } => {
                    let ro = emit_expression(ctx, object);
                    let rv = emit_expression(ctx, expression);
                    match ctx.layout_of(ro.ast_type.as_str()) {
                        Some(layout) => {
                            match member_index_of(&layout.members, member.as_str()) {
                                Some(idx) => {
                                    let t = ctx.fresh_temp_var(String::from_str("Number"));
                                    ctx.append_line(
                                        cat7(
                                            t.as_str(),
                                            " = getelementptr %",
                                            ro.ast_type.as_str(),
                                            "_type, ptr ",
                                            ro.register.as_str(),
                                            ", i32 0, i32 ",
                                            fmt_usize(sat_add(idx, 2)).as_str(),
                                        ),
                                    );
                                    ctx.append_line(
                                        cat6(
                                            "store ",
                                            rv.llvm_type.as_str(),
                                            " ",
                                            rv.register.as_str(),
                                            ", ptr ",
                                            t.as_str(),
                                        ),
                                    );
                                    rv
                                },
                                None => rv,
                            }
                        },
                        None => rv,
                    }
                },
                _ => {
                    let r = emit_expression(ctx, expression);
                    r
                },
            }
        },
        _ => {
            proof {
                assert(false);
            }
            default_rc()
        },
    }
}


/// Lowering of one `WhileLoop` node.
#[verifier::loop_isolation(false)]
#[verifier::rlimit(100)]
fn emit_while_arm(ctx: &mut CodegenCtx, e: &Expression) -> (r: ResultCodegen)
    requires
        old(ctx).wf(),
        (e matches Expression::WhileLoop { .. }),
    ensures
        (final(ctx)@, r@) == e_expr(old(ctx)@, e),
        final(ctx).wf(),
    decreases e, 8int,
{
    match e {
        Expression::WhileLoop { condition, body, .. } => {
            let id = ctx.fresh_id();
            let ids = fmt_usize(id);
            ctx.append_line(cat2("br label %cond", ids.as_str()));
            ctx.start_block(cat2("cond", ids.as_str()));
            let rc = emit_expression(ctx, condition);
            ctx.append_line(
                cat6(
                    "br i1 ",
                    rc.register.as_str(),
                    ", label %body",
                    ids.as_str(),
                    ", label %exit",
                    ids.as_str(),
                ),
            );
            ctx.start_block(cat2("body", ids.as_str()));
            let rb = emit_expression(ctx, body);
            ctx.append_line(cat2("br label %cond", ids.as_str()));
            ctx.start_block(cat2("exit", ids.as_str()));
            ResultCodegen {
                register: String::from_str("undef"),
                llvm_type: rb.llvm_type,
                ast_type: rb.ast_type,
            }
        },
        _ => {
            proof {
                assert(false);
            }
            default_rc()
        },
    }
}


/// Lowering of one `ForLoop` node.
#[verifier::loop_isolation(false)]
#[verifier::rlimit(100)]
fn emit_for_arm(ctx: &mut CodegenCtx, e: &Expression) -> (r: ResultCodegen)
    requires
        old(ctx).wf(),
        (e matches Expression::ForLoop { .. }),
    ensures
        (final(ctx)@, r@) == e_expr(old(ctx)@, e),
        final(ctx).wf(),
    decreases e, 8int,
{
    match e {
        Expression::ForLoop { variable, start, end, body, .. } => {
            ctx.push_scope();
            let rs = emit_expression(ctx, start);
            let re = emit_expression(ctx, end);
            let scope = ctx.current_scope_id();
            let reg = cat4("%", variable.as_str(), ".", fmt_usize(scope).as_str());
            ctx.append_line(cat2(reg.as_str(), " = alloca double"));
            ctx.append_line(
                cat4("store double ", rs.register.as_str(), ", ptr ", reg.as_str()),
            );
            ctx.add_var(clone_string(&reg), String::from_str("double"));
            ctx.add_var_lang(clone_string(&reg), String::from_str("Number"));
            let id = ctx.fresh_id();
            let ids = fmt_usize(id);
            ctx.append_line(cat2("br label %cond", ids.as_str()));
            ctx.start_block(cat2("cond", ids.as_str()));
            let t1 = ctx.fresh_temp_var(String::from_str("Number"));
            ctx.append_line(cat3(t1.as_str(), " = load double, ptr ", reg.as_str()));
            let t2 = ctx.fresh_temp_var(String::from_str("Boolean"));
            ctx.append_line(
                cat5(
                    t2.as_str(),
                    " = fcmp olt double ",
                    t1.as_str(),
                    ", ",
                    re.register.as_str(),
                ),
            );
            ctx.append_line(
                cat6(
                    "br i1 ",
                    t2.as_str(),
                    ", label %body",
                    ids.as_str(),
                    ", label %exit",
                    ids.as_str(),
                ),
            );
            ctx.start_block(cat2("body", ids.as_str()));
            let rb = emit_expression(ctx, body);
            let t3 = ctx.fresh_temp_var(String::from_str("Number"));
            ctx.append_line(cat3(t3.as_str(), " = load double, ptr ", reg.as_str()));
            let t4 = ctx.fresh_temp_var(String::from_str("Number"));
            ctx.append_line(
                cat4(t4.as_str(), " = fadd double ", t3.as_str(), ", 0x3FF0000000000000"),
            );
            ctx.append_line(
                cat4("store double ", t4.as_str(), ", ptr ", reg.as_str()),
            );
            ctx.append_line(cat2("br label %cond", ids.as_str()));
            ctx.start_block(cat2("exit", ids.as_str()));
            ctx.pop_scope();
            ResultCodegen {
                register: String::from_str("undef"),
                llvm_type: rb.llvm_type,
                ast_type: rb.ast_type,
            }
        },
        _ => {
            proof {
                assert(false);
            }
            default_rc()
        },
    }
}


/// Lowering of one `IfElse` node.
#[verifier::loop_isolation(false)]
#[verifier::rlimit(100)]
fn emit_ifelse_arm(ctx: &mut CodegenCtx, e: &Expression) -> (r: ResultCodegen)
    requires
        old(ctx).wf(),
        (e matches Expression::IfElse { .. }),
    ensures
        (final(ctx)@, r@) == e_expr(old(ctx)@, e),
        final(ctx).wf(),
    decreases e, 8int,
{
    match e {
        Expression::IfElse { condition, if_expression, elifs, .. } => {
            let rc = emit_expression(ctx, condition);
            let id = ctx.fresh_id();
            let ids = fmt_usize(id);
            ctx.append_line(
                cat6(
                    "br i1 ",
                    rc.register.as_str(),
                    ", label %then",
                    ids.as_str(),
                    ", label %else",
                    ids.as_str(),
                ),
            );
            ctx.start_block(cat2("then", ids.as_str()));
            let r1 = emit_expression(ctx, if_expression);
            let lbl1 = ctx.block_label();
            ctx.append_line(cat2("br label %cont", ids.as_str()));
            ctx.start_block(cat2("else", ids.as_str()));
            let r2 = emit_branches(ctx, elifs, 0);
            let lbl2 = ctx.block_label();
            ctx.append_line(cat2("br label %cont", ids.as_str()));
            ctx.start_block(cat2("cont", ids.as_str()));
            let t = ctx.fresh_temp_var(clone_string(&r1.ast_type));
            ctx.append_line(
                cat9(
                    cat4(t.as_str(), " = phi ", r1.llvm_type.as_str(), " [ ").as_str(),
                    r1.register.as_str(),
                    ", %",
                    lbl1.as_str(),
                    " ], [ ",
                    r2.register.as_str(),
                    ", %",
                    lbl2.as_str(),
                    " ]",
                ),
            );
            ResultCodegen { register: t, llvm_type: r1.llvm_type, ast_type: r1.ast_type }
        },
        _ => {
            proof {
                assert(false);
            }
            default_rc()
        },
    }
}


/// Lowering of one `FunctionCall` node.
#[verifier::loop_isolation(false)]
#[verifier::rlimit(100)]
fn emit_call_arm(ctx: &mut CodegenCtx, e: &Expression) -> (r: ResultCodegen)
    requires
        old(ctx).wf(),
        (e matches Expression::FunctionCall { .. }),
    ensures
        (final(ctx)@, r@) == e_expr(old(ctx)@, e),
        final(ctx).wf(),
    decreases e, 8int,
{
    match e {
        Expression::FunctionCall { function_name, arguments, .. } => {
            let argstr = emit_call_args(ctx, arguments, String::new());
            match ctx.func_ret_of(function_name.as_str()) {
                Some(info) => {
                    let t = ctx.fresh_temp_var(clone_string(&info.lang_type));
                    ctx.append_line(
                        cat8(
                            t.as_str(),
                            " = call ",
                            info.llvm_type.as_str(),
                            " @",
                            function_name.as_str(),
                            "(",
                            argstr.as_str(),
                            ")",
                        ),
                    );
                    ResultCodegen {
                        register: t,
                        llvm_type: info.llvm_type,
                        ast_type: info.lang_type,
                    }
                },
                None => default_rc(),
            }
        },
        _ => {
            proof {
                assert(false);
            }
            default_rc()
        },
    }
}


/// Lowering of one `TypeInstance` node.
#[verifier::loop_isolation(false)]
#[verifier::rlimit(100)]
fn emit_new_arm(ctx: &mut CodegenCtx, e: &Expression) -> (r: ResultCodegen)
    requires
        old(ctx).wf(),
        (e matches Expression::TypeInstance { .. }),
    ensures
        (final(ctx)@, r@) == e_expr(old(ctx)@, e),
        final(ctx).wf(),
    decreases e, 8int,
{
    match e {
        Expression::TypeInstance { ty_name, arguments, .. } => {
            let argstr = emit_call_args(ctx, arguments, String::new());
            let t = ctx.fresh_temp_var(clone_string(ty_name));
            ctx.append_line(
                cat6(
                    t.as_str(),
                    " = call ptr @",
                    ty_name.as_str(),
                    "_new(",
                    argstr.as_str(),
                    ")",
                ),
            );
            ResultCodegen {
                register: t,
                llvm_type: String::from_str("ptr"),
                ast_type: clone_string(ty_name),
            }
        },
        _ => {
            proof {
                assert(false);
            }
            default_rc()
        },
    }
}


/// Lowering of one `TypeFunctionAccess` node.
#[verifier::loop_isolation(false)]
#[verifier::rlimit(100)]
fn emit_mcall_arm(ctx: &mut CodegenCtx, e: &Expression) -> (r: ResultCodegen)
    requires
        old(ctx).wf(),
        (e matches Expression::TypeFunctionAccess { .. }),
    ensures
        (final(ctx)@, r@) == e_expr(old(ctx)@, e),
        final(ctx).wf(),
    decreases e, 8int,
{
    match e {
        Expression::TypeFunctionAccess { object, member_name, member_args, .. } => {
            let ro = emit_expression(ctx, object);
            match ctx.layout_of(ro.ast_type.as_str()) {
                Some(layout) => {
                    match slot_index(&layout.methods, member_name.as_str()) {
                        Some(slot) => {
                            let ret_lang = clone_string(&layout.methods[slot].return_type);
                            let tidp = ctx.fresh_temp_var(String::from_str("Number"));
                            ctx.append_line(
                                cat6(
                                    tidp.as_str(),
                                    " = getelementptr %",
                                    ro.ast_type.as_str(),
                                    "_type, ptr ",
                                    ro.register.as_str(),
                                    ", i32 0, i32 0",
                                ),
                            );
                            let tid = ctx.fresh_temp_var(String::from_str("Number"));
                            ctx.append_line(
                                cat3(tid.as_str(), " = load i32, ptr ", tidp.as_str()),
                            );
                            let m = ctx.fresh_temp_var(String::from_str("Number"));
                            ctx.append_line(
                                cat6(
                                    m.as_str(),
                                    " = call ptr @get_vtable_method(i32 ",
                                    tid.as_str(),
                                    ", i32 ",
                                    fmt_usize(slot).as_str(),
                                    ")",
                                ),
                            );
                            let aself = ctx.fresh_temp_var(clone_string(&ro.ast_type));
                            ctx.append_line(cat2(aself.as_str(), " = alloca ptr"));
                            ctx.append_line(
                                cat4(
                                    "store ptr ",
                                    ro.register.as_str(),
                                    ", ptr ",
                                    aself.as_str(),
                                ),
                            );
                            let argstr = emit_call_args(
                                ctx,
                                member_args,
                                cat2("ptr ", aself.as_str()),
                            );
                            let retllvm = to_llvm_type(ret_lang.as_str());
                            let t = ctx.fresh_temp_var(clone_string(&ret_lang));
                            ctx.append_line(
                                cat8(
                                    t.as_str(),
                                    " = call ",
                                    retllvm,
                                    " ",
                                    m.as_str(),
                                    "(",
                                    argstr.as_str(),
                                    ")",
                                ),
                            );
                            ResultCodegen {
                                register: t,
                                llvm_type: String::from_str(retllvm),
                                ast_type: ret_lang,
                            }
                        },
                        None => default_rc(),
                    }
                },
                None => default_rc(),
            }
        },
        _ => {
            proof {
                assert(false);
            }
            default_rc()
        },
    }
}


/// Lowering of one `TypePropAccess` node.
#[verifier::loop_isolation(false)]
#[verifier::rlimit(100)]
fn emit_faccess_arm(ctx: &mut CodegenCtx, e: &Expression) -> (r: ResultCodegen)
    requires
        old(ctx).wf(),
        (e matches Expression::TypePropAccess { .. }),
    ensures
        (final(ctx)@, r@) == e_expr(old(ctx)@, e),
        final(ctx).wf(),
    decreases e, 8int,
{
    match e {
        Expression::TypePropAccess { object, member, .. } => {
            let ro = emit_expression(ctx, object);
            match ctx.layout_of(ro.ast_type.as_str()) {
                Some(layout) => {
                    match member_index_of(&layout.members, member.as_str()) {
                        Some(idx) => {
                            let lang = clone_string(&layout.members[idx].1);
                            let p = ctx.fresh_temp_var(String::from_str("Number"));
                            ctx.append_line(
                                cat7(
                                    p.as_str(),
                                    " = getelementptr %",
                                    ro.ast_type.as_str(),
                                    "_type, ptr ",
                                    ro.register.as_str(),
                                    ", i32 0, i32 ",
                                    fmt_usize(sat_add(idx, 2)).as_str(),
                                ),
                            );
                            let llvm = to_llvm_type(lang.as_str());
                            let t = ctx.fresh_temp_var(clone_string(&lang));
                            ctx.append_line(
                                cat5(t.as_str(), " = load ", llvm, ", ptr ", p.as_str()),
                            );
                            ResultCodegen {
                                register: t,
                                llvm_type: String::from_str(llvm),
                                ast_type: lang,
                            }
                        },
                        None => default_rc(),
                    }
                },
                None => default_rc(),
            }
        },
        _ => {
            proof {
                assert(false);
            }
            default_rc()
        },
    }
}

/// Lowers one binary operation over already-lowered operands.
#[verifier::rlimit(60)]
fn emit_binary(
    ctx: &mut CodegenCtx,
    op: OperatorToken,
    l: ResultCodegen,
    r: ResultCodegen,
) -> (res: ResultCodegen)
    requires
        old(ctx).wf(),
    ensures
        (final(ctx)@, res@) == e_binary(old(ctx)@, op, l@, r@),
        final(ctx).wf(),
{
    if matches!(
        op,
        OperatorToken::PLUS | OperatorToken::MINUS | OperatorToken::MUL | OperatorToken::DIV
    ) {
        let t = ctx.fresh_temp_var(String::from_str("Number"));
        ctx.append_line(
            cat7(
                t.as_str(),
                " = ",
                arith_instr(op),
                " double ",
                l.register.as_str(),
                ", ",
                r.register.as_str(),
            ),
        );
        ResultCodegen {
            register: t,
            llvm_type: String::from_str("double"),
            ast_type: String::from_str("Number"),
        }
    } else if matches!(op, OperatorToken::MOD) {
        let t = ctx.fresh_temp_var(String::from_str("Number"));
        ctx.append_line(
            cat6(
                t.as_str(),
                " = call double @fmod(double ",
                l.register.as_str(),
                ", double ",
                r.register.as_str(),
                ")",
            ),
        );
        ResultCodegen {
            register: t,
            llvm_type: String::from_str("double"),
            ast_type: String::from_str("Number"),
        }
    } else if matches!(op, OperatorToken::POW) {
        let t = ctx.fresh_temp_var(String::from_str("Number"));
        ctx.append_line(
            cat6(
                t.as_str(),
                " = call double @pow(double ",
                l.register.as_str(),
                ", double ",
                r.register.as_str(),
                ")",
            ),
        );
        ResultCodegen {
            register: t,
            llvm_type: String::from_str("double"),
            ast_type: String::from_str("Number"),
        }
    } else if matches!(
        op,
        OperatorToken::LT | OperatorToken::LTE | OperatorToken::GT | OperatorToken::GTE
    ) {
        let t = ctx.fresh_temp_var(String::from_str("Boolean"));
        ctx.append_line(
            cat7(
                t.as_str(),
                " = fcmp ",
                cmp_cond(op),
                " double ",
                l.register.as_str(),
                ", ",
                r.register.as_str(),
            ),
        );
        ResultCodegen {
            register: t,
            llvm_type: String::from_str("i1"),
            ast_type: String::from_str("Boolean"),
        }
    } else if matches!(op, OperatorToken::EQ | OperatorToken::NEQ) {
        let cond = if matches!(op, OperatorToken::EQ) {
            "eq"
        } else {
            "ne"
        };
        let fcond = if matches!(op, OperatorToken::EQ) {
            "oeq"
        } else {
            "one"
        };
        if str_eq(l.ast_type.as_str(), "Number") {
            let t = ctx.fresh_temp_var(String::from_str("Boolean"));
            ctx.append_line(
                cat7(
                    t.as_str(),
                    " = fcmp ",
                    fcond,
                    " double ",
                    l.register.as_str(),
                    ", ",
                    r.register.as_str(),
                ),
            );
            ResultCodegen {
                register: t,
                llvm_type: String::from_str("i1"),
                ast_type: String::from_str("Boolean"),
            }
        } else if str_eq(l.ast_type.as_str(), "Boolean") {
            let t = ctx.fresh_temp_var(String::from_str("Boolean"));
            ctx.append_line(
                cat7(
                    t.as_str(),
                    " = icmp ",
                    cond,
                    " i1 ",
                    l.register.as_str(),
                    ", ",
                    r.register.as_str(),
                ),
            );
            ResultCodegen {
                register: t,
                llvm_type: String::from_str("i1"),
                ast_type: String::from_str("Boolean"),
            }
        } else if str_eq(l.ast_type.as_str(), "String") {
            let t1 = ctx.fresh_temp_var(String::from_str("Number"));
            ctx.append_line(
                cat6(
                    t1.as_str(),
                    " = call i32 @strcmp(ptr ",
                    l.register.as_str(),
                    ", ptr ",
                    r.register.as_str(),
                    ")",
                ),
            );
            let t2 = ctx.fresh_temp_var(String::from_str("Boolean"));
            ctx.append_line(
                cat6(t2.as_str(), " = icmp ", cond, " i32 ", t1.as_str(), ", 0"),
            );
            ResultCodegen {
                register: t2,
                llvm_type: String::from_str("i1"),
                ast_type: String::from_str("Boolean"),
            }
        } else {
            ResultCodegen {
                register: String::from_str("undef"),
                llvm_type: String::from_str("i1"),
                ast_type: String::from_str("Boolean"),
            }
        }
    } else if matches!(op, OperatorToken::CONCAT) {
        let t = ctx.fresh_temp_var(String::from_str("String"));
        ctx.append_line(
            cat6(
                t.as_str(),
                " = call ptr @concat(ptr ",
                l.register.as_str(),
                ", ptr ",
                r.register.as_str(),
                ")",
            ),
        );
        ResultCodegen {
            register: t,
            llvm_type: String::from_str("ptr"),
            ast_type: String::from_str("String"),
        }
    } else if matches!(op, OperatorToken::AND) {
        let t = ctx.fresh_temp_var(String::from_str("Boolean"));
        ctx.append_line(
            cat5(t.as_str(), " = and i1 ", l.register.as_str(), ", ", r.register.as_str()),
        );
        ResultCodegen {
            register: t,
            llvm_type: String::from_str("i1"),
            ast_type: String::from_str("Boolean"),
        }
    } else if matches!(op, OperatorToken::OR) {
        let t = ctx.fresh_temp_var(String::from_str("Boolean"));
        ctx.append_line(
            cat5(t.as_str(), " = or i1 ", l.register.as_str(), ", ", r.register.as_str()),
        );
        ResultCodegen {
            register: t,
            llvm_type: String::from_str("i1"),
            ast_type: String::from_str("Boolean"),
        }
    } else {
        default_rc()
    }
}

/// Lowers call arguments: each spilled to an `alloca` and passed as `ptr`.
#[verifier::loop_isolation(false)]
pub fn emit_call_args(ctx: &mut CodegenCtx, args: &Vec<Expression>, first: String) -> (r: String)
    requires
        old(ctx).wf(),
    ensures
        (final(ctx)@, r@) == e_call_args_from(old(ctx)@, args, 0, first@),
        final(ctx).wf(),
    decreases args, 10int,
{
    let mut acc = first;
    let ghost c0 = ctx@;
    let n = args.len();
    let mut j: usize = 0;
    while j < n
        invariant
            n == args.len(),
            j <= n,
            ctx.wf(),
            e_call_args_from(ctx@, args, j as int, acc@) == e_call_args_from(
                c0,
                args,
                0,
                first@,
            ),
        decreases n - j,
    {
        let r = emit_expression(ctx, &args[j]);
        let a = ctx.fresh_temp_var(clone_string(&r.ast_type));
        ctx.append_line(cat3(a.as_str(), " = alloca ", r.llvm_type.as_str()));
        ctx.append_line(
            cat6(
                "store ",
                r.llvm_type.as_str(),
                " ",
                r.register.as_str(),
                ", ptr ",
                a.as_str(),
            ),
        );
        if acc.unicode_len() == 0 {
            acc = cat2("ptr ", a.as_str());
        } else {
            acc.append(", ptr ");
            acc.append(a.as_str());
        }
        j += 1;
    }
    acc
}

/// Lowers the `elif`/`else` chain of an `if` expression.
#[verifier::loop_isolation(false)]
#[verifier::rlimit(60)]
fn emit_branches(ctx: &mut CodegenCtx, elifs: &Vec<ElifBranch>, i: usize) -> (r: ResultCodegen)
    requires
        old(ctx).wf(),
        i <= elifs.len(),
    ensures
        (final(ctx)@, r@) == e_branches(old(ctx)@, elifs, i as int),
        final(ctx).wf(),
    decreases elifs, elifs.len() - i, 1int,
{
    if i >= elifs.len() {
        default_rc()
    } else {
        match &elifs[i].condition {
            None => emit_expression(ctx, &elifs[i].body),
            Some(cond) => {
                let rc = emit_expression(ctx, cond);
                let id = ctx.fresh_id();
                let ids = fmt_usize(id);
                ctx.append_line(
                    cat6(
                        "br i1 ",
                        rc.register.as_str(),
                        ", label %then",
                        ids.as_str(),
                        ", label %else",
                        ids.as_str(),
                    ),
                );
                ctx.start_block(cat2("then", ids.as_str()));
                let r1 = emit_expression(ctx, &elifs[i].body);
                let lbl1 = ctx.block_label();
                ctx.append_line(cat2("br label %cont", ids.as_str()));
                ctx.start_block(cat2("else", ids.as_str()));
                let r2 = emit_branches(ctx, elifs, i + 1);
                let lbl2 = ctx.block_label();
                ctx.append_line(cat2("br label %cont", ids.as_str()));
                ctx.start_block(cat2("cont", ids.as_str()));
                let t = ctx.fresh_temp_var(clone_string(&r1.ast_type));
                ctx.append_line(
                    cat9(
                        cat4(t.as_str(), " = phi ", r1.llvm_type.as_str(), " [ ").as_str(),
                        r1.register.as_str(),
                        ", %",
                        lbl1.as_str(),
                        " ], [ ",
                        r2.register.as_str(),
                        ", %",
                        lbl2.as_str(),
                        " ]",
                    ),
                );
                ResultCodegen { register: t, llvm_type: r1.llvm_type, ast_type: r1.ast_type }
            },
        }
    }
}

} // verus!
