//! The module-level driver: assembles the whole textual module from the
//! fixed prelude, the type tables and definitions, the lowered top-level
//! expressions, the string-literal globals, and the `@main` wrapper.

use vstd::prelude::*;
use crate::ast::{Program, Statement, TypeDef, TypeMember};
use crate::codegen::context::{g_line, initial_gctx, CodegenCtx, GCtx, RetInfo};
use crate::codegen::types_helper::{dispatch_lines, init_tables_from, m_function, m_method, t_ctor};
use crate::codegen::utils::{declare_global, generate_runtime_declarations, global_decl_lines,
    runtime_decl_lines, spec_llvm, to_llvm_type};
use crate::codegen::visitor::e_expr;
use crate::strmap::clone_string;
use crate::text::{cat2, cat3, cat5, dec_str, fmt_usize};

verus! {

broadcast use vstd::std_specs::vec::axiom_vec_index_decreases;

/// The IR generator: an emission context and the finished module text.
pub struct Generator {
    pub ctx: CodegenCtx,
    pub code: String,
}

impl Generator {
    pub open spec fn wf(&self) -> bool {
        self.ctx.wf()
    }

    /// A fresh generator with an empty module.
    pub fn new() -> (r: Self)
        ensures
            r.ctx@ == initial_gctx(),
            r.code@ == Seq::<char>::empty(),
            r.wf(),
    {
        Generator { ctx: CodegenCtx::new(), code: String::new() }
    }
}

/// The emitted return types of every declared function.
pub open spec fn set_rets_from(c: GCtx, p: &Program, i: int) -> GCtx
    decreases p.statements.len() - i,
{
    if i < 0 || i >= p.statements.len() {
        c
    } else {
        let c2 = match &p.statements[i] {
            Statement::StatementFunctionDef(f) => GCtx {
                rets: c.rets.insert(f.name@, (spec_llvm(f.return_type@), f.return_type@)),
                ..c
            },
            _ => c,
        };
        set_rets_from(c2, p, i + 1)
    }
}

/// The methods of one type definition, emitted in order.
pub open spec fn defs_members_from(c: GCtx, td: &TypeDef, i: int) -> GCtx
    decreases td, 4int, td.members.len() - i,
{
    if i < 0 || i >= td.members.len() {
        c
    } else {
        let c2 = match &td.members[i] {
            TypeMember::Method(m) => m_method(c, td.identifier@, m),
            TypeMember::Property(_) => c,
        };
        defs_members_from(c2, td, i + 1)
    }
}

/// Constructors, methods, and functions, in statement order.
pub open spec fn defs_stmts_from(c: GCtx, p: &Program, i: int) -> GCtx
    decreases p.statements.len() - i,
{
    if i < 0 || i >= p.statements.len() {
        c
    } else {
        let c2 = match &p.statements[i] {
            Statement::StatementTypeDef(td) => defs_members_from(t_ctor(c, td), td, 0),
            Statement::StatementFunctionDef(f) => m_function(c, f),
            _ => c,
        };
        defs_stmts_from(c2, p, i + 1)
    }
}

/// The references inside the super-vtable: `ptr @T_vtable` for each type.
pub open spec fn vt_refs(vs: Seq<Seq<char>>, i: int) -> Seq<char>
    decreases vs.len() - i,
{
    if i < 0 || i >= vs.len() {
        Seq::empty()
    } else {
        let entry = if i == 0 {
            "ptr "@ + vs[i]
        } else {
            ", ptr "@ + vs[i]
        };
        entry + vt_refs(vs, i + 1)
    }
}

/// The definition section: the vtable type, the super-vtable, the dispatch
/// helper, then every constructor, method, and function.
pub open spec fn g_defs(c: GCtx, p: &Program) -> GCtx {
    let ca = g_line(c, "%VTableType = type [ "@ + dec_str(c.max_vtable) + " x ptr ]"@);
    let cb = g_line(
        ca,
        "@super_vtable = global ["@ + dec_str(c.count_types) + " x ptr] ["@ + vt_refs(
            c.vtables,
            0,
        ) + "]"@,
    );
    let cc = GCtx {
        lines: cb.lines + dispatch_lines(cb.count_types, cb.max_vtable),
        ..cb
    };
    defs_stmts_from(cc, p, 0)
}

/// The lowered top-level expressions, in order.
pub open spec fn mains_from(c: GCtx, p: &Program, i: int) -> GCtx
    decreases p.statements.len() - i,
{
    if i < 0 || i >= p.statements.len() {
        c
    } else {
        let c2 = match &p.statements[i] {
            Statement::StatementExpression(e) => e_expr(c, e).0,
            _ => c,
        };
        mains_from(c2, p, i + 1)
    }
}

/// Each line two spaces deeper, for the body of `@main`.
pub open spec fn indent_lines(ls: Seq<Seq<char>>, i: int) -> Seq<Seq<char>>
    decreases i,
{
    if i <= 0 || i > ls.len() {
        Seq::empty()
    } else {
        indent_lines(ls, i - 1).push("  "@ + ls[i - 1])
    }
}

/// The `@main` wrapper: string constants, the definition, the indented body,
/// and the zero exit.
pub open spec fn wrapper_lines(body: Seq<Seq<char>>, consts: Seq<Seq<char>>) -> Seq<Seq<char>> {
    consts + seq!["define i32 @main() {"@, "entry:"@] + indent_lines(body, body.len() as int)
        + seq!["  ret i32 0"@, "}"@]
}

/// Lines joined with newlines.
pub open spec fn join_lines(ls: Seq<Seq<char>>, i: int) -> Seq<char>
    decreases i,
{
    if i <= 0 || i > ls.len() {
        Seq::empty()
    } else if i == 1 {
        ls[0]
    } else {
        join_lines(ls, i - 1) + "\n"@ + ls[i - 1]
    }
}

/// The whole module emitted for a program, from a given starting context.
pub open spec fn g_module(c0: GCtx, p: &Program) -> (GCtx, Seq<Seq<char>>) {
    let pre = seq![" "@] + global_decl_lines() + runtime_decl_lines() + seq![""@];
    let c1 = set_rets_from(c0, p, 0);
    let c2 = init_tables_from(c1, p, 0);
    let c3 = g_defs(c2, p);
    let defs = c3.lines;
    let c4 = GCtx { lines: Seq::empty(), ..c3 };
    let c5 = mains_from(c4, p, 0);
    let body = c5.lines;
    let c6 = GCtx { lines: Seq::empty(), ..c5 };
    let globals = c6.globals;
    let c7 = GCtx { globals: Seq::empty(), ..c6 };
    let consts = c7.string_consts;
    let c8 = GCtx { string_consts: Seq::empty(), ..c7 };
    (c8, pre + defs + globals + wrapper_lines(body, consts))
}

/// The finished module text for a program.
pub open spec fn spec_module_text(c0: GCtx, p: &Program) -> Seq<char> {
    let (_, ls) = g_module(c0, p);
    join_lines(ls, ls.len() as int)
}

impl Generator {
    /// Emits the definition section and takes its lines.
    #[verifier::loop_isolation(false)]
    #[verifier::rlimit(100)]
    pub fn get_definitions(&mut self, program: &Program) -> (r: Vec<String>)
        requires
            old(self).wf(),
        ensures
            r.deep_view() == g_defs(old(self).ctx@, program).lines,
            final(self).ctx@ == (GCtx { lines: Seq::empty(), ..g_defs(old(self).ctx@, program) }),
            final(self).code@ == old(self).code@,
            final(self).wf(),
    {
        let maxs = fmt_usize(self.ctx.max_vtable_width());
        self.ctx.append_line(cat3("%VTableType = type [ ", maxs.as_str(), " x ptr ]"));
        let counts = fmt_usize(self.ctx.types_count());
        let vts = self.ctx.vtable_names();
        let ghost vtv = vts.deep_view();
        let mut refs = String::new();
        let vn = vts.len();
        let mut j: usize = 0;
        while j < vn
            invariant
                vn == vts@.len(),
                j <= vn,
                vts.deep_view() == vtv,
                refs@ + vt_refs(vtv, j as int) == vt_refs(vtv, 0),
            decreases vn - j,
        {
            if j == 0 {
                refs.append("ptr ");
                refs.append(vts[j].as_str());
            } else {
                refs.append(", ptr ");
                refs.append(vts[j].as_str());
            }
            j += 1;
        }
        self.ctx.append_line(
            cat5("@super_vtable = global [", counts.as_str(), " x ptr] [", refs.as_str(), "]"),
        );
        self.generate_get_vtable_method();
        let ghost cc = self.ctx@;
        let n = program.statements.len();
        let mut i: usize = 0;
        while i < n
            invariant
                i <= n,
                self.wf(),
                self.code@ == old(self).code@,
                defs_stmts_from(self.ctx@, program, i as int) == defs_stmts_from(cc, program, 0),
            decreases n - i,
        {
            match &program.statements[i] {
                Statement::StatementTypeDef(td) => {
                    self.generate_type_constructor(td);
                    let ghost cm = self.ctx@;
                    let mn = td.members.len();
                    let mut mj: usize = 0;
                    while mj < mn
                        invariant
                            mn == td.members.len(),
                            mj <= mn,
                            self.wf(),
                            self.code@ == old(self).code@,
                            defs_members_from(self.ctx@, td, mj as int) == defs_members_from(
                                cm,
                                td,
                                0,
                            ),
                        decreases mn - mj,
                    {
                        match &td.members[mj] {
                            TypeMember::Method(m) => {
                                self.emit_method(&td.identifier, m);
                            },
                            TypeMember::Property(_) => {},
                        }
                        mj += 1;
                    }
                },
                Statement::StatementFunctionDef(f) => {
                    self.emit_function(f);
                },
                _ => {},
            }
            i += 1;
        }
        self.ctx.take_body()
    }

    /// Lowers the top-level expressions and takes their lines.
    #[verifier::loop_isolation(false)]
    pub fn get_main_code(&mut self, program: &Program) -> (r: Vec<String>)
        requires
            old(self).wf(),
        ensures
            r.deep_view() == mains_from(old(self).ctx@, program, 0).lines,
            final(self).ctx@ == (GCtx {
                lines: Seq::empty(),
                ..mains_from(old(self).ctx@, program, 0)
            }),
            final(self).code@ == old(self).code@,
            final(self).wf(),
    {
        let ghost c0 = self.ctx@;
        let n = program.statements.len();
        let mut i: usize = 0;
        while i < n
            invariant
                i <= n,
                self.wf(),
                self.code@ == old(self).code@,
                mains_from(self.ctx@, program, i as int) == mains_from(c0, program, 0),
            decreases n - i,
        {
            match &program.statements[i] {
                Statement::StatementExpression(e) => {
                    crate::codegen::visitor::emit_expression(&mut self.ctx, e);
                },
                _ => {},
            }
            i += 1;
        }
        self.ctx.take_body()
    }

    /// Records every declared function's emitted return type, so that call
    /// sites know what each call yields.
    #[verifier::loop_isolation(false)]
    fn record_rets(&mut self, program: &Program)
        requires
            old(self).wf(),
        ensures
            final(self).ctx@ == set_rets_from(old(self).ctx@, program, 0),
            final(self).code@ == old(self).code@,
            final(self).wf(),
    {
        let ghost c0 = self.ctx@;
        let n = program.statements.len();
        let mut i: usize = 0;
        while i < n
            invariant
                i <= n,
                self.wf(),
                self.code@ == old(self).code@,
                set_rets_from(self.ctx@, program, i as int) == set_rets_from(c0, program, 0),
            decreases n - i,
        {
            match &program.statements[i] {
                Statement::StatementFunctionDef(f) => {
                    self.ctx.set_func_ret(
                        clone_string(&f.name),
                        RetInfo {
                            llvm_type: String::from_str(to_llvm_type(f.return_type.as_str())),
                            lang_type: clone_string(&f.return_type),
                        },
                    );
                },
                _ => {},
            }
            i += 1;
        }
    }

    /// Assembles every line of the module, in order.
    #[verifier::rlimit(100)]
    #[verifier::spinoff_prover]
    fn assemble_module(&mut self, program: &Program) -> (r: Vec<String>)
        requires
            old(self).wf(),
        ensures
            r.deep_view() == g_module(old(self).ctx@, program).1,
            final(self).ctx@ == g_module(old(self).ctx@, program).0,
            final(self).code@ == old(self).code@,
            final(self).wf(),
    {
        let mut module_code = prelude_exec(&mut self.ctx);
        self.record_rets(program);
        self.init_all_type_methods_and_props(program);
        let mut defs = self.get_definitions(program);
        module_code.append(&mut defs);
        let main_code = self.get_main_code(program);
        let mut globals = self.ctx.take_globals();
        module_code.append(&mut globals);
        let consts = self.ctx.take_string_consts();
        generate_main_wrapper(&mut module_code, &main_code, consts);
        module_code
    }

    /// Emits the whole module for a program into `code`.
    #[verifier::rlimit(50)]
    #[verifier::spinoff_prover]
    pub fn generate(&mut self, program: &Program)
        requires
            old(self).wf(),
        ensures
            final(self).ctx@ == g_module(old(self).ctx@, program).0,
            final(self).code@ == spec_module_text(old(self).ctx@, program),
            final(self).wf(),
    {
        let module_code = self.assemble_module(program);
        self.code = join_text(&module_code);
    }
}

/// The fixed module prefix: a header line, the format strings and library
/// declarations, the runtime helpers, and a separator.
fn prelude_exec(ctx: &mut CodegenCtx) -> (r: Vec<String>)
    requires
        old(ctx).wf(),
    ensures
        r.deep_view() == seq![" "@] + global_decl_lines() + runtime_decl_lines() + seq![""@],
        final(ctx)@ == old(ctx)@,
        final(ctx).wf(),
{
    let mut module_code: Vec<String> = Vec::new();
    module_code.push(String::from_str(" "));
    proof {
        assert(module_code.deep_view() =~= seq![" "@]);
    }
    declare_global(&mut module_code, ctx);
    generate_runtime_declarations(&mut module_code);
    let ghost pre3 = module_code.deep_view();
    module_code.push(String::from_str(""));
    proof {
        assert(module_code.deep_view() =~= pre3.push(""@));
        assert(module_code.deep_view() =~= seq![" "@] + global_decl_lines()
            + runtime_decl_lines() + seq![""@]);
    }
    module_code
}

/// Joins lines with newlines.
fn join_text(module_code: &Vec<String>) -> (r: String)
    ensures
        r@ == join_lines(module_code.deep_view(), module_code.deep_view().len() as int),
{
    let ghost ls = module_code.deep_view();
    let mut text = String::new();
    let ln = module_code.len();
    let mut k: usize = 0;
    while k < ln
        invariant
            ln == module_code@.len(),
            module_code.deep_view() == ls,
            k <= ln,
            text@ == join_lines(ls, k as int),
        decreases ln - k,
    {
        if k == 0 {
            text.append(module_code[k].as_str());
            proof {
                assert(text@ =~= join_lines(ls, 1));
            }
        } else {
            text.append("\n");
            text.append(module_code[k].as_str());
        }
        k += 1;
    }
    text
}

/// Appends the string constants and the `@main` wrapper around the body.
#[verifier::loop_isolation(false)]
pub fn generate_main_wrapper(
    module_code: &mut Vec<String>,
    body_code: &Vec<String>,
    global_consts: Vec<String>,
)
    ensures
        final(module_code).deep_view() == old(module_code).deep_view() + wrapper_lines(
            body_code.deep_view(),
            global_consts.deep_view(),
        ),
{
    let ghost pre = module_code.deep_view();
    let ghost cv = global_consts.deep_view();
    let mut consts = global_consts;
    module_code.append(&mut consts);
    proof {
        assert(module_code.deep_view() =~= pre + cv);
    }
    let ghost p1 = module_code.deep_view();
    module_code.push(String::from_str("define i32 @main() {"));
    proof {
        assert(module_code.deep_view() =~= p1.push("define i32 @main() {"@));
    }
    let ghost p2a = module_code.deep_view();
    module_code.push(String::from_str("entry:"));
    proof {
        assert(module_code.deep_view() =~= p2a.push("entry:"@));
        assert(module_code.deep_view() =~= pre + cv + seq!["define i32 @main() {"@, "entry:"@]);
    }
    let ghost mid = module_code.deep_view();
    let n = body_code.len();
    let mut j: usize = 0;
    while j < n
        invariant
            n == body_code@.len(),
            j <= n,
            module_code.deep_view() == mid + indent_lines(body_code.deep_view(), j as int),
        decreases n - j,
    {
        let ghost p2 = module_code.deep_view();
        module_code.push(cat2("  ", body_code[j].as_str()));
        proof {
            assert(module_code.deep_view() =~= p2.push("  "@ + body_code.deep_view()[j as int]));
        }
        j += 1;
    }
    let ghost p3 = module_code.deep_view();
    module_code.push(String::from_str("  ret i32 0"));
    proof {
        assert(module_code.deep_view() =~= p3.push("  ret i32 0"@));
    }
    let ghost p4 = module_code.deep_view();
    module_code.push(String::from_str("}"));
    proof {
        assert(module_code.deep_view() =~= p4.push("}"@));
        assert(module_code.deep_view() =~= pre + wrapper_lines(body_code.deep_view(), cv));
    }
}

} // verus!

verus! {

/// Law: emission is deterministic.  Two emitter runs over the same program
/// from equal starting contexts produce byte-identical module text — every
/// register, label, string-literal id, and type-id is allocated the same way.
/// Together with `generate`'s contract, which pins the emitted text to
/// `spec_module_text`, emitting twice from one annotated AST cannot differ.
pub proof fn lemma_emission_deterministic(a: GCtx, b: GCtx, p: &Program)
    requires
        a == b,
    ensures
        spec_module_text(a, p) == spec_module_text(b, p),
{
}

} // verus!
