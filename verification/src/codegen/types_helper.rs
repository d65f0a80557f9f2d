//! Per-type emission: layout tables, struct types, vtable constants,
//! constructors, and method bodies.
//!
//! Types are processed parents-first, assigning dense type-ids in that order.
//! A child's field list is its parent's followed by its own, and its vtable
//! slots are its parent's (overrides replacing in place) followed by its own
//! new methods — the prefix properties dynamic dispatch relies on.

use vstd::prelude::*;
use crate::ast::{FunctionDef, Param, Program, Statement, TypeDef, TypeMember};
use crate::codegen::context::{g_line, reg_name, CodegenCtx, GCtx, MethodSlot, MethodSlotV,
    TypeLayout, TypeLayoutV};
use crate::codegen::generator::Generator;
use crate::codegen::utils::{spec_llvm, to_llvm_type};
use crate::codegen::visitor::{e_call_args_from, e_expr, emit_call_args, emit_expression, g_fresh,
    member_pos, member_index_of, slot_of, slot_index};
use crate::strmap::{clone_string, str_eq};
use crate::text::{cat2, cat3, cat4, cat5, cat6, cat7, cat8, cat9, dec_str, fmt_usize, sat_add,
    sat_inc, sat_plus};

verus! {

broadcast use vstd::std_specs::vec::axiom_vec_index_decreases;

/// The declared parameter type names of a definition, in order.
pub open spec fn param_sigs(ps: &Vec<Param>, i: int) -> Seq<Seq<char>>
    decreases i,
{
    if i <= 0 || i > ps.len() {
        Seq::empty()
    } else {
        param_sigs(ps, i - 1).push(ps[i - 1].signature@)
    }
}

fn param_sigs_exec(ps: &Vec<Param>) -> (r: Vec<String>)
    ensures
        r.deep_view() == param_sigs(ps, ps.len() as int),
{
    let n = ps.len();
    let mut out: Vec<String> = Vec::new();
    proof {
        assert(out.deep_view() =~= param_sigs(ps, 0));
    }
    let mut j: usize = 0;
    while j < n
        invariant
            n == ps.len(),
            j <= n,
            out.deep_view() == param_sigs(ps, j as int),
        decreases n - j,
    {
        let ghost pre = out.deep_view();
        out.push(clone_string(&ps[j].signature));
        proof {
            assert(out.deep_view() =~= pre.push(ps[j as int].signature@));
        }
        j += 1;
    }
    out
}

/// A type's own fields: each property at its declared type, or `Unknown`.
pub open spec fn own_props(ms: &Vec<TypeMember>, i: int) -> Seq<(Seq<char>, Seq<char>)>
    decreases i,
{
    if i <= 0 || i > ms.len() {
        Seq::empty()
    } else {
        match &ms[i - 1] {
            TypeMember::Property(prop) => own_props(ms, i - 1).push(
                (
                    prop.identifier@,
                    match &prop.declared_type {
                        Some(t) => t@,
                        None => "Unknown"@,
                    },
                ),
            ),
            TypeMember::Method(_) => own_props(ms, i - 1),
        }
    }
}

/// The vtable slot a method definition fills.
pub open spec fn slot_v(tname: Seq<char>, m: &FunctionDef) -> MethodSlotV {
    MethodSlotV {
        name: m.name@,
        llvm_name: "@"@ + tname + "_"@ + m.name@,
        param_types: param_sigs(&m.params, m.params.len() as int),
        return_type: m.return_type@,
    }
}

/// The parent's slots with overrides replaced in place and new methods
/// appended.
pub open spec fn merge_methods(
    acc: Seq<MethodSlotV>,
    tname: Seq<char>,
    ms: &Vec<TypeMember>,
    i: int,
) -> Seq<MethodSlotV>
    decreases ms.len() - i,
{
    if i < 0 || i >= ms.len() {
        acc
    } else {
        let acc2 = match &ms[i] {
            TypeMember::Method(m) => match slot_of(acc, m.name@) {
                Some(k) => acc.update(k, slot_v(tname, m)),
                None => acc.push(slot_v(tname, m)),
            },
            TypeMember::Property(_) => acc,
        };
        merge_methods(acc2, tname, ms, i + 1)
    }
}

/// The field part of a struct type line: `, ty` for each field.
pub open spec fn fields_text(members: Seq<(Seq<char>, Seq<char>)>, i: int) -> Seq<char>
    decreases i,
{
    if i <= 0 || i > members.len() {
        Seq::empty()
    } else {
        fields_text(members, i - 1) + ", "@ + spec_llvm(members[i - 1].1)
    }
}

/// The fields a type inherits: its parent's members, where recorded.
pub open spec fn inherited_members(c: GCtx, td: &TypeDef) -> Seq<(Seq<char>, Seq<char>)> {
    match &td.parent {
        Some(pn) => if c.types.contains_key(pn@) {
            c.types[pn@].members
        } else {
            Seq::empty()
        },
        None => Seq::empty(),
    }
}

/// The vtable slots a type inherits: its parent's, where recorded.
pub open spec fn inherited_methods(c: GCtx, td: &TypeDef) -> Seq<MethodSlotV> {
    match &td.parent {
        Some(pn) => if c.types.contains_key(pn@) {
            c.types[pn@].methods
        } else {
            Seq::empty()
        },
        None => Seq::empty(),
    }
}

/// The layout one type table step records.
pub open spec fn layout_of_def(c: GCtx, td: &TypeDef) -> TypeLayoutV {
    TypeLayoutV {
        parent: match &td.parent {
            Some(pn) => Some(pn@),
            None => None,
        },
        ctor_params: param_sigs(&td.params, td.params.len() as int),
        members: inherited_members(c, td) + own_props(&td.members, td.members.len() as int),
        methods: merge_methods(inherited_methods(c, td), td.identifier@, &td.members, 0),
        type_id: c.count_types,
    }
}

/// The struct type line for a type.
pub open spec fn struct_line(name: Seq<char>, members: Seq<(Seq<char>, Seq<char>)>) -> Seq<char> {
    "%"@ + name + "_type = type { i32, ptr"@ + fields_text(members, members.len() as int) + " }"@
}

/// One table-building step: the id, the vtable name, the layout, the running
/// vtable width, and the struct type line.
pub open spec fn t_table(c: GCtx, td: &TypeDef) -> GCtx {
    let layout = layout_of_def(c, td);
    let c1 = GCtx {
        type_ids: c.type_ids.insert(td.identifier@, c.count_types as usize),
        vtables: c.vtables.push("@"@ + td.identifier@ + "_vtable"@),
        count_types: sat_inc(c.count_types),
        types: c.types.insert(td.identifier@, layout),
        max_vtable: if layout.methods.len() > c.max_vtable {
            layout.methods.len()
        } else {
            c.max_vtable
        },
        ..c
    };
    g_line(c1, struct_line(td.identifier@, layout.members))
}

impl Generator {
    /// Builds the layout table for one type definition and emits its struct
    /// type line.
    #[verifier::loop_isolation(false)]
    #[verifier::rlimit(100)]
    pub fn generate_type_table(&mut self, node: &TypeDef)
        requires
            old(self).wf(),
        ensures
            final(self).ctx@ == t_table(old(self).ctx@, node),
            final(self).code@ == old(self).code@,
            final(self).wf(),
    {
        let tname = clone_string(&node.identifier);
        // inherited fields and slots
        let (inherited, base_methods) = match &node.parent {
            Some(pn) => match self.ctx.layout_of(pn.as_str()) {
                Some(pl) => (pl.members, pl.methods),
                None => (Vec::new(), Vec::new()),
            },
            None => (Vec::new(), Vec::new()),
        };
        proof {
            assert(inherited.deep_view() =~= inherited_members(self.ctx@, node));
            assert(base_methods.deep_view() =~= inherited_methods(self.ctx@, node));
        }
        // own fields appended after the parent's
        let mut members = inherited;
        let ghost inh = members.deep_view();
        let mn = node.members.len();
        let mut j: usize = 0;
        while j < mn
            invariant
                mn == node.members.len(),
                j <= mn,
                members.deep_view() == inh + own_props(&node.members, j as int),
            decreases mn - j,
        {
            match &node.members[j] {
                TypeMember::Property(prop) => {
                    let ghost pre = members.deep_view();
                    let tyname = match &prop.declared_type {
                        Some(t) => clone_string(t),
                        None => String::from_str("Unknown"),
                    };
                    members.push((clone_string(&prop.identifier), tyname));
                    proof {
                        assert(members.deep_view() =~= pre.push(
                            own_props(&node.members, j + 1).last(),
                        ));
                        assert(members.deep_view() =~= inh + own_props(&node.members, j + 1));
                    }
                },
                TypeMember::Method(_) => {
                    proof {
                        assert(own_props(&node.members, j + 1) =~= own_props(
                            &node.members,
                            j as int,
                        ));
                    }
                },
            }
            j += 1;
        }
        // vtable slots: overrides in place, new methods appended
        let mut methods = base_methods;
        let ghost base0 = methods.deep_view();
        let mut k: usize = 0;
        while k < mn
            invariant
                mn == node.members.len(),
                k <= mn,
                merge_methods(methods.deep_view(), node.identifier@, &node.members, k as int)
                    == merge_methods(base0, node.identifier@, &node.members, 0),
            decreases mn - k,
        {
            match &node.members[k] {
                TypeMember::Method(m) => {
                    let slot = MethodSlot {
                        name: clone_string(&m.name),
                        llvm_name: cat4("@", tname.as_str(), "_", m.name.as_str()),
                        param_types: param_sigs_exec(&m.params),
                        return_type: clone_string(&m.return_type),
                    };
                    proof {
                        assert(slot@ == slot_v(node.identifier@, m));
                    }
                    match slot_index(&methods, m.name.as_str()) {
                        Some(idx) => {
                            let ghost pre = methods.deep_view();
                            methods.set(idx, slot);
                            proof {
                                assert(methods.deep_view() =~= pre.update(
                                    idx as int,
                                    slot_v(node.identifier@, m),
                                ));
                            }
                        },
                        None => {
                            let ghost pre = methods.deep_view();
                            methods.push(slot);
                            proof {
                                assert(methods.deep_view() =~= pre.push(
                                    slot_v(node.identifier@, m),
                                ));
                            }
                        },
                    }
                },
                TypeMember::Property(_) => {},
            }
            k += 1;
        }
        // record id, vtable, layout, width
        let id = self.ctx.types_count();
        self.ctx.set_type_id(clone_string(&node.identifier), id);
        let vt = cat3("@", node.identifier.as_str(), "_vtable");
        self.ctx.push_vtable(vt);
        self.ctx.bump_type_count();
        let mlen = methods.len();
        let ghost lay = layout_of_def(old(self).ctx@, node);
        let layout = TypeLayout {
            parent: match &node.parent {
                Some(pn) => Some(clone_string(pn)),
                None => None,
            },
            ctor_params: param_sigs_exec(&node.params),
            members,
            methods,
            type_id: id,
        };
        proof {
            assert(layout@ =~= lay);
        }
        // the struct type line: fields after the two header slots
        let mut fields = String::new();
        let fl = layout.members.len();
        let mut fj: usize = 0;
        while fj < fl
            invariant
                fl == layout.members@.len(),
                fields@ == fields_text(layout@.members, fj as int),
                fj <= fl,
            decreases fl - fj,
        {
            fields.append(", ");
            fields.append(to_llvm_type(layout.members[fj].1.as_str()));
            fj += 1;
        }
        let line = cat5(
            "%",
            node.identifier.as_str(),
            "_type = type { i32, ptr",
            fields.as_str(),
            " }",
        );
        self.ctx.raise_max_vtable(mlen);
        self.ctx.set_type_layout(clone_string(&node.identifier), layout);
        self.ctx.append_line(line);
        proof {
            assert(self.ctx@ =~= t_table(old(self).ctx@, node));
        }
    }
}

/// The index of the first type definition with the given name.
pub open spec fn find_typedef(p: &Program, name: Seq<char>, i: int) -> Option<int>
    decreases p.statements.len() - i,
{
    if i < 0 || i >= p.statements.len() {
        None
    } else {
        match &p.statements[i] {
            Statement::StatementTypeDef(td) => if td.identifier@ == name {
                Some(i)
            } else {
                find_typedef(p, name, i + 1)
            },
            _ => find_typedef(p, name, i + 1),
        }
    }
}

fn find_typedef_exec<'a>(p: &'a Program, name: &str) -> (r: Option<&'a TypeDef>)
    ensures
        match r {
            Some(td) => exists|i: int|
                find_typedef(p, name@, 0) == Some(i) && 0 <= i < p.statements.len()
                    && (p.statements[i] matches Statement::StatementTypeDef(b) && *b == *td),
            None => find_typedef(p, name@, 0) is None,
        },
{
    let n = p.statements.len();
    let mut j: usize = 0;
    while j < n
        invariant
            n == p.statements.len(),
            j <= n,
            find_typedef(p, name@, j as int) == find_typedef(p, name@, 0),
        decreases n - j,
    {
        match &p.statements[j] {
            Statement::StatementTypeDef(td) => {
                if str_eq(td.identifier.as_str(), name) {
                    return Some(td);
                }
            },
            _ => {},
        }
        j += 1;
    }
    None
}

/// Parents-first registration of one type, with fuel bounding the walk.
pub open spec fn ensure_processed(c: GCtx, p: &Program, name: Seq<char>, fuel: nat) -> GCtx
    decreases fuel,
{
    if fuel == 0 || c.types.contains_key(name) {
        c
    } else {
        match find_typedef(p, name, 0) {
            None => c,
            Some(i) => match &p.statements[i] {
                Statement::StatementTypeDef(td) => {
                    let c1 = match &td.parent {
                        Some(pn) => if find_typedef(p, pn@, 0) is Some && !c.types.contains_key(
                            pn@,
                        ) {
                            ensure_processed(c, p, pn@, (fuel - 1) as nat)
                        } else {
                            c
                        },
                        None => c,
                    };
                    if c1.types.contains_key(name) {
                        c1
                    } else {
                        t_table(c1, td)
                    }
                },
                _ => c,
            },
        }
    }
}

/// Registration of every type definition, in statement order.
pub open spec fn init_tables_from(c: GCtx, p: &Program, i: int) -> GCtx
    decreases p.statements.len() - i,
{
    if i < 0 || i >= p.statements.len() {
        c
    } else {
        let c2 = match &p.statements[i] {
            Statement::StatementTypeDef(td) => ensure_processed(
                c,
                p,
                td.identifier@,
                sat_plus(p.statements.len() as nat, 1),
            ),
            _ => c,
        };
        init_tables_from(c2, p, i + 1)
    }
}

impl Generator {
    fn ensure_processed_exec(&mut self, p: &Program, name: &str, fuel: usize)
        requires
            old(self).wf(),
        ensures
            final(self).ctx@ == ensure_processed(old(self).ctx@, p, name@, fuel as nat),
            final(self).code@ == old(self).code@,
            final(self).wf(),
        decreases fuel,
    {
        if fuel == 0 {
            return ;
        }
        if self.ctx.layout_of(name).is_some() {
            return ;
        }
        match find_typedef_exec(p, name) {
            None => {},
            Some(td) => {
                match &td.parent {
                    Some(pn) => {
                        if find_typedef_exec(p, pn.as_str()).is_some() && !self.ctx.layout_of(
                            pn.as_str(),
                        ).is_some() {
                            self.ensure_processed_exec(p, clone_string(pn).as_str(), fuel - 1);
                        }
                    },
                    None => {},
                }
                if !self.ctx.layout_of(name).is_some() {
                    self.generate_type_table(td);
                }
            },
        }
    }

    /// Builds every type's layout table and struct type line, parents first.
    #[verifier::loop_isolation(false)]
    pub fn init_all_type_methods_and_props(&mut self, program: &Program)
        requires
            old(self).wf(),
        ensures
            final(self).ctx@ == init_tables_from(old(self).ctx@, program, 0),
            final(self).code@ == old(self).code@,
            final(self).wf(),
    {
        let ghost c0 = self.ctx@;
        let n = program.statements.len();
        let fuel = sat_add(n, 1);
        let mut i: usize = 0;
        while i < n
            invariant
                i <= n,
                self.wf(),
                self.code@ == old(self).code@,
                init_tables_from(self.ctx@, program, i as int) == init_tables_from(c0, program, 0),
            decreases n - i,
        {
            match &program.statements[i] {
                Statement::StatementTypeDef(td) => {
                    self.ensure_processed_exec(program, td.identifier.as_str(), fuel);
                },
                _ => {},
            }
            i += 1;
        }
    }

    /// Emits the two-level dispatch helper.
    pub fn generate_get_vtable_method(&mut self)
        requires
            old(self).wf(),
        ensures
            final(self).ctx@.lines == old(self).ctx@.lines + dispatch_lines(
                old(self).ctx@.count_types,
                old(self).ctx@.max_vtable,
            ),
            final(self).ctx@ == (GCtx {
                lines: final(self).ctx@.lines,
                ..old(self).ctx@
            }),
            final(self).code@ == old(self).code@,
            final(self).wf(),
    {
        let ghost pre = self.ctx@;
        let count = fmt_usize(self.ctx.types_count());
        let maxf = fmt_usize(self.ctx.max_vtable_width());
        self.ctx.append_line(
            String::from_str("define ptr @get_vtable_method(i32 %type_id, i32 %method_id) {"),
        );
        self.ctx.append_line(
            cat3(
                "%vtable_ptr_ptr = getelementptr [ ",
                count.as_str(),
                " x ptr ], ptr @super_vtable, i32 0, i32 %type_id",
            ),
        );
        self.ctx.append_line(String::from_str("%vtable_ptr = load ptr, ptr %vtable_ptr_ptr"));
        self.ctx.append_line(
            String::from_str("%typed_vtable = bitcast ptr %vtable_ptr to ptr"),
        );
        self.ctx.append_line(
            cat3(
                "%method_ptr = getelementptr [ ",
                maxf.as_str(),
                " x ptr ], ptr %typed_vtable, i32 0, i32 %method_id",
            ),
        );
        self.ctx.append_line(String::from_str("%method = load ptr, ptr %method_ptr"));
        self.ctx.append_line(String::from_str("ret ptr %method"));
        self.ctx.append_line(String::from_str("}"));
        proof {
            assert(self.ctx@.lines =~= pre.lines + dispatch_lines(pre.count_types, pre.max_vtable));
            assert(self.ctx@ =~= (GCtx { lines: self.ctx@.lines, ..pre }));
        }
    }
}

/// The lines of `@get_vtable_method`: index the super-vtable by type-id, then
/// the type's vtable by method slot.
pub open spec fn dispatch_lines(count: nat, maxf: nat) -> Seq<Seq<char>> {
    seq![
        "define ptr @get_vtable_method(i32 %type_id, i32 %method_id) {"@,
        "%vtable_ptr_ptr = getelementptr [ "@ + dec_str(count)
            + " x ptr ], ptr @super_vtable, i32 0, i32 %type_id"@,
        "%vtable_ptr = load ptr, ptr %vtable_ptr_ptr"@,
        "%typed_vtable = bitcast ptr %vtable_ptr to ptr"@,
        "%method_ptr = getelementptr [ "@ + dec_str(maxf)
            + " x ptr ], ptr %typed_vtable, i32 0, i32 %method_id"@,
        "%method = load ptr, ptr %method_ptr"@,
        "ret ptr %method"@,
        "}"@,
    ]
}

} // verus!

verus! {

/// Parameter registers bound in the current scope, building the signature
/// text: `ptr %name.k` for each parameter.
pub open spec fn bind_params_from(c: GCtx, ps: &Vec<Param>, i: int, acc: Seq<char>) -> (
    GCtx,
    Seq<char>,
)
    decreases ps.len() - i,
{
    if i < 0 || i >= ps.len() {
        (c, acc)
    } else {
        let reg = reg_name(ps[i].name@, c.scope_id as int);
        let c1 = GCtx {
            vars: c.vars.insert(reg, spec_llvm(ps[i].signature@)),
            langs: c.langs.insert(reg, ps[i].signature@),
            ..c
        };
        let acc2 = if acc.len() == 0 {
            "ptr "@ + reg
        } else {
            acc + ", ptr "@ + reg
        };
        bind_params_from(c1, ps, i + 1, acc2)
    }
}

fn bind_params_exec(ctx: &mut CodegenCtx, ps: &Vec<Param>, first: String) -> (r: String)
    requires
        old(ctx).wf(),
    ensures
        (final(ctx)@, r@) == bind_params_from(old(ctx)@, ps, 0, first@),
        final(ctx).wf(),
{
    let ghost f0 = first@;
    let mut acc = first;
    let ghost c0 = ctx@;
    let n = ps.len();
    let mut j: usize = 0;
    while j < n
        invariant
            n == ps.len(),
            j <= n,
            ctx.wf(),
            bind_params_from(ctx@, ps, j as int, acc@) == bind_params_from(c0, ps, 0, f0),
        decreases n - j,
    {
        let scope = ctx.current_scope_id();
        let reg = cat4("%", ps[j].name.as_str(), ".", fmt_usize(scope).as_str());
        ctx.add_var(clone_string(&reg), String::from_str(to_llvm_type(ps[j].signature.as_str())));
        ctx.add_var_lang(clone_string(&reg), clone_string(&ps[j].signature));
        if acc.unicode_len() == 0 {
            acc = cat2("ptr ", reg.as_str());
        } else {
            acc.append(", ptr ");
            acc.append(reg.as_str());
        }
        j += 1;
    }
    acc
}

/// The vtable constant's entries: each slot's function, null-padded to the
/// module-wide width.
pub open spec fn vt_entries(methods: Seq<MethodSlotV>, total: int, i: int) -> Seq<char>
    decreases total - i,
{
    if i < 0 || i >= total {
        Seq::empty()
    } else {
        let entry = if i < methods.len() {
            "ptr "@ + methods[i].llvm_name
        } else {
            "ptr null"@
        };
        let sep = if i == 0 {
            entry
        } else {
            ", "@ + entry
        };
        sep + vt_entries(methods, total, i + 1)
    }
}

/// The field-copy lines a constructor emits for its parent's fields.
pub open spec fn copy_fields_from(
    c: GCtx,
    pn: Seq<char>,
    tname: Seq<char>,
    pptr: Seq<char>,
    mem: Seq<char>,
    pmembers: Seq<(Seq<char>, Seq<char>)>,
    i: int,
) -> GCtx
    decreases pmembers.len() - i,
{
    if i < 0 || i >= pmembers.len() {
        c
    } else {
        let llvm = spec_llvm(pmembers[i].1);
        let c1 = g_line(
            c,
            "%src_"@ + dec_str(i as nat) + " = getelementptr %"@ + pn + "_type, ptr "@ + pptr
                + ", i32 0, i32 "@ + dec_str(sat_plus(i as nat, 2)),
        );
        let c2 = g_line(
            c1,
            "%val_"@ + dec_str(i as nat) + " = load "@ + llvm + ", ptr %src_"@ + dec_str(i as nat),
        );
        let c3 = g_line(
            c2,
            "%dst_"@ + dec_str(i as nat) + " = getelementptr %"@ + tname + "_type, ptr "@ + mem
                + ", i32 0, i32 "@ + dec_str(sat_plus(i as nat, 2)),
        );
        let c4 = g_line(
            c3,
            "store "@ + llvm + " %val_"@ + dec_str(i as nat) + ", ptr %dst_"@ + dec_str(i as nat),
        );
        copy_fields_from(c4, pn, tname, pptr, mem, pmembers, i + 1)
    }
}

/// The field-initializer lines of a constructor, one store per property.
pub open spec fn ctor_props_from(c: GCtx, td: &TypeDef, mem: Seq<char>, i: int) -> GCtx
    decreases td, 2int, td.members.len() - i,
{
    if i < 0 || i >= td.members.len() {
        c
    } else {
        let c2 = match &td.members[i] {
            TypeMember::Property(prop) => {
                let (ca, r) = e_expr(c, &prop.expression);
                let (cb, rr) = g_fresh(ca, r.ast_type);
                if cb.types.contains_key(td.identifier@) {
                    match member_pos(cb.types[td.identifier@].members, prop.identifier@) {
                        Some(idx) => {
                            let cc = g_line(
                                cb,
                                rr + " = getelementptr %"@ + td.identifier@ + "_type, ptr "@ + mem
                                    + ", i32 0, i32 "@ + dec_str(sat_plus(idx as nat, 2)),
                            );
                            g_line(
                                cc,
                                "store "@ + r.llvm_type + " "@ + r.register + ", ptr "@ + rr,
                            )
                        },
                        None => cb,
                    }
                } else {
                    cb
                }
            },
            TypeMember::Method(_) => c,
        };
        ctor_props_from(c2, td, mem, i + 1)
    }
}

/// The whole constructor of one type: the vtable constant, the size and
/// allocation, the type-id store, the parent call with its field copies, and
/// the field initializers.
pub open spec fn t_ctor(c: GCtx, td: &TypeDef) -> GCtx {
    let tname = td.identifier@;
    let methods = if c.types.contains_key(tname) {
        c.types[tname].methods
    } else {
        Seq::empty()
    };
    let c1 = g_line(
        c,
        "@"@ + tname + "_vtable = constant %VTableType [ "@ + vt_entries(
            methods,
            c.max_vtable as int,
            0,
        ) + " ]"@,
    );
    let c2 = GCtx { scope_id: sat_inc(c1.scope_id), saved_vars: c1.saved_vars.push((c1.vars, c1.langs)), ..c1 };
    let (c3, ptext) = bind_params_from(c2, &td.params, 0, Seq::empty());
    let c4 = g_line(c3, "define ptr @"@ + tname + "_new( "@ + ptext + " ) {"@);
    let (c5, size) = g_fresh(c4, "Number"@);
    let c6 = g_line(
        c5,
        size + " = ptrtoint ptr getelementptr(%"@ + tname + "_type, ptr null, i32 1) to i64"@,
    );
    let (c7, mem) = g_fresh(c6, tname);
    let c8 = g_line(c7, mem + " = call ptr @malloc(i64 "@ + size + ")"@);
    let c9 = g_line(c8, "%index_ptr = getelementptr %"@ + tname + "_type, ptr "@ + mem + ", i32 0, i32 0"@);
    let tid = if c9.type_ids.contains_key(tname) {
        c9.type_ids[tname] as nat
    } else {
        0
    };
    let c10 = g_line(c9, "store i32 "@ + dec_str(tid) + ", ptr %index_ptr"@);
    let c11 = match &td.parent {
        Some(pn) => {
            let (ca, args) = e_call_args_from(c10, &td.parent_args, 0, Seq::empty());
            let (cb, pptr) = g_fresh(ca, pn@);
            let cc = g_line(cb, pptr + " = call ptr @"@ + pn@ + "_new("@ + args + ")"@);
            let cd = g_line(
                cc,
                "%parent_ptr = getelementptr %"@ + tname + "_type, ptr "@ + mem + ", i32 0, i32 1"@,
            );
            let ce = g_line(cd, "store ptr "@ + pptr + ", ptr %parent_ptr"@);
            let pmembers = if ce.types.contains_key(pn@) {
                ce.types[pn@].members
            } else {
                Seq::empty()
            };
            copy_fields_from(ce, pn@, tname, pptr, mem, pmembers, 0)
        },
        None => c10,
    };
    let c12 = ctor_props_from(c11, td, mem, 0);
    let c13 = g_line(c12, "ret ptr "@ + mem);
    let c14 = g_line(c13, "}"@);
    crate::codegen::visitor::g_popped(c14)
}

/// The emitted body of one method: `self` first, then the parameters, the
/// lowered body, and its value returned.
pub open spec fn m_method(c: GCtx, tname: Seq<char>, m: &FunctionDef) -> GCtx
    decreases m, 3int,
{
    let c1 = GCtx { scope_id: sat_inc(c.scope_id), saved_vars: c.saved_vars.push((c.vars, c.langs)), ..c };
    let sreg = reg_name("self"@, c1.scope_id as int);
    let c2 = GCtx {
        vars: c1.vars.insert(sreg, "ptr"@),
        langs: c1.langs.insert(sreg, tname),
        ..c1
    };
    let (c3, ptext) = bind_params_from(c2, &m.params, 0, "ptr "@ + sreg);
    let c4 = g_line(
        c3,
        "define "@ + spec_llvm(m.return_type@) + " @"@ + tname + "_"@ + m.name@ + "("@ + ptext
            + ") {"@,
    );
    let oself = c4.current_self;
    let ometh = c4.current_method;
    let c5 = GCtx { current_self: Some(tname), current_method: Some(m.name@), ..c4 };
    let (c6, r) = e_expr(c5, &m.body);
    let c7 = g_line(c6, "ret "@ + r.llvm_type + " "@ + r.register);
    let c8 = g_line(c7, "}"@);
    let c9 = GCtx { current_self: oself, current_method: ometh, ..c8 };
    crate::codegen::visitor::g_popped(c9)
}

/// The emitted body of one top-level function.
pub open spec fn m_function(c: GCtx, f: &FunctionDef) -> GCtx
    decreases f, 3int,
{
    let c1 = GCtx { scope_id: sat_inc(c.scope_id), saved_vars: c.saved_vars.push((c.vars, c.langs)), ..c };
    let (c2, ptext) = bind_params_from(c1, &f.params, 0, Seq::empty());
    let c3 = g_line(
        c2,
        "define "@ + spec_llvm(f.return_type@) + " @"@ + f.name@ + "("@ + ptext + ") {"@,
    );
    let (c4, r) = e_expr(c3, &f.body);
    let c5 = g_line(c4, "ret "@ + r.llvm_type + " "@ + r.register);
    let c6 = g_line(c5, "}"@);
    crate::codegen::visitor::g_popped(c6)
}

impl Generator {
    /// Emits the vtable constant and the `@T_new` constructor of one type.
    #[verifier::loop_isolation(false)]
    #[verifier::rlimit(100)]
    pub fn generate_type_constructor(&mut self, node: &TypeDef)
        requires
            old(self).wf(),
        ensures
            final(self).ctx@ == t_ctor(old(self).ctx@, node),
            final(self).code@ == old(self).code@,
            final(self).wf(),
    {
        let tname = clone_string(&node.identifier);
        let methods = match self.ctx.layout_of(tname.as_str()) {
            Some(l) => l.methods,
            None => Vec::new(),
        };
        proof {
            assert(methods.deep_view() =~= if old(self).ctx@.types.contains_key(node.identifier@) {
                old(self).ctx@.types[node.identifier@].methods
            } else {
                Seq::<MethodSlotV>::empty()
            });
        }
        let total = self.ctx.max_vtable_width();
        let mut entries = String::new();
        let mut i: usize = 0;
        while i < total
            invariant
                i <= total,
                total as nat == self.ctx@.max_vtable,
                entries@ + vt_entries(methods.deep_view(), total as int, i as int) == vt_entries(
                    methods.deep_view(),
                    total as int,
                    0,
                ),
            decreases total - i,
        {
            let entry = if i < methods.len() {
                cat2("ptr ", methods[i].llvm_name.as_str())
            } else {
                String::from_str("ptr null")
            };
            if i == 0 {
                entries.append(entry.as_str());
            } else {
                entries.append(", ");
                entries.append(entry.as_str());
            }
            i += 1;
        }
        self.ctx.append_line(
            cat5(
                "@",
                tname.as_str(),
                "_vtable = constant %VTableType [ ",
                entries.as_str(),
                " ]",
            ),
        );
        self.ctx.push_scope();
        let ptext = bind_params_exec(&mut self.ctx, &node.params, String::new());
        self.ctx.append_line(
            cat5("define ptr @", tname.as_str(), "_new( ", ptext.as_str(), " ) {"),
        );
        let size = self.ctx.fresh_temp_var(String::from_str("Number"));
        self.ctx.append_line(
            cat4(
                size.as_str(),
                " = ptrtoint ptr getelementptr(%",
                tname.as_str(),
                "_type, ptr null, i32 1) to i64",
            ),
        );
        let mem = self.ctx.fresh_temp_var(clone_string(&tname));
        self.ctx.append_line(cat4(mem.as_str(), " = call ptr @malloc(i64 ", size.as_str(), ")"));
        self.ctx.append_line(
            cat5(
                "%index_ptr = getelementptr %",
                tname.as_str(),
                "_type, ptr ",
                mem.as_str(),
                ", i32 0, i32 0",
            ),
        );
        let tid = match self.ctx.type_id_of(tname.as_str()) {
            Some(id) => id,
            None => 0,
        };
        self.ctx.append_line(
            cat3("store i32 ", fmt_usize(tid).as_str(), ", ptr %index_ptr"),
        );
        match &node.parent {
            Some(pn) => {
                let args = emit_call_args(&mut self.ctx, &node.parent_args, String::new());
                let pptr = self.ctx.fresh_temp_var(clone_string(pn));
                self.ctx.append_line(
                    cat6(
                        pptr.as_str(),
                        " = call ptr @",
                        pn.as_str(),
                        "_new(",
                        args.as_str(),
                        ")",
                    ),
                );
                self.ctx.append_line(
                    cat5(
                        "%parent_ptr = getelementptr %",
                        tname.as_str(),
                        "_type, ptr ",
                        mem.as_str(),
                        ", i32 0, i32 1",
                    ),
                );
                self.ctx.append_line(
                    cat3("store ptr ", pptr.as_str(), ", ptr %parent_ptr"),
                );
                let pmembers = match self.ctx.layout_of(pn.as_str()) {
                    Some(l) => l.members,
                    None => Vec::new(),
                };
                proof {
                    assert(pmembers.deep_view() =~= if self.ctx@.types.contains_key(pn@) {
                        self.ctx@.types[pn@].members
                    } else {
                        Seq::<(Seq<char>, Seq<char>)>::empty()
                    });
                }
                let ghost cc0 = self.ctx@;
                let pm = pmembers.len();
                let mut k: usize = 0;
                while k < pm
                    invariant
                        pm == pmembers@.len(),
                        k <= pm,
                        self.wf(),
                        self.code@ == old(self).code@,
                        copy_fields_from(
                            self.ctx@,
                            pn@,
                            node.identifier@,
                            pptr@,
                            mem@,
                            pmembers.deep_view(),
                            k as int,
                        ) == copy_fields_from(
                            cc0,
                            pn@,
                            node.identifier@,
                            pptr@,
                            mem@,
                            pmembers.deep_view(),
                            0,
                        ),
                    decreases pm - k,
                {
                    let ks = fmt_usize(k);
                    let llvm = to_llvm_type(pmembers[k].1.as_str());
                    self.ctx.append_line(
                        cat8(
                            "%src_",
                            ks.as_str(),
                            " = getelementptr %",
                            pn.as_str(),
                            "_type, ptr ",
                            pptr.as_str(),
                            ", i32 0, i32 ",
                            fmt_usize(sat_add(k, 2)).as_str(),
                        ),
                    );
                    self.ctx.append_line(
                        cat6("%val_", ks.as_str(), " = load ", llvm, ", ptr %src_", ks.as_str()),
                    );
                    self.ctx.append_line(
                        cat8(
                            "%dst_",
                            ks.as_str(),
                            " = getelementptr %",
                            tname.as_str(),
                            "_type, ptr ",
                            mem.as_str(),
                            ", i32 0, i32 ",
                            fmt_usize(sat_add(k, 2)).as_str(),
                        ),
                    );
                    self.ctx.append_line(
                        cat6("store ", llvm, " %val_", ks.as_str(), ", ptr %dst_", ks.as_str()),
                    );
                    k += 1;
                }
            },
            None => {},
        }
        let ghost cp0 = self.ctx@;
        let mn = node.members.len();
        let mut mj: usize = 0;
        while mj < mn
            invariant
                mn == node.members.len(),
                mj <= mn,
                self.wf(),
                self.code@ == old(self).code@,
                ctor_props_from(self.ctx@, node, mem@, mj as int) == ctor_props_from(
                    cp0,
                    node,
                    mem@,
                    0,
                ),
            decreases mn - mj,
        {
            match &node.members[mj] {
                TypeMember::Property(prop) => {
                    let r = emit_expression(&mut self.ctx, &prop.expression);
                    let rr = self.ctx.fresh_temp_var(clone_string(&r.ast_type));
                    let place = match self.ctx.layout_of(tname.as_str()) {
                        Some(l) => member_index_of(&l.members, prop.identifier.as_str()),
                        None => None,
                    };
                    match place {
                        Some(idx) => {
                            self.ctx.append_line(
                                cat7(
                                    rr.as_str(),
                                    " = getelementptr %",
                                    tname.as_str(),
                                    "_type, ptr ",
                                    mem.as_str(),
                                    ", i32 0, i32 ",
                                    fmt_usize(sat_add(idx, 2)).as_str(),
                                ),
                            );
                            self.ctx.append_line(
                                cat6(
                                    "store ",
                                    r.llvm_type.as_str(),
                                    " ",
                                    r.register.as_str(),
                                    ", ptr ",
                                    rr.as_str(),
                                ),
                            );
                        },
                        None => {},
                    }
                },
                TypeMember::Method(_) => {},
            }
            mj += 1;
        }
        self.ctx.append_line(cat2("ret ptr ", mem.as_str()));
        self.ctx.append_line(String::from_str("}"));
        self.ctx.pop_scope();
    }

    /// Emits one method of a type: `self` first, parameters, body, return.
    #[verifier::loop_isolation(false)]
    #[verifier::rlimit(100)]
    pub fn emit_method(&mut self, tname: &String, m: &FunctionDef)
        requires
            old(self).wf(),
        ensures
            final(self).ctx@ == m_method(old(self).ctx@, tname@, m),
            final(self).code@ == old(self).code@,
            final(self).wf(),
        decreases m, 12int,
    {
        self.ctx.push_scope();
        let scope = self.ctx.current_scope_id();
        let sreg = cat4("%", "self", ".", fmt_usize(scope).as_str());
        self.ctx.add_var(clone_string(&sreg), String::from_str("ptr"));
        self.ctx.add_var_lang(clone_string(&sreg), clone_string(tname));
        let ptext = bind_params_exec(&mut self.ctx, &m.params, cat2("ptr ", sreg.as_str()));
        self.ctx.append_line(
            cat9(
                "define ",
                to_llvm_type(m.return_type.as_str()),
                " @",
                tname.as_str(),
                "_",
                m.name.as_str(),
                "(",
                ptext.as_str(),
                ") {",
            ),
        );
        let oself = self.ctx.current_self();
        let ometh = self.ctx.current_method();
        self.ctx.set_current_self(Some(clone_string(tname)));
        self.ctx.set_current_method(Some(clone_string(&m.name)));
        let r = emit_expression(&mut self.ctx, &m.body);
        self.ctx.append_line(
            cat4("ret ", r.llvm_type.as_str(), " ", r.register.as_str()),
        );
        self.ctx.append_line(String::from_str("}"));
        self.ctx.set_current_self(oself);
        self.ctx.set_current_method(ometh);
        self.ctx.pop_scope();
    }

    /// Emits one top-level function definition.
    #[verifier::loop_isolation(false)]
    #[verifier::rlimit(100)]
    pub fn emit_function(&mut self, f: &FunctionDef)
        requires
            old(self).wf(),
        ensures
            final(self).ctx@ == m_function(old(self).ctx@, f),
            final(self).code@ == old(self).code@,
            final(self).wf(),
        decreases f, 12int,
    {
        self.ctx.push_scope();
        let ptext = bind_params_exec(&mut self.ctx, &f.params, String::new());
        self.ctx.append_line(
            cat7(
                "define ",
                to_llvm_type(f.return_type.as_str()),
                " @",
                f.name.as_str(),
                "(",
                ptext.as_str(),
                ") {",
            ),
        );
        let r = emit_expression(&mut self.ctx, &f.body);
        self.ctx.append_line(
            cat4("ret ", r.llvm_type.as_str(), " ", r.register.as_str()),
        );
        self.ctx.append_line(String::from_str("}"));
        self.ctx.pop_scope();
    }
}

} // verus!

verus! {

/// The registry bookkeeping that registration preserves: the super-vtable
/// holds exactly one entry per registered type, and type-ids are dense and
/// unique on `[0, N)` where `N` is the number of registered types.
/// Some registered type carries id `k`.
pub open spec fn has_id(c: GCtx, k: int) -> bool {
    exists|n: Seq<char>| #[trigger] c.type_ids.contains_key(n) && c.type_ids[n] == k
}

pub open spec fn registry_invariant(c: GCtx) -> bool {
    &&& c.count_types <= usize::MAX
    &&& c.vtables.len() == c.count_types
    &&& forall|n: Seq<char>| c.types.contains_key(n) <==> #[trigger] c.type_ids.contains_key(n)
    &&& forall|n: Seq<char>| #[trigger] c.type_ids.contains_key(n) ==> (c.type_ids[n] as nat)
        < c.count_types
    &&& forall|n1: Seq<char>, n2: Seq<char>|
        #[trigger] c.type_ids.contains_key(n1) && #[trigger] c.type_ids.contains_key(n2) && n1
            != n2 ==> c.type_ids[n1] != c.type_ids[n2]
    &&& forall|k: int| 0 <= k < c.count_types ==> #[trigger] has_id(c, k)
}

/// A fresh context satisfies the registry bookkeeping.
pub proof fn lemma_registry_initial()
    ensures
        registry_invariant(crate::codegen::context::initial_gctx()),
{
}

/// Law: registering one new type keeps the super-vtable at exactly one entry
/// per type and the type-ids dense and unique on `[0, N)` — the fresh type
/// takes id `N - 1`.
pub proof fn lemma_registration_step(c: GCtx, td: &TypeDef)
    requires
        registry_invariant(c),
        !c.types.contains_key(td.identifier@),
        c.count_types < usize::MAX,
    ensures
        registry_invariant(t_table(c, td)),
        t_table(c, td).count_types == c.count_types + 1,
        t_table(c, td).type_ids[td.identifier@] as nat == c.count_types,
{
    let c2 = t_table(c, td);
    assert forall|k: int| 0 <= k < c2.count_types implies #[trigger] has_id(c2, k) by {
        if k < c.count_types {
            assert(has_id(c, k));
            let n = choose|n: Seq<char>| #[trigger]
                c.type_ids.contains_key(n) && c.type_ids[n] == k;
            assert(c2.type_ids.contains_key(n) && c2.type_ids[n] == k);
        } else {
            assert(c2.type_ids.contains_key(td.identifier@) && c2.type_ids[td.identifier@] == k);
        }
    }
}

/// Parents-first registration preserves the bookkeeping; at most `fuel` new
/// types are registered.
pub proof fn lemma_registration_walk(c: GCtx, p: &Program, name: Seq<char>, fuel: nat)
    requires
        registry_invariant(c),
        c.count_types + fuel <= usize::MAX,
    ensures
        registry_invariant(ensure_processed(c, p, name, fuel)),
        ensure_processed(c, p, name, fuel).count_types <= c.count_types + fuel,
    decreases fuel,
{
    if fuel == 0 || c.types.contains_key(name) {
    } else {
        match find_typedef(p, name, 0) {
            None => {},
            Some(i) => match &p.statements[i] {
                Statement::StatementTypeDef(td) => {
                    lemma_find_typedef(p, name, 0);
                    let c1 = match &td.parent {
                        Some(pn) => if find_typedef(p, pn@, 0) is Some && !c.types.contains_key(
                            pn@,
                        ) {
                            lemma_registration_walk(c, p, pn@, (fuel - 1) as nat);
                            ensure_processed(c, p, pn@, (fuel - 1) as nat)
                        } else {
                            c
                        },
                        None => c,
                    };
                    if !c1.types.contains_key(name) {
                        lemma_registration_step(c1, td);
                    }
                },
                _ => {},
            },
        }
    }
}

/// Law: for every type `T` with parent `P` already registered, the first
/// `|fields(P)|` flattened field slots of `T` are positionally and type-wise
/// identical to those of `P`.
pub proof fn lemma_field_layout_prefix(c: GCtx, td: &TypeDef, pn: Seq<char>)
    requires
        td.parent is Some,
        td.parent.unwrap()@ == pn,
        c.types.contains_key(pn),
    ensures
        ({
            let child = t_table(c, td).types[td.identifier@];
            let parent = c.types[pn];
            &&& child.members.len() >= parent.members.len()
            &&& forall|i: int|
                0 <= i < parent.members.len() ==> child.members[i] == parent.members[i]
        }),
{
    let child = t_table(c, td).types[td.identifier@];
    let parent = c.types[pn];
    assert(child.members == parent.members + own_props(&td.members, td.members.len() as int));
}

/// `find_typedef` returns an index holding a definition of that very name.
proof fn lemma_find_typedef(p: &Program, name: Seq<char>, j: int)
    ensures
        find_typedef(p, name, j) matches Some(i) ==> j <= i < p.statements.len() && (
        p.statements[i] matches Statement::StatementTypeDef(td) && td.identifier@ == name),
    decreases p.statements.len() - j,
{
    if j < 0 || j >= p.statements.len() {
    } else {
        lemma_find_typedef(p, name, j + 1);
    }
}

/// Where some slot carries the name, a first such slot exists.
proof fn lemma_exists_first_slot(ms: Seq<MethodSlotV>, name: Seq<char>, w: int)
    requires
        0 <= w < ms.len(),
        ms[w].name == name,
    ensures
        exists|i: int|
            0 <= i < ms.len() && #[trigger] ms[i].name == name && (forall|m: int|
                0 <= m < i ==> ms[m].name != name),
    decreases w,
{
    if forall|m: int| 0 <= m < w ==> ms[m].name != name {
        assert(0 <= w < ms.len() && ms[w].name == name && (forall|m: int|
            0 <= m < w ==> ms[m].name != name));
    } else {
        let m = choose|m: int| 0 <= m < w && #[trigger] ms[m].name == name;
        lemma_exists_first_slot(ms, name, m);
    }
}

/// What `slot_of` returns is in range and carries the name.
proof fn lemma_slot_of_props(ms: Seq<MethodSlotV>, name: Seq<char>)
    ensures
        slot_of(ms, name) matches Some(k) ==> 0 <= k < ms.len() && ms[k].name == name,
{
    if exists|i: int| 0 <= i < ms.len() && ms[i].name == name {
        let w = choose|i: int| 0 <= i < ms.len() && ms[i].name == name;
        lemma_exists_first_slot(ms, name, w);
    }
}

/// Names at already-assigned slots survive an override-or-append merge.
proof fn lemma_merge_preserves_slots(
    acc: Seq<MethodSlotV>,
    tname: Seq<char>,
    ms: &Vec<TypeMember>,
    i: int,
)
    ensures
        merge_methods(acc, tname, ms, i).len() >= acc.len(),
        forall|k: int|
            0 <= k < acc.len() ==> #[trigger] merge_methods(acc, tname, ms, i)[k].name
                == acc[k].name,
    decreases ms.len() - i,
{
    if i < 0 || i >= ms.len() {
    } else {
        match &ms[i] {
            TypeMember::Method(m) => {
                lemma_slot_of_props(acc, m.name@);
                match slot_of(acc, m.name@) {
                    Some(k) => {
                        assert(0 <= k < acc.len() && acc[k].name == m.name@);
                        let acc2 = acc.update(k, slot_v(tname, m));
                        assert(forall|j: int|
                            0 <= j < acc.len() ==> #[trigger] acc2[j].name == acc[j].name);
                        lemma_merge_preserves_slots(acc2, tname, ms, i + 1);
                    },
                    None => {
                        let acc2 = acc.push(slot_v(tname, m));
                        assert(forall|j: int|
                            0 <= j < acc.len() ==> #[trigger] acc2[j].name == acc[j].name);
                        lemma_merge_preserves_slots(acc2, tname, ms, i + 1);
                    },
                }
            },
            TypeMember::Property(_) => {
                lemma_merge_preserves_slots(acc, tname, ms, i + 1);
            },
        }
    }
}

/// Law: method slot assignment is monotone along the inheritance chain — a
/// method at slot `k` of the parent keeps slot `k` in every child, whether
/// inherited or overridden.
pub proof fn lemma_method_slots_monotone(c: GCtx, td: &TypeDef, pn: Seq<char>)
    requires
        td.parent is Some,
        td.parent.unwrap()@ == pn,
        c.types.contains_key(pn),
    ensures
        ({
            let child = t_table(c, td).types[td.identifier@];
            let parent = c.types[pn];
            &&& child.methods.len() >= parent.methods.len()
            &&& forall|k: int|
                0 <= k < parent.methods.len() ==> #[trigger] child.methods[k].name
                    == parent.methods[k].name
        }),
{
    let parent = c.types[pn];
    lemma_merge_preserves_slots(parent.methods, td.identifier@, &td.members, 0);
}

} // verus!

verus! {

/// Law: registering every declared type keeps the super-vtable at one entry
/// per type and the type-ids dense and unique on `[0, N)`, as long as the
/// registration budget stays within the machine limit.
pub proof fn lemma_registration_all(c: GCtx, p: &Program, i: int)
    requires
        registry_invariant(c),
        c.count_types + sat_plus(p.statements.len() as nat, 1) * (p.statements.len() - i)
            <= usize::MAX,
    ensures
        registry_invariant(init_tables_from(c, p, i)),
    decreases p.statements.len() - i,
{
    if i < 0 || i >= p.statements.len() {
    } else {
        let fuel = sat_plus(p.statements.len() as nat, 1);
        let remaining = p.statements.len() - i;
        assert(fuel * remaining >= fuel * 1 && fuel * remaining == fuel * (remaining - 1) + fuel)
            by (nonlinear_arith)
            requires
                remaining >= 1,
        ;
        let c2 = match &p.statements[i] {
            Statement::StatementTypeDef(td) => {
                lemma_registration_walk(c, p, td.identifier@, fuel);
                ensure_processed(c, p, td.identifier@, fuel)
            },
            _ => c,
        };
        lemma_registration_all(c2, p, i + 1);
    }
}

} // verus!
