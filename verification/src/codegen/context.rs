//! Mutable state accumulated while emitting IR: generated lines, globals, the
//! string-literal pool, counters, the register scope stack, and the per-type
//! layout tables that field access and dynamic dispatch rely on.

use vstd::prelude::*;
use crate::strmap::{clone_string, str_eq, StrMap};
use crate::text::{dec_str, escaped, fmt_usize, sat_inc, escape_text};

verus! {

broadcast use vstd::std_specs::vec::axiom_vec_index_decreases;

/// The three value categories the emitter distinguishes.
#[derive(Clone, Copy, PartialEq, Eq, Structural, Debug)]
pub enum CtxType {
    Double,
    Boolean,
    String,
}

/// The register and LLVM type a name resolves to.
#[derive(Debug)]
pub struct VarInfo {
    pub temp_var: String,
    pub var_type: String,
}

/// One vtable slot: the method, its emitted function, and its signature.
pub struct MethodSlot {
    pub name: String,
    pub llvm_name: String,
    pub param_types: Vec<String>,
    pub return_type: String,
}

#[verifier::ext_equal]
pub ghost struct MethodSlotV {
    pub name: Seq<char>,
    pub llvm_name: Seq<char>,
    pub param_types: Seq<Seq<char>>,
    pub return_type: Seq<char>,
}

impl View for MethodSlot {
    type V = MethodSlotV;

    open spec fn view(&self) -> MethodSlotV {
        MethodSlotV {
            name: self.name@,
            llvm_name: self.llvm_name@,
            param_types: self.param_types.deep_view(),
            return_type: self.return_type@,
        }
    }
}

impl DeepView for MethodSlot {
    type V = MethodSlotV;

    open spec fn deep_view(&self) -> MethodSlotV {
        self.view()
    }
}

impl MethodSlot {
    /// An equal copy of the slot.
    pub fn duplicate(&self) -> (r: Self)
        ensures
            r@ == self@,
    {
        let r = MethodSlot {
            name: clone_string(&self.name),
            llvm_name: clone_string(&self.llvm_name),
            param_types: clone_strings(&self.param_types),
            return_type: clone_string(&self.return_type),
        };
        r
    }
}

/// The layout of one emitted type: its parent, constructor parameter types,
/// flattened fields (parent's first), vtable slots, and dense type-id.
pub struct TypeLayout {
    pub parent: Option<String>,
    pub ctor_params: Vec<String>,
    pub members: Vec<(String, String)>,
    pub methods: Vec<MethodSlot>,
    pub type_id: usize,
}

#[verifier::ext_equal]
pub ghost struct TypeLayoutV {
    pub parent: Option<Seq<char>>,
    pub ctor_params: Seq<Seq<char>>,
    pub members: Seq<(Seq<char>, Seq<char>)>,
    pub methods: Seq<MethodSlotV>,
    pub type_id: nat,
}

impl View for TypeLayout {
    type V = TypeLayoutV;

    open spec fn view(&self) -> TypeLayoutV {
        TypeLayoutV {
            parent: match self.parent {
                Some(ref p) => Some(p@),
                None => None,
            },
            ctor_params: self.ctor_params.deep_view(),
            members: self.members.deep_view(),
            methods: self.methods.deep_view(),
            type_id: self.type_id as nat,
        }
    }
}

/// The return type a declared function was emitted with.
pub struct RetInfo {
    pub llvm_type: String,
    pub lang_type: String,
}

impl View for RetInfo {
    type V = (Seq<char>, Seq<char>);

    open spec fn view(&self) -> (Seq<char>, Seq<char>) {
        (self.llvm_type@, self.lang_type@)
    }
}

/// One saved register scope: LLVM types and language types by register.
pub(crate) struct SavedVars {
    pub(crate) vars: StrMap<String>,
    pub(crate) langs: StrMap<String>,
}

impl View for SavedVars {
    type V = (Map<Seq<char>, Seq<char>>, Map<Seq<char>, Seq<char>>);

    closed spec fn view(&self) -> (Map<Seq<char>, Seq<char>>, Map<Seq<char>, Seq<char>>) {
        (self.vars@, self.langs@)
    }
}

impl DeepView for SavedVars {
    type V = (Map<Seq<char>, Seq<char>>, Map<Seq<char>, Seq<char>>);

    closed spec fn deep_view(&self) -> (Map<Seq<char>, Seq<char>>, Map<Seq<char>, Seq<char>>) {
        self.view()
    }
}

/// The mathematical value of the whole emission state.
#[verifier::ext_equal]
pub ghost struct GCtx {
    pub lines: Seq<Seq<char>>,
    pub globals: Seq<Seq<char>>,
    pub global_consts: Seq<Seq<char>>,
    pub string_consts: Seq<Seq<char>>,
    pub str_counter: nat,
    pub temp_counter: nat,
    pub ctx_id: nat,
    pub scope_id: nat,
    pub temp_types: Map<Seq<char>, Seq<char>>,
    pub string_lits: Map<Seq<char>, Seq<char>>,
    pub next_str_lit: nat,
    pub vars: Map<Seq<char>, Seq<char>>,
    pub langs: Map<Seq<char>, Seq<char>>,
    pub saved_vars: Seq<(Map<Seq<char>, Seq<char>>, Map<Seq<char>, Seq<char>>)>,
    pub types: Map<Seq<char>, TypeLayoutV>,
    pub rets: Map<Seq<char>, (Seq<char>, Seq<char>)>,
    pub current_self: Option<Seq<char>>,
    pub current_method: Option<Seq<char>>,
    pub max_vtable: nat,
    pub count_types: nat,
    pub type_ids: Map<Seq<char>, usize>,
    pub vtables: Seq<Seq<char>>,
    pub current_block: Seq<char>,
}

/// One generated line appended.
pub open spec fn g_line(c: GCtx, l: Seq<char>) -> GCtx {
    GCtx { lines: c.lines.push(l), ..c }
}

/// The emission state as code generation begins.
pub open spec fn initial_gctx() -> GCtx {
    GCtx {
        lines: Seq::empty(),
        globals: Seq::empty(),
        global_consts: Seq::empty(),
        string_consts: Seq::empty(),
        str_counter: 0,
        temp_counter: 1,
        ctx_id: 1,
        scope_id: 0,
        temp_types: Map::empty(),
        string_lits: Map::empty(),
        next_str_lit: 0,
        vars: Map::empty(),
        langs: Map::empty(),
        saved_vars: Seq::empty(),
        types: Map::empty(),
        rets: Map::empty(),
        current_self: None,
        current_method: None,
        max_vtable: 0,
        count_types: 0,
        type_ids: Map::empty(),
        vtables: Seq::empty(),
        current_block: "entry"@,
    }
}

/// The mutable emission context.
pub struct CodegenCtx {
    pub generated_lines: Vec<String>,
    pub global_vars: Vec<String>,
    pub(crate) global_consts: Vec<String>,
    pub string_consts: Vec<String>,
    pub string_const_counter: usize,
    pub temp_var_counter: usize,
    pub ctx_id: usize,
    pub(crate) scope_counter: usize,
    pub(crate) temp_var_types: StrMap<String>,
    pub(crate) string_literals_map: StrMap<String>,
    pub next_str_lit_id: usize,
    pub(crate) scoped_vars: StrMap<String>,
    pub(crate) scoped_langs: StrMap<String>,
    pub(crate) scopes_stack: Vec<SavedVars>,
    pub(crate) types_info: StrMap<TypeLayout>,
    pub(crate) func_rets: StrMap<RetInfo>,
    pub current_self_type: Option<String>,
    pub current_method_name: Option<String>,
    pub max_vtable_funcs: usize,
    pub defined_types_count: usize,
    pub(crate) type_ids: StrMap<usize>,
    pub vtables_per_type: Vec<String>,
    pub(crate) current_block: String,
}

pub open spec fn opt_seq(o: &Option<String>) -> Option<Seq<char>> {
    match o {
        Some(s) => Some(s@),
        None => None,
    }
}

impl View for CodegenCtx {
    type V = GCtx;

    closed spec fn view(&self) -> GCtx {
        GCtx {
            lines: self.generated_lines.deep_view(),
            globals: self.global_vars.deep_view(),
            global_consts: self.global_consts.deep_view(),
            string_consts: self.string_consts.deep_view(),
            str_counter: self.string_const_counter as nat,
            temp_counter: self.temp_var_counter as nat,
            ctx_id: self.ctx_id as nat,
            scope_id: self.scope_counter as nat,
            temp_types: self.temp_var_types@,
            string_lits: self.string_literals_map@,
            next_str_lit: self.next_str_lit_id as nat,
            vars: self.scoped_vars@,
            langs: self.scoped_langs@,
            saved_vars: self.scopes_stack.deep_view(),
            types: self.types_info@,
            rets: self.func_rets@,
            current_self: opt_seq(&self.current_self_type),
            current_method: opt_seq(&self.current_method_name),
            max_vtable: self.max_vtable_funcs as nat,
            count_types: self.defined_types_count as nat,
            type_ids: self.type_ids@,
            vtables: self.vtables_per_type.deep_view(),
            current_block: self.current_block@,
        }
    }
}

impl CodegenCtx {
    pub closed spec fn wf(&self) -> bool {
        &&& self.temp_var_types.wf()
        &&& self.string_literals_map.wf()
        &&& self.scoped_vars.wf()
        &&& self.scoped_langs.wf()
        &&& self.types_info.wf()
        &&& self.func_rets.wf()
        &&& self.type_ids.wf()
        &&& forall|i: int|
            0 <= i < self.scopes_stack@.len() ==> (#[trigger] self.scopes_stack@[i]).vars.wf()
                && self.scopes_stack@[i].langs.wf()
    }

    /// A fresh context with counters at their starting values.
    pub fn new() -> (r: Self)
        ensures
            r@ == initial_gctx(),
            r.wf(),
    {
        let r = CodegenCtx {
            generated_lines: Vec::new(),
            global_vars: Vec::new(),
            global_consts: Vec::new(),
            string_consts: Vec::new(),
            string_const_counter: 0,
            temp_var_counter: 1,
            ctx_id: 1,
            scope_counter: 0,
            temp_var_types: StrMap::new(),
            string_literals_map: StrMap::new(),
            next_str_lit_id: 0,
            scoped_vars: StrMap::new(),
            scoped_langs: StrMap::new(),
            scopes_stack: Vec::new(),
            types_info: StrMap::new(),
            func_rets: StrMap::new(),
            current_self_type: None,
            current_method_name: None,
            max_vtable_funcs: 0,
            defined_types_count: 0,
            type_ids: StrMap::new(),
            vtables_per_type: Vec::new(),
            current_block: String::from_str("entry"),
        };
        proof {
            assert(r@ =~= initial_gctx());
        }
        r
    }

    /// Appends one line of generated code.
    pub fn append_line(&mut self, line: String)
        requires
            old(self).wf(),
        ensures
            final(self)@ == g_line(old(self)@, line@),
            final(self).wf(),
    {
        let ghost pre = self.generated_lines.deep_view();
        let ghost lv = line@;
        self.generated_lines.push(line);
        proof {
            assert(self.generated_lines.deep_view() =~= pre.push(lv));
            assert(self@ =~= g_line(old(self)@, lv));
        }
    }

    /// A fresh temporary register, recorded at the given language type.
    pub fn fresh_temp_var(&mut self, var_type: String) -> (r: String)
        requires
            old(self).wf(),
        ensures
            r@ == "%"@ + dec_str(old(self)@.temp_counter),
            final(self)@ == (GCtx {
                temp_counter: sat_inc(old(self)@.temp_counter),
                temp_types: old(self)@.temp_types.insert(r@, var_type@),
                ..old(self)@
            }),
            final(self).wf(),
    {
        let mut name = String::from_str("%");
        name.append(fmt_usize(self.temp_var_counter).as_str());
        if self.temp_var_counter < usize::MAX {
            self.temp_var_counter = self.temp_var_counter + 1;
        }
        let ghost nv = name@;
        let ghost tv = var_type@;
        let out = clone_string(&name);
        self.temp_var_types.insert(name, var_type);
        proof {
            assert(self@ =~= (GCtx {
                temp_counter: sat_inc(old(self)@.temp_counter),
                temp_types: old(self)@.temp_types.insert(nv, tv),
                ..old(self)@
            }));
        }
        out
    }

    /// Takes the pending globals followed by the pending body lines.
    pub fn take_generated(&mut self) -> (r: Vec<String>)
        requires
            old(self).wf(),
        ensures
            r.deep_view() == old(self)@.globals + old(self)@.lines,
            final(self)@ == (GCtx { globals: Seq::empty(), lines: Seq::empty(), ..old(self)@ }),
            final(self).wf(),
    {
        let mut out: Vec<String> = Vec::new();
        out.append(&mut self.global_vars);
        out.append(&mut self.generated_lines);
        proof {
            assert(out.deep_view() =~= old(self)@.globals + old(self)@.lines);
            assert(self.global_vars.deep_view() =~= Seq::<Seq<char>>::empty());
            assert(self.generated_lines.deep_view() =~= Seq::<Seq<char>>::empty());
            assert(self@ =~= (GCtx { globals: Seq::empty(), lines: Seq::empty(), ..old(self)@ }));
        }
        out
    }

    /// Records a name as a global constant, once.
    pub fn add_global_const(&mut self, name: &str)
        requires
            old(self).wf(),
        ensures
            final(self)@ == (GCtx {
                global_consts: if old(self)@.global_consts.contains(name@) {
                    old(self)@.global_consts
                } else {
                    old(self)@.global_consts.push(name@)
                },
                ..old(self)@
            }),
            final(self).wf(),
    {
        if !self.is_global_const(name) {
            let ghost pre = self.global_consts.deep_view();
            self.global_consts.push(String::from_str(name));
            proof {
                assert(self.global_consts.deep_view() =~= pre.push(name@));
                assert(self@ =~= (GCtx {
                    global_consts: old(self)@.global_consts.push(name@),
                    ..old(self)@
                }));
            }
        } else {
            proof {
                assert(self@ =~= old(self)@);
            }
        }
    }

    /// Whether the name was recorded as a global constant.
    pub fn is_global_const(&self, name: &str) -> (r: bool)
        ensures
            r == self@.global_consts.contains(name@),
    {
        let n = self.global_consts.len();
        let mut j: usize = 0;
        while j < n
            invariant
                n == self.global_consts.len(),
                j <= n,
                forall|m: int| 0 <= m < j ==> self@.global_consts[m] != name@,
            decreases n - j,
        {
            if str_eq(self.global_consts[j].as_str(), name) {
                proof {
                    assert(self@.global_consts[j as int] == name@);
                }
                return true;
            }
            j += 1;
        }
        proof {
            if self@.global_consts.contains(name@) {
                let w = choose|w: int|
                    0 <= w < self@.global_consts.len() && self@.global_consts[w] == name@;
                assert(self@.global_consts[w] != name@);
            }
        }
        false
    }

    /// Takes the pending globals.
    pub fn take_globals(&mut self) -> (r: Vec<String>)
        requires
            old(self).wf(),
        ensures
            r.deep_view() == old(self)@.globals,
            final(self)@ == (GCtx { globals: Seq::empty(), ..old(self)@ }),
            final(self).wf(),
    {
        let mut out: Vec<String> = Vec::new();
        out.append(&mut self.global_vars);
        proof {
            assert(out.deep_view() =~= old(self)@.globals);
            assert(self@ =~= (GCtx { globals: Seq::empty(), ..old(self)@ }));
        }
        out
    }

    /// Takes the pending body lines.
    pub fn take_body(&mut self) -> (r: Vec<String>)
        requires
            old(self).wf(),
        ensures
            r.deep_view() == old(self)@.lines,
            final(self)@ == (GCtx { lines: Seq::empty(), ..old(self)@ }),
            final(self).wf(),
    {
        let mut out: Vec<String> = Vec::new();
        out.append(&mut self.generated_lines);
        proof {
            assert(out.deep_view() =~= old(self)@.lines);
            assert(self@ =~= (GCtx { lines: Seq::empty(), ..old(self)@ }));
        }
        out
    }

    /// The language type a temporary was recorded at.
    pub fn get_temp_var_type(&mut self, temp: &str) -> (r: String)
        requires
            old(self).wf(),
            old(self)@.temp_types.contains_key(temp@),
        ensures
            r@ == old(self)@.temp_types[temp@],
            final(self)@ == old(self)@,
            final(self).wf(),
    {
        match self.temp_var_types.get(temp) {
            Some(t) => clone_string(t),
            None => String::new(),
        }
    }

    /// Whether a temporary holds a `Boolean`.
    pub fn is_bool_type(&mut self, name: &str) -> (r: bool)
        requires
            old(self).wf(),
            old(self)@.temp_types.contains_key(name@),
        ensures
            r == (old(self)@.temp_types[name@] == "Boolean"@),
            final(self)@ == old(self)@,
            final(self).wf(),
    {
        let t = self.get_temp_var_type(name);
        str_eq(t.as_str(), "Boolean")
    }

    /// Whether a temporary holds a `String`.
    pub fn is_string_type(&mut self, name: &str) -> (r: bool)
        requires
            old(self).wf(),
            old(self)@.temp_types.contains_key(name@),
        ensures
            r == (old(self)@.temp_types[name@] == "String"@),
            final(self)@ == old(self)@,
            final(self).wf(),
    {
        let t = self.get_temp_var_type(name);
        str_eq(t.as_str(), "String")
    }

    /// Opens a register scope: a deeper scope id, current bindings saved.
    pub fn push_scope(&mut self)
        requires
            old(self).wf(),
        ensures
            final(self)@ == (GCtx {
                scope_id: sat_inc(old(self)@.scope_id),
                saved_vars: old(self)@.saved_vars.push((old(self)@.vars, old(self)@.langs)),
                ..old(self)@
            }),
            final(self).wf(),
    {
        if self.scope_counter < usize::MAX {
            self.scope_counter = self.scope_counter + 1;
        }
        let ghost pre = self.scopes_stack.deep_view();
        let saved = SavedVars { vars: self.scoped_vars.copy_of(), langs: self.scoped_langs.copy_of() };
        proof {
            assert(saved@ == (old(self)@.vars, old(self)@.langs));
        }
        self.scopes_stack.push(saved);
        proof {
            assert(self.scopes_stack.deep_view() =~= pre.push((old(self)@.vars, old(self)@.langs)));
            assert(self@ =~= (GCtx {
                scope_id: sat_inc(old(self)@.scope_id),
                saved_vars: old(self)@.saved_vars.push((old(self)@.vars, old(self)@.langs)),
                ..old(self)@
            }));
        }
    }

    /// Closes a register scope, restoring the saved bindings; the scope id is
    /// never reused.
    pub fn pop_scope(&mut self)
        requires
            old(self).wf(),
        ensures
            final(self)@ == (GCtx {
                vars: if old(self)@.saved_vars.len() > 0 {
                    old(self)@.saved_vars.last().0
                } else {
                    Map::empty()
                },
                langs: if old(self)@.saved_vars.len() > 0 {
                    old(self)@.saved_vars.last().1
                } else {
                    Map::empty()
                },
                saved_vars: if old(self)@.saved_vars.len() > 0 {
                    old(self)@.saved_vars.drop_last()
                } else {
                    old(self)@.saved_vars
                },
                ..old(self)@
            }),
            final(self).wf(),
    {
        let ghost pre = self.scopes_stack.deep_view();
        match self.scopes_stack.pop() {
            Some(saved) => {
                self.scoped_vars = saved.vars;
                self.scoped_langs = saved.langs;
                proof {
                    assert(old(self).scopes_stack@[old(self).scopes_stack@.len() - 1].vars.wf());
                    assert(old(self).scopes_stack@[old(self).scopes_stack@.len() - 1].langs.wf());
                    assert(self.scopes_stack.deep_view() =~= pre.drop_last());
                }
            },
            None => {
                self.scoped_vars = StrMap::new();
                self.scoped_langs = StrMap::new();
                proof {
                    assert(pre.len() == 0);
                }
            },
        }
    }

    /// The current scope id.
    pub fn current_scope_id(&self) -> (r: usize)
        ensures
            r as nat == self@.scope_id,
    {
        self.scope_counter
    }

    /// Interns a string literal: one deduplicated global per distinct text.
    pub fn add_string_literal(&mut self, value: &str) -> (r: String)
        requires
            old(self).wf(),
        ensures
            ({
                let c = old(self)@;
                if c.string_lits.contains_key(value@) {
                    r@ == c.string_lits[value@] && final(self)@ == c
                } else {
                    r@ == str_lit_name(c.next_str_lit) && final(self)@ == (GCtx {
                        next_str_lit: sat_inc(c.next_str_lit),
                        globals: c.globals.push(str_lit_global(c.next_str_lit, value@)),
                        string_lits: c.string_lits.insert(value@, str_lit_name(c.next_str_lit)),
                        ..c
                    })
                }
            }),
            final(self).wf(),
    {
        let existing = match self.string_literals_map.get(value) {
            Some(n) => Some(clone_string(n)),
            None => None,
        };
        match existing {
            Some(n) => n,
            None => {
                let esc = escape_text(value);
                let mut name = String::from_str("@.str.");
                name.append(fmt_usize(self.next_str_lit_id).as_str());
                let count = esc.unicode_len();
                let total = if count < usize::MAX {
                    count + 1
                } else {
                    count
                };
                let mut global = clone_string(&name);
                global.append(" = private unnamed_addr constant [");
                global.append(fmt_usize(total).as_str());
                global.append(" x i8] c\"");
                global.append(esc.as_str());
                global.append("\\00\"");
                if self.next_str_lit_id < usize::MAX {
                    self.next_str_lit_id = self.next_str_lit_id + 1;
                }
                let ghost pre = self.global_vars.deep_view();
                let ghost gv = global@;
                self.global_vars.push(global);
                proof {
                    assert(self.global_vars.deep_view() =~= pre.push(gv));
                }
                let out = clone_string(&name);
                self.string_literals_map.insert(String::from_str(value), name);
                out
            },
        }
    }

    /// Adds a string constant line under a fresh `@.str.N` name.
    pub fn add_string_const(&mut self, value: String, len: usize) -> (r: String)
        requires
            old(self).wf(),
        ensures
            ({
                let c = old(self)@;
                let line = str_const_line(c.str_counter, value@, len as nat);
                r@ == str_lit_name(c.str_counter) && final(self)@ == (GCtx {
                    str_counter: sat_inc(c.str_counter),
                    string_consts: if c.string_consts.contains(line) {
                        c.string_consts
                    } else {
                        c.string_consts.push(line)
                    },
                    ..c
                })
            }),
            final(self).wf(),
    {
        let mut name = String::from_str("@.str.");
        name.append(fmt_usize(self.string_const_counter).as_str());
        let esc = escape_text(value.as_str());
        let total = if len < usize::MAX {
            len + 1
        } else {
            len
        };
        let mut line = clone_string(&name);
        line.append(" = private unnamed_addr constant [");
        line.append(fmt_usize(total).as_str());
        line.append(" x i8] c\"");
        line.append(esc.as_str());
        line.append("\\00\"");
        if self.string_const_counter < usize::MAX {
            self.string_const_counter = self.string_const_counter + 1;
        }
        let ghost lv = line@;
        if !self.string_const_present(line.as_str()) {
            let ghost pre = self.string_consts.deep_view();
            self.string_consts.push(line);
            proof {
                assert(self.string_consts.deep_view() =~= pre.push(lv));
            }
        }
        name
    }

    fn string_const_present(&self, line: &str) -> (r: bool)
        ensures
            r == self@.string_consts.contains(line@),
    {
        let n = self.string_consts.len();
        let mut j: usize = 0;
        while j < n
            invariant
                n == self.string_consts.len(),
                j <= n,
                forall|m: int| 0 <= m < j ==> self@.string_consts[m] != line@,
            decreases n - j,
        {
            if str_eq(self.string_consts[j].as_str(), line) {
                proof {
                    assert(self@.string_consts[j as int] == line@);
                }
                return true;
            }
            j += 1;
        }
        proof {
            if self@.string_consts.contains(line@) {
                let w = choose|w: int|
                    0 <= w < self@.string_consts.len() && self@.string_consts[w] == line@;
                assert(self@.string_consts[w] != line@);
            }
        }
        false
    }

    /// Appends a global declaration line.
    pub fn add_global_decl(&mut self, decl: String)
        requires
            old(self).wf(),
        ensures
            final(self)@ == (GCtx { globals: old(self)@.globals.push(decl@), ..old(self)@ }),
            final(self).wf(),
    {
        let ghost pre = self.global_vars.deep_view();
        let ghost dv = decl@;
        self.global_vars.push(decl);
        proof {
            assert(self.global_vars.deep_view() =~= pre.push(dv));
            assert(self@ =~= (GCtx { globals: old(self)@.globals.push(dv), ..old(self)@ }));
        }
    }

    /// Records a register's LLVM type.
    pub fn add_var(&mut self, name: String, var_type: String)
        requires
            old(self).wf(),
        ensures
            final(self)@ == (GCtx { vars: old(self)@.vars.insert(name@, var_type@), ..old(self)@ }),
            final(self).wf(),
    {
        let ghost nv = name@;
        let ghost tv = var_type@;
        self.scoped_vars.insert(name, var_type);
        proof {
            assert(self@ =~= (GCtx { vars: old(self)@.vars.insert(nv, tv), ..old(self)@ }));
        }
    }

    /// Records a register's language type.
    pub fn add_var_lang(&mut self, name: String, lang_type: String)
        requires
            old(self).wf(),
        ensures
            final(self)@ == (GCtx {
                langs: old(self)@.langs.insert(name@, lang_type@),
                ..old(self)@
            }),
            final(self).wf(),
    {
        let ghost nv = name@;
        let ghost tv = lang_type@;
        self.scoped_langs.insert(name, lang_type);
        proof {
            assert(self@ =~= (GCtx { langs: old(self)@.langs.insert(nv, tv), ..old(self)@ }));
        }
    }

    /// The register a source name resolves to: the nearest enclosing scope
    /// whose decorated register is bound.
    pub fn get_var(&self, name: String) -> (r: String)
        requires
            self.wf(),
            resolve_reg(self@.vars, name@, self@.scope_id as int) is Some,
        ensures
            Some(r@) == resolve_reg(self@.vars, name@, self@.scope_id as int),
    {
        match self.lookup_var(name.as_str()) {
            Some(info) => info.temp_var,
            None => String::new(),
        }
    }

    /// Total resolution: the register and its LLVM type, or nothing.
    pub fn lookup_var(&self, name: &str) -> (r: Option<VarInfo>)
        requires
            self.wf(),
        ensures
            match r {
                Some(info) => resolve_reg(self@.vars, name@, self@.scope_id as int) == Some(
                    info.temp_var@,
                ) && self@.vars.contains_key(info.temp_var@) && info.var_type@ == self@.vars[
                    info.temp_var@
                ],
                None => resolve_reg(self@.vars, name@, self@.scope_id as int) is None,
            },
    {
        let mut k = self.scope_counter;
        loop
            invariant
                self.wf(),
                k <= self.scope_counter,
                resolve_reg(self@.vars, name@, k as int) == resolve_reg(
                    self@.vars,
                    name@,
                    self@.scope_id as int,
                ),
            decreases k,
        {
            let mut reg = String::from_str("%");
            reg.append(name);
            reg.append(".");
            reg.append(fmt_usize(k).as_str());
            let found = match self.scoped_vars.get(reg.as_str()) {
                Some(t) => Some(clone_string(t)),
                None => None,
            };
            match found {
                Some(t) => {
                    return Some(VarInfo { temp_var: reg, var_type: t });
                },
                None => {},
            }
            if k == 0 {
                return None;
            }
            k = k - 1;
        }
    }

    /// The language type a register was recorded at, or `Unknown`.
    pub fn lookup_lang(&self, reg: &str) -> (r: String)
        requires
            self.wf(),
        ensures
            r@ == if self@.langs.contains_key(reg@) {
                self@.langs[reg@]
            } else {
                "Unknown"@
            },
    {
        match self.scoped_langs.get(reg) {
            Some(t) => clone_string(t),
            None => String::from_str("Unknown"),
        }
    }

    /// A fresh label / block id.
    pub fn fresh_id(&mut self) -> (r: usize)
        requires
            old(self).wf(),
        ensures
            r as nat == old(self)@.ctx_id,
            final(self)@ == (GCtx { ctx_id: sat_inc(old(self)@.ctx_id), ..old(self)@ }),
            final(self).wf(),
    {
        let id = self.ctx_id;
        if self.ctx_id < usize::MAX {
            self.ctx_id = self.ctx_id + 1;
        }
        proof {
            assert(self@ =~= (GCtx { ctx_id: sat_inc(old(self)@.ctx_id), ..old(self)@ }));
        }
        id
    }

    /// Opens a labelled basic block: the label line, and the block remembered
    /// as the current one for `phi` predecessors.
    pub fn start_block(&mut self, label: String)
        requires
            old(self).wf(),
        ensures
            final(self)@ == (GCtx {
                lines: old(self)@.lines.push(label@ + ":"@),
                current_block: label@,
                ..old(self)@
            }),
            final(self).wf(),
    {
        let ghost lv = label@;
        let mut line = clone_string(&label);
        line.append(":");
        self.append_line(line);
        self.current_block = label;
        proof {
            assert(self@ =~= (GCtx {
                lines: old(self)@.lines.push(lv + ":"@),
                current_block: lv,
                ..old(self)@
            }));
        }
    }

    /// The label of the block currently being filled.
    pub fn block_label(&self) -> (r: String)
        ensures
            r@ == self@.current_block,
    {
        clone_string(&self.current_block)
    }

    /// The number of types registered so far.
    pub fn types_count(&self) -> (r: usize)
        ensures
            r as nat == self@.count_types,
    {
        self.defined_types_count
    }

    /// The widest vtable seen so far.
    pub fn max_vtable_width(&self) -> (r: usize)
        ensures
            r as nat == self@.max_vtable,
    {
        self.max_vtable_funcs
    }

    /// Appends one per-type vtable name, in type-id order.
    pub fn push_vtable(&mut self, name: String)
        requires
            old(self).wf(),
        ensures
            final(self)@ == (GCtx { vtables: old(self)@.vtables.push(name@), ..old(self)@ }),
            final(self).wf(),
    {
        let ghost pre = self.vtables_per_type.deep_view();
        let ghost nv = name@;
        self.vtables_per_type.push(name);
        proof {
            assert(self.vtables_per_type.deep_view() =~= pre.push(nv));
            assert(self@ =~= (GCtx { vtables: old(self)@.vtables.push(nv), ..old(self)@ }));
        }
    }

    /// Counts one more registered type.
    pub fn bump_type_count(&mut self)
        requires
            old(self).wf(),
        ensures
            final(self)@ == (GCtx {
                count_types: sat_inc(old(self)@.count_types),
                ..old(self)@
            }),
            final(self).wf(),
    {
        if self.defined_types_count < usize::MAX {
            self.defined_types_count = self.defined_types_count + 1;
        }
        proof {
            assert(self@ =~= (GCtx {
                count_types: sat_inc(old(self)@.count_types),
                ..old(self)@
            }));
        }
    }

    /// Widens the vtable width to at least `n`.
    pub fn raise_max_vtable(&mut self, n: usize)
        requires
            old(self).wf(),
        ensures
            final(self)@ == (GCtx {
                max_vtable: if n as nat > old(self)@.max_vtable {
                    n as nat
                } else {
                    old(self)@.max_vtable
                },
                ..old(self)@
            }),
            final(self).wf(),
    {
        if n > self.max_vtable_funcs {
            self.max_vtable_funcs = n;
        }
        proof {
            assert(self@ =~= (GCtx {
                max_vtable: if n as nat > old(self)@.max_vtable {
                    n as nat
                } else {
                    old(self)@.max_vtable
                },
                ..old(self)@
            }));
        }
    }

    /// The type whose methods are being emitted, if any.
    pub fn current_self(&self) -> (r: Option<String>)
        ensures
            opt_seq(&r) == self@.current_self,
    {
        match &self.current_self_type {
            Some(s) => Some(clone_string(s)),
            None => None,
        }
    }

    /// Sets the type whose methods are being emitted.
    pub fn set_current_self(&mut self, o: Option<String>)
        requires
            old(self).wf(),
        ensures
            final(self)@ == (GCtx { current_self: opt_seq(&o), ..old(self)@ }),
            final(self).wf(),
    {
        let ghost ov = opt_seq(&o);
        self.current_self_type = o;
        proof {
            assert(self@ =~= (GCtx { current_self: ov, ..old(self)@ }));
        }
    }

    /// The method being emitted, if any.
    pub fn current_method(&self) -> (r: Option<String>)
        ensures
            opt_seq(&r) == self@.current_method,
    {
        match &self.current_method_name {
            Some(s) => Some(clone_string(s)),
            None => None,
        }
    }

    /// Sets the method being emitted.
    pub fn set_current_method(&mut self, o: Option<String>)
        requires
            old(self).wf(),
        ensures
            final(self)@ == (GCtx { current_method: opt_seq(&o), ..old(self)@ }),
            final(self).wf(),
    {
        let ghost ov = opt_seq(&o);
        self.current_method_name = o;
        proof {
            assert(self@ =~= (GCtx { current_method: ov, ..old(self)@ }));
        }
    }

    /// Takes the pending string constants.
    pub fn take_string_consts(&mut self) -> (r: Vec<String>)
        requires
            old(self).wf(),
        ensures
            r.deep_view() == old(self)@.string_consts,
            final(self)@ == (GCtx { string_consts: Seq::empty(), ..old(self)@ }),
            final(self).wf(),
    {
        let mut out: Vec<String> = Vec::new();
        out.append(&mut self.string_consts);
        proof {
            assert(out.deep_view() =~= old(self)@.string_consts);
            assert(self@ =~= (GCtx { string_consts: Seq::empty(), ..old(self)@ }));
        }
        out
    }

    /// The per-type vtable names, in type-id order.
    pub fn vtable_names(&self) -> (r: &Vec<String>)
        ensures
            r.deep_view() == self@.vtables,
    {
        &self.vtables_per_type
    }

    /// Records a type's layout.
    pub fn set_type_layout(&mut self, name: String, layout: TypeLayout)
        requires
            old(self).wf(),
            layout.wf(),
        ensures
            final(self)@ == (GCtx {
                types: old(self)@.types.insert(name@, layout@),
                ..old(self)@
            }),
            final(self).wf(),
    {
        let ghost nv = name@;
        let ghost lv = layout@;
        self.types_info.insert(name, layout);
        proof {
            assert(self@ =~= (GCtx { types: old(self)@.types.insert(nv, lv), ..old(self)@ }));
        }
    }

    /// A copy of a type's layout, if recorded.
    pub fn layout_of(&self, name: &str) -> (r: Option<TypeLayout>)
        requires
            self.wf(),
        ensures
            match r {
                Some(l) => self@.types.contains_key(name@) && l@ == self@.types[name@],
                None => !self@.types.contains_key(name@),
            },
    {
        match self.types_info.get(name) {
            Some(l) => Some(l.duplicate()),
            None => None,
        }
    }

    /// Records a type's dense id.
    pub fn set_type_id(&mut self, name: String, id: usize)
        requires
            old(self).wf(),
        ensures
            final(self)@ == (GCtx {
                type_ids: old(self)@.type_ids.insert(name@, id),
                ..old(self)@
            }),
            final(self).wf(),
    {
        let ghost nv = name@;
        self.type_ids.insert(name, id);
        proof {
            assert(self@ =~= (GCtx {
                type_ids: old(self)@.type_ids.insert(nv, id),
                ..old(self)@
            }));
        }
    }

    /// A type's dense id, if assigned.
    pub fn type_id_of(&self, name: &str) -> (r: Option<usize>)
        requires
            self.wf(),
        ensures
            match r {
                Some(id) => self@.type_ids.contains_key(name@) && id == self@.type_ids[name@],
                None => !self@.type_ids.contains_key(name@),
            },
    {
        match self.type_ids.get(name) {
            Some(id) => Some(*id),
            None => None,
        }
    }

    /// Records a declared function's emitted return type.
    pub fn set_func_ret(&mut self, name: String, info: RetInfo)
        requires
            old(self).wf(),
        ensures
            final(self)@ == (GCtx { rets: old(self)@.rets.insert(name@, info@), ..old(self)@ }),
            final(self).wf(),
    {
        let ghost nv = name@;
        let ghost iv = info@;
        self.func_rets.insert(name, info);
        proof {
            assert(self@ =~= (GCtx { rets: old(self)@.rets.insert(nv, iv), ..old(self)@ }));
        }
    }

    /// A declared function's emitted return type, if recorded.
    pub fn func_ret_of(&self, name: &str) -> (r: Option<RetInfo>)
        requires
            self.wf(),
        ensures
            match r {
                Some(info) => self@.rets.contains_key(name@) && info@ == self@.rets[name@],
                None => !self@.rets.contains_key(name@),
            },
    {
        match self.func_rets.get(name) {
            Some(info) => Some(
                RetInfo {
                    llvm_type: clone_string(&info.llvm_type),
                    lang_type: clone_string(&info.lang_type),
                },
            ),
            None => None,
        }
    }
}

impl TypeLayout {
    pub open spec fn wf(&self) -> bool {
        true
    }

    /// An equal copy of the layout.
    pub fn duplicate(&self) -> (r: Self)
        ensures
            r@ == self@,
    {
        let n = self.methods.len();
        let mut methods: Vec<MethodSlot> = Vec::new();
        let mut j: usize = 0;
        while j < n
            invariant
                n == self.methods.len(),
                j <= n,
                methods@.len() == j,
                forall|m: int| 0 <= m < j ==> (#[trigger] methods@[m])@ == self.methods@[m]@,
            decreases n - j,
        {
            methods.push(self.methods[j].duplicate());
            j += 1;
        }
        let mm = self.members.len();
        let mut members: Vec<(String, String)> = Vec::new();
        let mut i: usize = 0;
        while i < mm
            invariant
                mm == self.members.len(),
                i <= mm,
                members@.len() == i,
                forall|m: int| #![all_triggers] 0 <= m < i ==> members@[m].0@ == self.members@[m].0@
                    && members@[m].1@ == self.members@[m].1@,
            decreases mm - i,
        {
            members.push((clone_string(&self.members[i].0), clone_string(&self.members[i].1)));
            i += 1;
        }
        let r = TypeLayout {
            parent: match &self.parent {
                Some(p) => Some(clone_string(p)),
                None => None,
            },
            ctor_params: clone_strings(&self.ctor_params),
            members,
            methods,
            type_id: self.type_id,
        };
        proof {
            assert(r@.methods =~= self@.methods);
            assert(r@.members =~= self@.members);
            assert(r@ =~= self@);
        }
        r
    }
}

/// An equal copy of a list of names.
pub fn clone_strings(v: &Vec<String>) -> (r: Vec<String>)
    ensures
        r.deep_view() == v.deep_view(),
{
    let n = v.len();
    let mut out: Vec<String> = Vec::new();
    let mut j: usize = 0;
    while j < n
        invariant
            n == v.len(),
            j <= n,
            out@.len() == j,
            forall|m: int| 0 <= m < j ==> (#[trigger] out@[m])@ == v@[m]@,
        decreases n - j,
    {
        out.push(clone_string(&v[j]));
        j += 1;
    }
    proof {
        assert(out.deep_view() =~= v.deep_view());
    }
    out
}

/// The interned name of string literal `n`.
pub open spec fn str_lit_name(n: nat) -> Seq<char> {
    "@.str."@ + dec_str(n)
}

/// The global line that defines string literal `n` with the given text.
pub open spec fn str_lit_global(n: nat, value: Seq<char>) -> Seq<char> {
    str_lit_name(n) + " = private unnamed_addr constant ["@ + dec_str(sat_inc(escaped(value).len()))
        + " x i8] c\""@ + escaped(value) + "\\00\""@
}

/// The constant line `add_string_const` emits for the given text and length.
pub open spec fn str_const_line(n: nat, value: Seq<char>, len: nat) -> Seq<char> {
    str_lit_name(n) + " = private unnamed_addr constant ["@ + dec_str(sat_inc(len)) + " x i8] c\""@
        + escaped(value) + "\\00\""@
}

/// The register a decorated name takes in a scope.
pub open spec fn reg_name(name: Seq<char>, k: int) -> Seq<char> {
    "%"@ + name + "."@ + dec_str(k as nat)
}

/// Resolution of a source name: the innermost scope whose decorated register
/// is bound.
pub open spec fn resolve_reg(vars: Map<Seq<char>, Seq<char>>, name: Seq<char>, k: int) -> Option<
    Seq<char>,
>
    decreases k + 1,
{
    if k < 0 {
        None
    } else if vars.contains_key(reg_name(name, k)) {
        Some(reg_name(name, k))
    } else {
        resolve_reg(vars, name, k - 1)
    }
}

} // verus!
