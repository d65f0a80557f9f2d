//! The semantic analyzer: a scope-aware traversal of the AST that resolves
//! every expression to a type name, accumulates diagnostics, and records one
//! annotation per resolved node.
//!
//! Each operation is proved equal to the functional model in
//! [`crate::semantic::model`], so the whole pass is a mathematical function
//! of the program: analysing the same AST twice gives the same annotations
//! and the same diagnostics.

use vstd::prelude::*;
use crate::ast::{Expression, FunctionDef, TypeDef, TypeMember};
use crate::semantic::errors::{ArgKind, DefKind, SemanticError};
use crate::semantic::model::{base_target, popped_scope, pushed_scope, tree_add_variable,
    v_args_from, v_base_checks_from, v_bindings_from, v_binary_result, v_block_from,
    v_call_checks_from, v_elifs_from, v_expr, v_fn_def, v_function_call,
    v_info_params_from, v_instance_args_from, v_method_args_from, v_methods_from,
    v_parent_args_from, v_props_from, v_sig_params_from, v_tparams_from, v_type_def,
    v_unary_result, with_ann, with_error, with_symbol, op_symbol, decl_ident, declared_contains,
    declared_span_from, member_methods, member_vars, shell_node, tree_add, tree_set_parent,
    v_build_types, v_collect_functions_from, v_collect_types_from, v_fn_params_from,
    v_program, v_register_from, v_link_from, v_statements_from, AnnV, FunctionInfoV,
    ScopeV, StateV};
use crate::strmap::{clone_string, str_eq, StrMap};
use crate::tokens::{OperatorToken, Span};
use crate::types_tree::{clone_params, method_index, tree_lookup, BuiltInTypes, MethodSig,
    TypeNode, TypeNodeV, TypeTree};

verus! {

broadcast use vstd::std_specs::vec::axiom_vec_index_decreases;

/// A declared function's name, parameters, and return type.
pub struct FunctionInfo {
    pub name: String,
    pub arguments_types: Vec<(String, String)>,
    pub return_type: String,
}

impl View for FunctionInfo {
    type V = FunctionInfoV;

    open spec fn view(&self) -> FunctionInfoV {
        FunctionInfoV {
            name: self.name@,
            arg_types: self.arguments_types.deep_view(),
            return_type: self.return_type@,
        }
    }
}

impl FunctionInfo {
    pub fn new(name: String, arguments_types: Vec<(String, String)>, return_type: String) -> (r:
        Self)
        ensures
            r@ == (FunctionInfoV {
                name: name@,
                arg_types: arguments_types.deep_view(),
                return_type: return_type@,
            }),
    {
        FunctionInfo { name, arguments_types, return_type }
    }

    fn duplicate(&self) -> (r: Self)
        ensures
            r@ == self@,
    {
        let n = self.arguments_types.len();
        let mut args: Vec<(String, String)> = Vec::new();
        let mut j: usize = 0;
        while j < n
            invariant
                n == self.arguments_types.len(),
                j <= n,
                args@.len() == j,
                forall|m: int| #![all_triggers] 0 <= m < j ==> args@[m].0@
                    == self.arguments_types@[m].0@ && args@[m].1@ == self.arguments_types@[m].1@,
            decreases n - j,
        {
            let name = clone_string(&self.arguments_types[j].0);
            let sig = clone_string(&self.arguments_types[j].1);
            args.push((name, sig));
            j += 1;
        }
        proof {
            assert(args.deep_view() =~= self.arguments_types.deep_view());
        }
        FunctionInfo {
            name: clone_string(&self.name),
            arguments_types: args,
            return_type: clone_string(&self.return_type),
        }
    }
}

/// One annotation the analyzer records: a node's span and its resolved type.
pub struct TypeAnnotation {
    pub span: Span,
    pub ty: String,
}

impl View for TypeAnnotation {
    type V = AnnV;

    open spec fn view(&self) -> AnnV {
        AnnV { span: self.span, ty: self.ty@ }
    }
}

impl DeepView for TypeAnnotation {
    type V = AnnV;

    open spec fn deep_view(&self) -> AnnV {
        self.view()
    }
}

/// What `enter_scope` saves and `exit_scope` restores.
struct SavedScope {
    symbols: StrMap<String>,
    current_type: Option<String>,
    current_function: Option<String>,
}

impl View for SavedScope {
    type V = ScopeV;

    closed spec fn view(&self) -> ScopeV {
        ScopeV {
            symbols: self.symbols@,
            current_type: opt_text(&self.current_type),
            current_function: opt_text(&self.current_function),
        }
    }
}

impl DeepView for SavedScope {
    type V = ScopeV;

    closed spec fn deep_view(&self) -> ScopeV {
        self.view()
    }
}

pub open spec fn opt_text(o: &Option<String>) -> Option<Seq<char>> {
    match o {
        Some(s) => Some(s@),
        None => None,
    }
}

/// An equal copy of an optional name.
pub fn clone_opt(o: &Option<String>) -> (r: Option<String>)
    ensures
        opt_text(&r) == opt_text(o),
{
    match o {
        Some(s) => Some(clone_string(s)),
        None => None,
    }
}

/// The state a fresh analyzer starts from.
pub open spec fn initial_state() -> StateV {
    StateV {
        scope: ScopeV { symbols: Map::empty(), current_type: None, current_function: None },
        saved: Seq::empty(),
        functions: Map::empty(),
        declared: Seq::empty(),
        errors: Seq::empty(),
        anns: Seq::empty(),
        tree: crate::types_tree::builtin_nodes(),
    }
}

/// The parent each built-in node carries.
pub open spec fn builtin_parent(b: &BuiltInTypes) -> Option<Seq<char>> {
    match b {
        BuiltInTypes::Number | BuiltInTypes::Boolean | BuiltInTypes::String => Some("Object"@),
        BuiltInTypes::Object | BuiltInTypes::Unknown => None,
    }
}

/// The analyzer: the current lexical context, the scope stack, the registry,
/// the diagnostics, and the annotations recorded so far.
pub struct SemanticAnalyzer {
    symbols: StrMap<String>,
    declared_functions: StrMap<FunctionInfo>,
    declared_types: Vec<usize>,
    current_type: Option<String>,
    current_function: Option<String>,
    scopes: Vec<SavedScope>,
    errors: Vec<SemanticError>,
    types_tree: TypeTree,
    annotations: Vec<TypeAnnotation>,
}

impl View for SemanticAnalyzer {
    type V = StateV;

    closed spec fn view(&self) -> StateV {
        StateV {
            scope: ScopeV {
                symbols: self.symbols@,
                current_type: opt_text(&self.current_type),
                current_function: opt_text(&self.current_function),
            },
            saved: self.scopes.deep_view(),
            functions: self.declared_functions@,
            declared: self.declared_types@.map_values(|u: usize| u as int),
            errors: self.errors.deep_view(),
            anns: self.annotations.deep_view(),
            tree: self.types_tree@,
        }
    }
}

impl SemanticAnalyzer {
    pub closed spec fn wf(&self) -> bool {
        &&& self.symbols.wf()
        &&& self.declared_functions.wf()
        &&& self.types_tree.wf()
        &&& forall|i: int|
            0 <= i < self.scopes@.len() ==> (#[trigger] self.scopes@[i]).symbols.wf()
    }

    /// A fresh analyzer over a registry holding only the built-in types.
    pub fn new() -> (r: Self)
        ensures
            r@ == initial_state(),
            r.wf(),
    {
        let r = SemanticAnalyzer {
            symbols: StrMap::new(),
            declared_functions: StrMap::new(),
            declared_types: Vec::new(),
            current_type: None,
            current_function: None,
            scopes: Vec::new(),
            errors: Vec::new(),
            types_tree: TypeTree::new(),
            annotations: Vec::new(),
        };
        proof {
            assert(r@ =~= initial_state());
        }
        r
    }

    /// The built-in type node for the given tag, as a fresh value.
    pub fn get_built_in_types(&self, built_in: &BuiltInTypes) -> (r: TypeNode)
        ensures
            r@ == (TypeNodeV {
                name: built_in.spec_name(),
                params: Seq::empty(),
                parent: builtin_parent(built_in),
                variables: Map::empty(),
                methods: Seq::empty(),
            }),
    {
        let mut node = TypeNode::leaf(String::from_str(built_in.as_str()));
        match built_in {
            BuiltInTypes::Number | BuiltInTypes::Boolean | BuiltInTypes::String => {
                node.parent = Some(String::from_str("Object"));
            },
            BuiltInTypes::Object | BuiltInTypes::Unknown => {},
        }
        node
    }

    fn new_error(&mut self, e: SemanticError)
        requires
            old(self).wf(),
        ensures
            final(self)@ == with_error(old(self)@, e@),
            final(self).wf(),
    {
        let ghost pre = self.errors.deep_view();
        let ghost ev = e@;
        self.errors.push(e);
        proof {
            assert(self.errors.deep_view() =~= pre.push(ev));
            assert(self@ =~= with_error(old(self)@, ev));
        }
    }

    fn annotate(&mut self, span: Span, ty: &str)
        requires
            old(self).wf(),
        ensures
            final(self)@ == with_ann(old(self)@, span, ty@),
            final(self).wf(),
    {
        let ghost pre = self.annotations.deep_view();
        self.annotations.push(TypeAnnotation { span, ty: String::from_str(ty) });
        proof {
            assert(self.annotations.deep_view() =~= pre.push(AnnV { span, ty: ty@ }));
            assert(self@ =~= with_ann(old(self)@, span, ty@));
        }
    }

    fn define_symbol(&mut self, name: String, ty: String)
        requires
            old(self).wf(),
        ensures
            final(self)@ == with_symbol(old(self)@, name@, ty@),
            final(self).wf(),
    {
        let ghost nv = name@;
        let ghost tv = ty@;
        self.symbols.insert(name, ty);
        proof {
            assert(self@ =~= with_symbol(old(self)@, nv, tv));
        }
    }

    fn enter_scope(&mut self)
        requires
            old(self).wf(),
        ensures
            final(self)@ == pushed_scope(old(self)@),
            final(self).wf(),
    {
        let ghost pre = self.scopes.deep_view();
        let saved = SavedScope {
            symbols: self.symbols.copy_of(),
            current_type: clone_opt(&self.current_type),
            current_function: clone_opt(&self.current_function),
        };
        proof {
            assert(saved@ =~= old(self)@.scope);
        }
        self.scopes.push(saved);
        proof {
            assert(self.scopes.deep_view() =~= pre.push(old(self)@.scope));
            assert(self@ =~= pushed_scope(old(self)@));
        }
    }

    fn exit_scope(&mut self)
        requires
            old(self).wf(),
        ensures
            final(self)@ == popped_scope(old(self)@),
            final(self).wf(),
    {
        let ghost pre = self.scopes.deep_view();
        match self.scopes.pop() {
            Some(saved) => {
                self.symbols = saved.symbols;
                self.current_type = saved.current_type;
                self.current_function = saved.current_function;
                proof {
                    assert(old(self).scopes@.len() > 0);
                    assert(old(self).scopes@[old(self).scopes@.len() - 1].symbols.wf());
                    assert(self.scopes.deep_view() =~= pre.drop_last());
                    assert(self@ =~= popped_scope(old(self)@));
                }
            },
            None => {
                proof {
                    assert(pre.len() == 0);
                    assert(self@ =~= popped_scope(old(self)@));
                }
            },
        }
    }

    /// Resolves one expression, recording errors and annotations; returns the
    /// node's type name.
    #[verifier::loop_isolation(false)]
    #[verifier::rlimit(100)]
    fn visit_expression(&mut self, e: &Expression) -> (r: String)
        requires
            old(self).wf(),
        ensures
            (final(self)@, r@) == v_expr(old(self)@, e),
            final(self).wf(),
        decreases e, 9int,
    {
        match e {
            Expression::Number { span, .. } => {
                self.annotate(*span, "Number");
                String::from_str("Number")
            },
            Expression::Boolean { span, .. } => {
                self.annotate(*span, "Boolean");
                String::from_str("Boolean")
            },
            Expression::Str { span, .. } => {
                self.annotate(*span, "String");
                String::from_str("String")
            },
            Expression::Identifier { value, span } => {
                let bound = match self.symbols.get(value.as_str()) {
                    Some(t) => Some(clone_string(t)),
                    None => None,
                };
                match bound {
                    Some(tyname) => {
                        if self.types_tree.get_type(tyname.as_str()).is_some() {
                            self.annotate(*span, tyname.as_str());
                            tyname
                        } else {
                            self.new_error(SemanticError::UndefinedType(tyname, *span));
                            String::from_str("Unknown")
                        }
                    },
                    None => {
                        if str_eq(value.as_str(), "self") {
                            match clone_opt(&self.current_type) {
                                Some(ct) => {
                                    if self.types_tree.get_type(ct.as_str()).is_some() {
                                        self.annotate(*span, ct.as_str());
                                        ct
                                    } else {
                                        self.new_error(SemanticError::UndefinedType(ct, *span));
                                        String::from_str("Unknown")
                                    }
                                },
                                None => {
                                    self.new_error(
                                        SemanticError::UndefinedIdentifier(
                                            clone_string(value),
                                            *span,
                                        ),
                                    );
                                    String::from_str("Unknown")
                                },
                            }
                        } else {
                            self.new_error(
                                SemanticError::UndefinedIdentifier(clone_string(value), *span),
                            );
                            String::from_str("Unknown")
                        }
                    },
                }
            },
            Expression::FunctionCall { function_name, arguments, span } => self.visit_function_call(
                function_name,
                arguments,
                *span,
            ),
            Expression::WhileLoop { condition, body, span } => {
                let cty = self.visit_expression(condition);
                if !str_eq(cty.as_str(), "Boolean") {
                    self.new_error(SemanticError::InvalidConditionType(cty, *span));
                }
                let bty = self.visit_expression(body);
                self.annotate(*span, bty.as_str());
                bty
            },
            Expression::ForLoop { variable, start, end, body, span } => {
                self.enter_scope();
                self.define_symbol(clone_string(variable), String::from_str("Number"));
                let sty = self.visit_expression(start);
                let ety = self.visit_expression(end);
                if !str_eq(sty.as_str(), "Number") {
                    self.new_error(
                        SemanticError::InvalidTypeArgument(
                            ArgKind::ForRange,
                            sty,
                            String::from_str("Number"),
                            0,
                            String::from_str("range"),
                            *span,
                        ),
                    );
                }
                if !str_eq(ety.as_str(), "Number") {
                    self.new_error(
                        SemanticError::InvalidTypeArgument(
                            ArgKind::ForRange,
                            ety,
                            String::from_str("Number"),
                            1,
                            String::from_str("range"),
                            *span,
                        ),
                    );
                }
                let bty = self.visit_expression(body);
                self.exit_scope();
                self.annotate(*span, bty.as_str());
                bty
            },
            Expression::CodeBlock { expressions, span } => {
                self.enter_scope();
                let ghost st0 = self@;
                let mut last = String::from_str("Unknown");
                let n = expressions.len();
                let mut j: usize = 0;
                while j < n
                    invariant
                        n == expressions.len(),
                        j <= n,
                        self.wf(),
                        v_block_from(self@, expressions, j as int, last@) == v_block_from(
                            st0,
                            expressions,
                            0,
                            "Unknown"@,
                        ),
                    decreases n - j,
                {
                    last = self.visit_expression(&expressions[j]);
                    j += 1;
                }
                self.exit_scope();
                self.annotate(*span, last.as_str());
                last
            },
            Expression::BinaryOp { operator, left, right, span } => {
                let lty = self.visit_expression(left);
                let rty = self.visit_expression(right);
                self.binary_result(*operator, lty, rty, *span)
            },
            Expression::UnaryOp { operator, operand, span } => {
                let oty = self.visit_expression(operand);
                self.unary_result(*operator, oty, *span)
            },
            Expression::IfElse { condition, if_expression, elifs, span } => {
                let cty = self.visit_expression(condition);
                if !str_eq(cty.as_str(), "Boolean") {
                    self.new_error(SemanticError::InvalidConditionType(cty, condition.span()));
                }
                let ity = self.visit_expression(if_expression);
                let ghost st3 = self@;
                let ghost rty0 = ity@;
                let mut result = ity;
                let n = elifs.len();
                let mut j: usize = 0;
                while j < n
                    invariant
                        n == elifs.len(),
                        j <= n,
                        self.wf(),
                        v_elifs_from(self@, elifs, j as int, result@, *span) == v_elifs_from(
                            st3,
                            elifs,
                            0,
                            rty0,
                            *span,
                        ),
                    decreases n - j,
                {
                    let ety = self.visit_expression(&elifs[j].body);
                    match &elifs[j].condition {
                        Some(c) => {
                            let condty = self.visit_expression(c);
                            if !str_eq(condty.as_str(), "Boolean") {
                                self.new_error(SemanticError::InvalidConditionType(condty, *span));
                            }
                        },
                        None => {},
                    }
                    if !str_eq(result.as_str(), ety.as_str()) {
                        let lca = self.types_tree.find_lca(result.as_str(), ety.as_str());
                        if str_eq(lca.as_str(), "Unknown") || str_eq(lca.as_str(), "Object") {
                            self.new_error(
                                SemanticError::UnknownError(
                                    String::from_str("Incompatible types in if-else branches"),
                                    *span,
                                ),
                            );
                        }
                        result = lca;
                    }
                    j += 1;
                }
                self.annotate(*span, result.as_str());
                result
            },
            Expression::LetIn { assignments, body, span } => {
                self.enter_scope();
                let ghost st1 = self@;
                let n = assignments.len();
                let mut j: usize = 0;
                while j < n
                    invariant
                        n == assignments.len(),
                        j <= n,
                        self.wf(),
                        v_bindings_from(self@, assignments, j as int) == v_bindings_from(
                            st1,
                            assignments,
                            0,
                        ),
                    decreases n - j,
                {
                    let ty = self.visit_expression(&assignments[j].expression);
                    self.annotate(assignments[j].span, ty.as_str());
                    self.define_symbol(clone_string(&assignments[j].identifier), ty);
                    j += 1;
                }
                let bty = self.visit_expression(body);
                self.exit_scope();
                self.annotate(*span, bty.as_str());
                bty
            },
            Expression::DestructiveAssign { identifier, expression, span } => {
                match &**identifier {
                    Expression::Identifier { value, span: idspan } => {
                        if self.symbols.contains_key(value.as_str()) {
                            let nty = self.visit_expression(expression);
                            self.define_symbol(clone_string(value), clone_string(&nty));
                            self.annotate(*span, nty.as_str());
                            nty
                        } else {
                            self.new_error(
                                SemanticError::UndefinedIdentifier(clone_string(value), *idspan),
                            );
                            String::from_str("Unknown")
                        }
                    },
                    Expression::TypePropAccess { object, member, span: aspan } => {
                        let oty = self.visit_expression(object);
                        let has_member = match self.types_tree.get_type(oty.as_str()) {
                            Some(node) => node.variables.contains_key(member.as_str()),
                            None => false,
                        };
                        if has_member {
                            let nty = self.visit_expression(expression);
                            self.annotate(*span, nty.as_str());
                            nty
                        } else {
                            self.new_error(
                                SemanticError::InvalidTypePropertyAccess(
                                    oty,
                                    clone_string(member),
                                    *aspan,
                                ),
                            );
                            String::from_str("Unknown")
                        }
                    },
                    _ => {
                        self.new_error(
                            SemanticError::UnknownError(
                                String::from_str(
                                    "Destructive assignment can only be done to an identifier or type property access",
                                ),
                                *span,
                            ),
                        );
                        String::from_str("Unknown")
                    },
                }
            },
            Expression::TypeInstance { ty_name, arguments, span } => {
                let target = match self.types_tree.get_type(ty_name.as_str()) {
                    Some(node) => Some((clone_string(&node.name), clone_params(&node.params))),
                    None => None,
                };
                match target {
                    Some((tname, tparams)) => {
                        if tparams.len() != arguments.len() {
                            self.new_error(
                                SemanticError::InvalidTypeArgumentCount(
                                    arguments.len(),
                                    tparams.len(),
                                    clone_string(ty_name),
                                    *span,
                                ),
                            );
                            String::from_str("Unknown")
                        } else {
                            let ghost node = tree_lookup(self@.tree, ty_name@).unwrap();
                            let ghost st0 = self@;
                            let n = arguments.len();
                            let mut j: usize = 0;
                            while j < n
                                invariant
                                    n == arguments.len(),
                                    j <= n,
                                    self.wf(),
                                    tparams.deep_view() == node.params,
                                    n == node.params.len(),
                                    v_instance_args_from(
                                        self@,
                                        arguments,
                                        j as int,
                                        node,
                                        ty_name@,
                                        *span,
                                    ) == v_instance_args_from(
                                        st0,
                                        arguments,
                                        0,
                                        node,
                                        ty_name@,
                                        *span,
                                    ),
                                decreases n - j,
                            {
                                let aty = self.visit_expression(&arguments[j]);
                                let ok = self.types_tree.get_type(aty.as_str()).is_some()
                                    && self.types_tree.get_type(
                                    tparams[j].signature.as_str(),
                                ).is_some() && self.types_tree.is_ancestor(
                                    tparams[j].signature.as_str(),
                                    aty.as_str(),
                                );
                                if !ok {
                                    self.new_error(
                                        SemanticError::InvalidTypeArgument(
                                            ArgKind::Type,
                                            aty,
                                            clone_string(&tparams[j].signature),
                                            j,
                                            clone_string(ty_name),
                                            *span,
                                        ),
                                    );
                                }
                                j += 1;
                            }
                            self.annotate(*span, tname.as_str());
                            tname
                        }
                    },
                    None => {
                        self.new_error(SemanticError::UndefinedType(clone_string(ty_name), *span));
                        String::from_str("Unknown")
                    },
                }
            },
            Expression::TypeFunctionAccess {
                object,
                member_name,
                member_args,
                member_span,
                span,
            } => {
                let oty = self.visit_expression(object);
                let found = match self.types_tree.find_method(oty.as_str(), member_name.as_str()) {
                    Some(m) => Some(m.duplicate()),
                    None => None,
                };
                match found {
                    Some(func) => {
                        if func.params.len() != member_args.len() {
                            self.new_error(
                                SemanticError::InvalidArgumentsCount(
                                    member_args.len(),
                                    func.params.len(),
                                    clone_string(member_name),
                                    *member_span,
                                ),
                            );
                            String::from_str("Unknown")
                        } else {
                            let ghost st1 = self@;
                            let n = member_args.len();
                            let mut j: usize = 0;
                            while j < n
                                invariant
                                    n == member_args.len(),
                                    j <= n,
                                    self.wf(),
                                    n == func@.params.len(),
                                    func.params@.len() == n,
                                    v_method_args_from(
                                        self@,
                                        member_args,
                                        j as int,
                                        func@,
                                        member_name@,
                                        *member_span,
                                    ) == v_method_args_from(
                                        st1,
                                        member_args,
                                        0,
                                        func@,
                                        member_name@,
                                        *member_span,
                                    ),
                                decreases n - j,
                            {
                                let aty = self.visit_expression(&member_args[j]);
                                let ok = self.types_tree.get_type(aty.as_str()).is_some()
                                    && self.types_tree.get_type(
                                    func.params[j].signature.as_str(),
                                ).is_some() && self.types_tree.is_ancestor(
                                    func.params[j].signature.as_str(),
                                    aty.as_str(),
                                );
                                if !ok {
                                    self.new_error(
                                        SemanticError::InvalidTypeArgument(
                                            ArgKind::Function,
                                            aty,
                                            clone_string(&func.params[j].signature),
                                            j,
                                            clone_string(member_name),
                                            *member_span,
                                        ),
                                    );
                                }
                                j += 1;
                            }
                            if self.types_tree.get_type(func.return_type.as_str()).is_some() {
                                self.annotate(*span, func.return_type.as_str());
                                self.annotate(*member_span, func.return_type.as_str());
                                func.return_type
                            } else {
                                self.new_error(
                                    SemanticError::UndefinedType(func.return_type, *member_span),
                                );
                                String::from_str("Unknown")
                            }
                        }
                    },
                    None => {
                        self.new_error(
                            SemanticError::InvalidTypeFunctionAccess(
                                oty,
                                clone_string(member_name),
                                *member_span,
                            ),
                        );
                        String::from_str("Unknown")
                    },
                }
            },
            Expression::TypePropAccess { object, member, span } => {
                let oty = self.visit_expression(object);
                match clone_opt(&self.current_type) {
                    Some(ct) => {
                        let node_found = self.types_tree.get_type(ct.as_str()).is_some();
                        if node_found {
                            let pty = match self.types_tree.get_type(ct.as_str()) {
                                Some(node) => match node.variables.get(member.as_str()) {
                                    Some(t) => Some(clone_string(t)),
                                    None => None,
                                },
                                None => None,
                            };
                            match pty {
                                Some(pt) => {
                                    if self.types_tree.get_type(pt.as_str()).is_some() {
                                        self.annotate(*span, pt.as_str());
                                        pt
                                    } else {
                                        self.new_error(SemanticError::UndefinedType(pt, *span));
                                        String::from_str("Unknown")
                                    }
                                },
                                None => {
                                    self.new_error(
                                        SemanticError::InvalidTypeProperty(
                                            oty,
                                            clone_string(member),
                                            *span,
                                        ),
                                    );
                                    String::from_str("Unknown")
                                },
                            }
                        } else {
                            self.new_error(SemanticError::UndefinedType(ct, *span));
                            String::from_str("Unknown")
                        }
                    },
                    None => {
                        self.new_error(
                            SemanticError::InvalidTypePropertyAccess(
                                oty,
                                clone_string(member),
                                *span,
                            ),
                        );
                        String::from_str("Unknown")
                    },
                }
            },
            Expression::Print { expression, span } => {
                let ty = self.visit_expression(expression);
                if !str_eq(ty.as_str(), "Number") && !str_eq(ty.as_str(), "String") && !str_eq(
                    ty.as_str(),
                    "Boolean",
                ) && !str_eq(ty.as_str(), "Unknown") {
                    self.new_error(SemanticError::InvalidPrint(clone_string(&ty), *span));
                }
                self.annotate(*span, ty.as_str());
                ty
            },
        }
    }

    /// The result type of a binary operator, with its diagnostics.
    fn binary_result(&mut self, op: OperatorToken, lty: String, rty: String, span: Span) -> (r:
        String)
        requires
            old(self).wf(),
        ensures
            (final(self)@, r@) == v_binary_result(old(self)@, op, lty@, rty@, span),
            final(self).wf(),
    {
        let arith = matches!(
            op,
            OperatorToken::PLUS
                | OperatorToken::MINUS
                | OperatorToken::MUL
                | OperatorToken::DIV
                | OperatorToken::MOD
                | OperatorToken::POW
        );
        let cmp = matches!(
            op,
            OperatorToken::GT | OperatorToken::GTE | OperatorToken::LT | OperatorToken::LTE
        );
        let eqop = matches!(op, OperatorToken::EQ | OperatorToken::NEQ);
        let logic = matches!(op, OperatorToken::AND | OperatorToken::OR);
        let l_num = str_eq(lty.as_str(), "Number");
        let r_num = str_eq(rty.as_str(), "Number");
        let l_str = str_eq(lty.as_str(), "String");
        let r_str = str_eq(rty.as_str(), "String");
        let l_bool = str_eq(lty.as_str(), "Boolean");
        let r_bool = str_eq(rty.as_str(), "Boolean");
        if arith {
            if l_num && r_num {
                self.annotate(span, "Number");
                String::from_str("Number")
            } else {
                self.new_error(SemanticError::InvalidBinaryOperation(lty, rty, op, span));
                String::from_str("Unknown")
            }
        } else if cmp {
            if l_num && r_num {
                self.annotate(span, "Boolean");
                String::from_str("Boolean")
            } else {
                self.new_error(SemanticError::InvalidBinaryOperation(lty, rty, op, span));
                String::from_str("Unknown")
            }
        } else if eqop {
            if (l_str && r_str) || (l_bool && r_bool) || (l_num && r_num) {
                self.annotate(span, "Boolean");
                String::from_str("Boolean")
            } else {
                self.new_error(SemanticError::InvalidBinaryOperation(lty, rty, op, span));
                String::from_str("Unknown")
            }
        } else if matches!(op, OperatorToken::CONCAT) {
            if l_str && r_str {
                self.annotate(span, "String");
                String::from_str("String")
            } else {
                self.new_error(SemanticError::InvalidBinaryOperation(lty, rty, op, span));
                String::from_str("Unknown")
            }
        } else if logic {
            if l_bool && r_bool {
                self.annotate(span, "Boolean");
                String::from_str("Boolean")
            } else {
                self.new_error(SemanticError::InvalidBinaryOperation(lty, rty, op, span));
                String::from_str("Unknown")
            }
        } else {
            let mut msg = String::from_str("Operator ( ");
            msg.append(op_text(op));
            msg.append(" ) not supported in binary operation");
            self.new_error(SemanticError::UnknownError(msg, span));
            String::from_str("Unknown")
        }
    }

    /// The result type of a unary operator, with its diagnostics.
    fn unary_result(&mut self, op: OperatorToken, oty: String, span: Span) -> (r: String)
        requires
            old(self).wf(),
        ensures
            (final(self)@, r@) == v_unary_result(old(self)@, op, oty@, span),
            final(self).wf(),
    {
        if matches!(op, OperatorToken::NEG | OperatorToken::MINUS) {
            if str_eq(oty.as_str(), "Number") {
                self.annotate(span, "Number");
                String::from_str("Number")
            } else {
                self.new_error(SemanticError::InvalidUnaryOperation(oty, op, span));
                String::from_str("Unknown")
            }
        } else if matches!(op, OperatorToken::NOT) {
            if str_eq(oty.as_str(), "Boolean") {
                self.annotate(span, "Boolean");
                String::from_str("Boolean")
            } else {
                self.new_error(SemanticError::InvalidUnaryOperation(oty, op, span));
                String::from_str("Unknown")
            }
        } else {
            let mut msg = String::from_str("Operator ( ");
            msg.append(op_text(op));
            msg.append(" ) not supported in unary operation");
            self.new_error(SemanticError::UnknownError(msg, span));
            String::from_str("Unknown")
        }
    }

    /// A function call: `base(...)` dispatch, arity, argument subtyping, and
    /// the declared return type.
    #[verifier::loop_isolation(false)]
    #[verifier::rlimit(100)]
    fn visit_function_call(
        &mut self,
        function_name: &String,
        arguments: &Vec<Expression>,
        span: Span,
    ) -> (r: String)
        requires
            old(self).wf(),
        ensures
            (final(self)@, r@) == v_function_call(old(self)@, function_name@, arguments, span),
            final(self).wf(),
        decreases arguments, 10int,
    {
        let ghost st0 = self@;
        let mut atys: Vec<String> = Vec::new();
        proof {
            assert(atys.deep_view() =~= Seq::<Seq<char>>::empty());
        }
        let n = arguments.len();
        let mut j: usize = 0;
        while j < n
            invariant
                n == arguments.len(),
                j <= n,
                self.wf(),
                atys@.len() == j,
                v_args_from(self@, arguments, j as int, atys.deep_view()) == v_args_from(
                    st0,
                    arguments,
                    0,
                    Seq::empty(),
                ),
            decreases n - j,
        {
            let ghost pre = atys.deep_view();
            let t = self.visit_expression(&arguments[j]);
            let ghost tv = t@;
            atys.push(t);
            proof {
                assert(atys.deep_view() =~= pre.push(tv));
            }
            j += 1;
        }
        let base_func = self.base_method(function_name);
        match base_func {
            Some(func) => {
                if arguments.len() != func.params.len() {
                    let cf = match &self.current_function {
                        Some(s) => clone_string(s),
                        None => String::new(),
                    };
                    self.new_error(
                        SemanticError::InvalidArgumentsCount(
                            arguments.len(),
                            func.params.len(),
                            cf,
                            span,
                        ),
                    );
                } else {
                    let ghost st1 = self@;
                    let m = atys.len();
                    proof {
                        assert(func@.params.len() == func.params@.len());
                        assert(m == func@.params.len());
                    }
                    let mut k: usize = 0;
                    while k < m
                        invariant
                            m == atys.len(),
                            k <= m,
                            self.wf(),
                            m == func@.params.len(),
                            func.params@.len() == m,
                            v_base_checks_from(self@, atys.deep_view(), func@, k as int, span)
                                == v_base_checks_from(st1, atys.deep_view(), func@, 0, span),
                        decreases m - k,
                    {
                        if !str_eq(atys[k].as_str(), func.params[k].signature.as_str()) {
                            self.new_error(
                                SemanticError::InvalidTypeArgument(
                                    ArgKind::Function,
                                    clone_string(&atys[k]),
                                    clone_string(&func.params[k].signature),
                                    k,
                                    clone_string(&func.name),
                                    span,
                                ),
                            );
                        }
                        k += 1;
                    }
                }
                if self.types_tree.get_type(func.return_type.as_str()).is_some() {
                    self.annotate(span, func.return_type.as_str());
                    func.return_type
                } else {
                    self.new_error(SemanticError::UndefinedType(func.return_type, span));
                    String::from_str("Unknown")
                }
            },
            None => {
                let info = match self.declared_functions.get(function_name.as_str()) {
                    Some(fi) => Some(fi.duplicate()),
                    None => None,
                };
                match info {
                    Some(fi) => {
                        if arguments.len() != fi.arguments_types.len() {
                            self.new_error(
                                SemanticError::InvalidArgumentsCount(
                                    arguments.len(),
                                    fi.arguments_types.len(),
                                    clone_string(function_name),
                                    span,
                                ),
                            );
                        } else {
                            let ghost st1 = self@;
                            let m = atys.len();
                            proof {
                                assert(fi@.arg_types.len() == fi.arguments_types@.len());
                                assert(m == fi@.arg_types.len());
                            }
                            let mut k: usize = 0;
                            while k < m
                                invariant
                                    m == atys.len(),
                                    k <= m,
                                    self.wf(),
                                    m == fi@.arg_types.len(),
                                    fi.arguments_types@.len() == m,
                                    v_call_checks_from(self@, atys.deep_view(), fi@, k as int, span)
                                        == v_call_checks_from(st1, atys.deep_view(), fi@, 0, span),
                                decreases m - k,
                            {
                                let expected = &fi.arguments_types[k].1;
                                let ok = self.types_tree.get_type(expected.as_str()).is_some()
                                    && self.types_tree.get_type(atys[k].as_str()).is_some()
                                    && self.types_tree.is_ancestor(
                                    expected.as_str(),
                                    atys[k].as_str(),
                                );
                                if !ok {
                                    self.new_error(
                                        SemanticError::InvalidTypeArgument(
                                            ArgKind::Function,
                                            clone_string(&atys[k]),
                                            clone_string(expected),
                                            k,
                                            clone_string(&fi.name),
                                            span,
                                        ),
                                    );
                                }
                                k += 1;
                            }
                        }
                        if self.types_tree.get_type(fi.return_type.as_str()).is_some() {
                            self.annotate(span, fi.return_type.as_str());
                            fi.return_type
                        } else {
                            self.new_error(SemanticError::UndefinedType(fi.return_type, span));
                            String::from_str("Unknown")
                        }
                    },
                    None => {
                        self.new_error(
                            SemanticError::UndeclaredFunction(clone_string(function_name), span),
                        );
                        String::from_str("Unknown")
                    },
                }
            },
        }
    }

    /// The parent method a `base(...)` call refers to, if any.
    fn base_method(&self, function_name: &String) -> (r: Option<MethodSig>)
        requires
            self.wf(),
        ensures
            match r {
                Some(m) => base_target(self@, function_name@) == Some(m@),
                None => base_target(self@, function_name@) is None,
            },
    {
        if !str_eq(function_name.as_str(), "base") {
            return None;
        }
        let ct = match &self.current_type {
            Some(s) => clone_string(s),
            None => {
                return None;
            },
        };
        let parent = match self.types_tree.get_type(ct.as_str()) {
            Some(node) => match &node.parent {
                Some(p) => clone_string(p),
                None => {
                    return None;
                },
            },
            None => {
                return None;
            },
        };
        let cf = match &self.current_function {
            Some(s) => clone_string(s),
            None => {
                return None;
            },
        };
        match self.types_tree.find_method(parent.as_str(), cf.as_str()) {
            Some(m) => Some(m.duplicate()),
            None => None,
        }
    }

    /// A function or method definition: its parameters come into scope, the
    /// body is typed, and its type must be a subtype of the declared return.
    #[verifier::loop_isolation(false)]
    #[verifier::rlimit(100)]
    fn visit_function_def(&mut self, f: &FunctionDef) -> (r: String)
        requires
            old(self).wf(),
        ensures
            (final(self)@, r@) == v_fn_def(old(self)@, f),
            final(self).wf(),
        decreases f, 11int,
    {
        self.enter_scope();
        self.current_function = Some(clone_string(&f.name));
        proof {
            assert(self@ =~= (StateV {
                scope: ScopeV {
                    current_function: Some(f.name@),
                    ..pushed_scope(old(self)@).scope
                },
                ..pushed_scope(old(self)@)
            }));
        }
        let info = match self.declared_functions.get(f.name.as_str()) {
            Some(fi) => Some(fi.duplicate()),
            None => None,
        };
        match info {
            Some(fi) => {
                let ghost stp = self@;
                let n = fi.arguments_types.len();
                let mut j: usize = 0;
                while j < n
                    invariant
                        n == fi.arguments_types.len(),
                        j <= n,
                        self.wf(),
                        n == fi@.arg_types.len(),
                        v_info_params_from(self@, fi@.arg_types, j as int) == v_info_params_from(
                            stp,
                            fi@.arg_types,
                            0,
                        ),
                    decreases n - j,
                {
                    self.define_symbol(
                        clone_string(&fi.arguments_types[j].0),
                        clone_string(&fi.arguments_types[j].1),
                    );
                    j += 1;
                }
            },
            None => {
                match clone_opt(&self.current_type) {
                    Some(ct) => {
                        let node_found = self.types_tree.get_type(ct.as_str()).is_some();
                        if node_found {
                            let own = match self.types_tree.get_type(ct.as_str()) {
                                Some(node) => match method_index(&node.methods, f.name.as_str()) {
                                    Some(mi) => Some(node.methods[mi].duplicate()),
                                    None => None,
                                },
                                None => None,
                            };
                            match own {
                                Some(m) => {
                                    let ghost stp = self@;
                                    let n = m.params.len();
                                    let mut j: usize = 0;
                                    while j < n
                                        invariant
                                            n == m.params.len(),
                                            j <= n,
                                            self.wf(),
                                            n == m@.params.len(),
                                            v_sig_params_from(self@, m@.params, j as int)
                                                == v_sig_params_from(stp, m@.params, 0),
                                        decreases n - j,
                                    {
                                        self.define_symbol(
                                            clone_string(&m.params[j].name),
                                            clone_string(&m.params[j].signature),
                                        );
                                        j += 1;
                                    }
                                },
                                None => {
                                    self.new_error(
                                        SemanticError::UndeclaredFunction(
                                            clone_string(&f.name),
                                            f.span,
                                        ),
                                    );
                                },
                            }
                        } else {
                            self.new_error(SemanticError::UndefinedType(ct, f.span));
                        }
                    },
                    None => {
                        self.new_error(
                            SemanticError::UndeclaredFunction(clone_string(&f.name), f.span),
                        );
                    },
                }
            },
        }
        let bty = self.visit_expression(&f.body);
        let ret: String;
        if self.types_tree.get_type(f.return_type.as_str()).is_some() {
            if !self.types_tree.is_ancestor(f.return_type.as_str(), bty.as_str()) {
                self.new_error(
                    SemanticError::InvalidFunctionReturn(
                        bty,
                        clone_string(&f.return_type),
                        clone_string(&f.name),
                        f.span,
                    ),
                );
            }
            ret = clone_string(&f.return_type);
        } else {
            self.new_error(SemanticError::UndefinedType(clone_string(&f.return_type), f.span));
            ret = String::from_str("Unknown");
        }
        self.exit_scope();
        self.annotate(f.span, ret.as_str());
        ret
    }

    /// A type definition: constructor parameters, parent constructor
    /// arguments, field initializers, then methods.
    #[verifier::loop_isolation(false)]
    #[verifier::rlimit(100)]
    fn visit_type_def(&mut self, t: &TypeDef) -> (r: String)
        requires
            old(self).wf(),
        ensures
            (final(self)@, r@) == v_type_def(old(self)@, t),
            final(self).wf(),
        decreases t, 12int,
    {
        self.enter_scope();
        self.current_type = Some(clone_string(&t.identifier));
        let ghost st1 = self@;
        proof {
            assert(st1 =~= (StateV {
                scope: ScopeV {
                    current_type: Some(t.identifier@),
                    ..pushed_scope(old(self)@).scope
                },
                ..pushed_scope(old(self)@)
            }));
        }
        let n = t.params.len();
        let mut j: usize = 0;
        while j < n
            invariant
                n == t.params.len(),
                j <= n,
                self.wf(),
                v_tparams_from(self@, t, j as int) == v_tparams_from(st1, t, 0),
            decreases n - j,
        {
            let p = &t.params[j];
            if self.symbols.contains_key(p.name.as_str()) {
                self.new_error(
                    SemanticError::ParamNameAlreadyExist(
                        clone_string(&p.name),
                        clone_string(&t.identifier),
                        DefKind::Type,
                        p.span,
                    ),
                );
            }
            let sig = match self.types_tree.get_type(p.signature.as_str()) {
                Some(node) => Some(clone_string(&node.name)),
                None => None,
            };
            match sig {
                Some(tyname) => {
                    self.define_symbol(clone_string(&p.name), tyname);
                },
                None => {
                    self.new_error(SemanticError::UndefinedType(clone_string(&p.signature), p.span));
                    self.define_symbol(clone_string(&p.name), String::from_str("Unknown"));
                },
            }
            j += 1;
        }
        match &t.parent {
            Some(pn) => {
                let pinfo = match self.types_tree.get_type(pn.as_str()) {
                    Some(node) => Some((clone_string(&node.name), clone_params(&node.params))),
                    None => None,
                };
                match pinfo {
                    Some((pname, pparams)) => {
                        if pparams.len() != t.parent_args.len() {
                            self.new_error(
                                SemanticError::InvalidTypeArgumentCount(
                                    t.parent_args.len(),
                                    pparams.len(),
                                    pname,
                                    t.span,
                                ),
                            );
                        } else {
                            let ghost pnode = tree_lookup(self@.tree, pn@).unwrap();
                            let ghost st2 = self@;
                            let pa = t.parent_args.len();
                            let mut k: usize = 0;
                            while k < pa
                                invariant
                                    pa == t.parent_args.len(),
                                    k <= pa,
                                    self.wf(),
                                    pparams.deep_view() == pnode.params,
                                    pa == pnode.params.len(),
                                    pparams@.len() == pa,
                                    v_parent_args_from(self@, t, pnode, k as int)
                                        == v_parent_args_from(st2, t, pnode, 0),
                                decreases pa - k,
                            {
                                let aty = self.visit_expression(&t.parent_args[k]);
                                if !str_eq(aty.as_str(), pparams[k].signature.as_str()) {
                                    let aspan = t.parent_args[k].span();
                                    self.new_error(
                                        SemanticError::InvalidTypeArgument(
                                            ArgKind::Type,
                                            aty,
                                            clone_string(&pparams[k].signature),
                                            k,
                                            clone_string(&t.identifier),
                                            aspan,
                                        ),
                                    );
                                }
                                k += 1;
                            }
                        }
                    },
                    None => {
                        self.new_error(SemanticError::UndefinedType(clone_string(pn), t.span));
                    },
                }
            },
            None => {},
        }
        let ghost st3 = self@;
        let mn = t.members.len();
        let mut mj: usize = 0;
        while mj < mn
            invariant
                mn == t.members.len(),
                mj <= mn,
                self.wf(),
                v_props_from(self@, t, mj as int) == v_props_from(st3, t, 0),
            decreases mn - mj,
        {
            match &t.members[mj] {
                TypeMember::Property(prop) => {
                    let pty = self.visit_expression(&prop.expression);
                    self.annotate(prop.span, pty.as_str());
                    let ghost mid = self@;
                    let ghost ptyv = pty@;
                    self.types_tree.add_variable(
                        t.identifier.as_str(),
                        clone_string(&prop.identifier),
                        pty,
                    );
                    proof {
                        assert(self@ =~= (StateV {
                            tree: tree_add_variable(mid.tree, t.identifier@, prop.identifier@, ptyv),
                            ..mid
                        }));
                    }
                },
                TypeMember::Method(_) => {},
            }
            mj += 1;
        }
        let ghost st4 = self@;
        let mut mk: usize = 0;
        while mk < mn
            invariant
                mn == t.members.len(),
                mk <= mn,
                self.wf(),
                v_methods_from(self@, t, mk as int) == v_methods_from(st4, t, 0),
            decreases mn - mk,
        {
            match &t.members[mk] {
                TypeMember::Method(m) => {
                    self.visit_function_def(m);
                },
                TypeMember::Property(_) => {},
            }
            mk += 1;
        }
        self.exit_scope();
        let reg = match self.types_tree.get_type(t.identifier.as_str()) {
            Some(node) => Some(clone_string(&node.name)),
            None => None,
        };
        match reg {
            Some(name) => {
                self.annotate(t.span, name.as_str());
                name
            },
            None => String::from_str("Unknown"),
        }
    }

    /// Whether a collected type definition already carries this name.
    fn declared_has(&self, p: &crate::ast::Program, name: &str) -> (r: bool)
        ensures
            r == declared_contains(p, self@.declared, name@),
    {
        let dn = self.declared_types.len();
        let mut j: usize = 0;
        while j < dn
            invariant
                dn == self.declared_types.len(),
                j <= dn,
                forall|m: int| 0 <= m < j ==> decl_ident(p, self@.declared[m]) != name@,
            decreases dn - j,
        {
            let idx = self.declared_types[j];
            proof {
                assert(self@.declared[j as int] == idx as int);
                reveal_strlit("");
                assert(""@ =~= Seq::<char>::empty());
            }
            let matches_here = if idx < p.statements.len() {
                match &p.statements[idx] {
                    crate::ast::Statement::StatementTypeDef(td) => str_eq(
                        td.identifier.as_str(),
                        name,
                    ),
                    _ => str_eq("", name),
                }
            } else {
                str_eq("", name)
            };
            if matches_here {
                proof {
                    assert(decl_ident(p, self@.declared[j as int]) == name@);
                }
                return true;
            }
            j += 1;
        }
        false
    }

    /// Records an accepted type definition by its statement index.
    fn push_declared(&mut self, i: usize)
        requires
            old(self).wf(),
        ensures
            final(self)@ == (StateV {
                declared: old(self)@.declared.push(i as int),
                ..old(self)@
            }),
            final(self).wf(),
    {
        let ghost pre = self.declared_types@.map_values(|u: usize| u as int);
        self.declared_types.push(i);
        proof {
            assert(self.declared_types@.map_values(|u: usize| u as int) =~= pre.push(i as int));
            assert(self@ =~= (StateV { declared: old(self)@.declared.push(i as int), ..old(self)@ }));
        }
    }

    /// First pass: collect type definitions, rejecting redefinitions and
    /// literal self-inheritance.
    #[verifier::loop_isolation(false)]
    pub fn get_types_definitions(&mut self, node: &crate::ast::Program)
        requires
            old(self).wf(),
        ensures
            final(self)@ == v_collect_types_from(old(self)@, node, 0),
            final(self).wf(),
    {
        let ghost st0 = self@;
        let n = node.statements.len();
        let mut i: usize = 0;
        while i < n
            invariant
                i <= n,
                self.wf(),
                v_collect_types_from(self@, node, i as int) == v_collect_types_from(st0, node, 0),
            decreases n - i,
        {
            match &node.statements[i] {
                crate::ast::Statement::StatementTypeDef(td) => {
                    let already = self.types_tree.get_type(td.identifier.as_str()).is_some()
                        || self.declared_has(node, td.identifier.as_str());
                    if already {
                        self.new_error(
                            SemanticError::RedefinitionOfType(
                                clone_string(&td.identifier),
                                td.span,
                            ),
                        );
                    } else {
                        match &td.parent {
                            Some(pn) => {
                                if str_eq(pn.as_str(), td.identifier.as_str()) {
                                    self.new_error(
                                        SemanticError::UnknownError(
                                            String::from_str("Type cannot inherit from itself"),
                                            td.span,
                                        ),
                                    );
                                }
                            },
                            None => {},
                        }
                        self.push_declared(i);
                    }
                },
                _ => {},
            }
            i += 1;
        }
    }

    /// The registry node a type definition first registers.
    fn build_shell(&self, td: &TypeDef) -> (r: TypeNode)
        ensures
            r@ == shell_node(td),
            r.wf(),
    {
        let mut variables: StrMap<String> = StrMap::new();
        let mut methods: Vec<MethodSig> = Vec::new();
        proof {
            assert(methods.deep_view() =~= member_methods(&td.members, 0));
        }
        let mn = td.members.len();
        let mut j: usize = 0;
        while j < mn
            invariant
                mn == td.members.len(),
                j <= mn,
                variables.wf(),
                variables@ == member_vars(&td.members, j as int),
                methods.deep_view() == member_methods(&td.members, j as int),
            decreases mn - j,
        {
            match &td.members[j] {
                TypeMember::Property(prop) => {
                    let tyname = match &prop.declared_type {
                        Some(t) => clone_string(t),
                        None => String::from_str("Unknown"),
                    };
                    variables.insert(clone_string(&prop.identifier), tyname);
                },
                TypeMember::Method(m) => {
                    let ghost pre = methods.deep_view();
                    methods.push(
                        MethodSig {
                            name: clone_string(&m.name),
                            params: clone_params(&m.params),
                            return_type: clone_string(&m.return_type),
                        },
                    );
                    proof {
                        assert(methods.deep_view() =~= pre.push(
                            crate::types_tree::MethodSigV {
                                name: m.name@,
                                params: m.params.deep_view(),
                                return_type: m.return_type@,
                            },
                        ));
                    }
                },
            }
            j += 1;
        }
        let r = TypeNode {
            name: clone_string(&td.identifier),
            params: clone_params(&td.params),
            parent: None,
            variables,
            methods,
        };
        proof {
            assert(r@ == shell_node(td));
        }
        r
    }

    /// Second pass: build the registry from the collected definitions,
    /// resolve parent links, and look for an inheritance cycle.
    #[verifier::loop_isolation(false)]
    pub fn build_types(&mut self, node: &crate::ast::Program)
        requires
            old(self).wf(),
        ensures
            final(self)@ == v_build_types(old(self)@, node),
            final(self).wf(),
    {
        let ghost st0 = self@;
        let dn = self.declared_types.len();
        let mut k: usize = 0;
        while k < dn
            invariant
                k <= dn,
                dn == self.declared_types.len(),
                self.wf(),
                v_register_from(self@, node, k as int) == v_register_from(st0, node, 0),
            decreases dn - k,
        {
            let idx = self.declared_types[k];
            if idx < node.statements.len() {
                match &node.statements[idx] {
                    crate::ast::Statement::StatementTypeDef(td) => {
                        let shell = self.build_shell(td);
                        let ghost mid = self@;
                        self.types_tree.add_type(shell);
                        proof {
                            assert(self@ =~= (StateV {
                                tree: tree_add(mid.tree, shell_node(td)),
                                ..mid
                            }));
                        }
                    },
                    _ => {},
                }
            }
            k += 1;
        }
        let ghost st1 = self@;
        let mut k2: usize = 0;
        while k2 < dn
            invariant
                k2 <= dn,
                dn == self.declared_types.len(),
                self.wf(),
                v_link_from(self@, node, k2 as int) == v_link_from(st1, node, 0),
            decreases dn - k2,
        {
            let idx = self.declared_types[k2];
            if idx < node.statements.len() {
                match &node.statements[idx] {
                    crate::ast::Statement::StatementTypeDef(td) => {
                        match &td.parent {
                            Some(pn) => {
                                if self.types_tree.get_type(pn.as_str()).is_some() {
                                    let ghost mid = self@;
                                    self.types_tree.set_parent(
                                        td.identifier.as_str(),
                                        clone_string(pn),
                                    );
                                    proof {
                                        assert(self@ =~= (StateV {
                                            tree: tree_set_parent(mid.tree, td.identifier@, pn@),
                                            ..mid
                                        }));
                                    }
                                    let plen = match self.types_tree.get_type(pn.as_str()) {
                                        Some(pnode) => pnode.params.len(),
                                        None => 0,
                                    };
                                    if td.parent_args.len() != plen {
                                        self.new_error(
                                            SemanticError::InvalidTypeArgumentCount(
                                                td.parent_args.len(),
                                                plen,
                                                clone_string(pn),
                                                td.span,
                                            ),
                                        );
                                    }
                                } else {
                                    self.new_error(
                                        SemanticError::UndefinedType(clone_string(pn), td.span),
                                    );
                                }
                            },
                            None => {},
                        }
                    },
                    _ => {},
                }
            }
            k2 += 1;
        }
        let cyc = match self.types_tree.check_cycle() {
            Some(n) => Some(clone_string(n)),
            None => None,
        };
        match cyc {
            Some(name) => {
                let sp = self.cycle_span(node, name.as_str());
                self.new_error(SemanticError::CycleDetected(name, sp));
            },
            None => {},
        }
    }

    /// The span of the collected definition with the given name.
    fn cycle_span(&self, p: &crate::ast::Program, name: &str) -> (r: Span)
        ensures
            r == declared_span_from(p, self@.declared, name@, 0),
    {
        let dn = self.declared_types.len();
        let mut j: usize = 0;
        while j < dn
            invariant
                dn == self.declared_types.len(),
                j <= dn,
                declared_span_from(p, self@.declared, name@, j as int) == declared_span_from(
                    p,
                    self@.declared,
                    name@,
                    0,
                ),
            decreases dn - j,
        {
            let idx = self.declared_types[j];
            if idx < p.statements.len() {
                match &p.statements[idx] {
                    crate::ast::Statement::StatementTypeDef(td) => {
                        if str_eq(td.identifier.as_str(), name) {
                            return td.span;
                        }
                    },
                    _ => {},
                }
            }
            j += 1;
        }
        Span::new(0, 0)
    }

    /// Third pass: collect function declarations and their signatures.
    #[verifier::loop_isolation(false)]
    pub fn get_functions_names_and_signatures(&mut self, node: &crate::ast::Program)
        requires
            old(self).wf(),
        ensures
            final(self)@ == v_collect_functions_from(old(self)@, node, 0),
            final(self).wf(),
    {
        let ghost st0 = self@;
        let n = node.statements.len();
        let mut i: usize = 0;
        while i < n
            invariant
                i <= n,
                self.wf(),
                v_collect_functions_from(self@, node, i as int) == v_collect_functions_from(
                    st0,
                    node,
                    0,
                ),
            decreases n - i,
        {
            match &node.statements[i] {
                crate::ast::Statement::StatementFunctionDef(f) => {
                    let ghost stf = self@;
                    let mut acc: Vec<(String, String)> = Vec::new();
                    proof {
                        assert(acc.deep_view() =~= Seq::<(Seq<char>, Seq<char>)>::empty());
                    }
                    let pn = f.params.len();
                    let mut j: usize = 0;
                    while j < pn
                        invariant
                            pn == f.params.len(),
                            j <= pn,
                            self.wf(),
                            v_fn_params_from(self@, f, j as int, acc.deep_view())
                                == v_fn_params_from(stf, f, 0, Seq::empty()),
                        decreases pn - j,
                    {
                        let p = &f.params[j];
                        if self.types_tree.get_type(p.signature.as_str()).is_some() {
                            if has_param(&acc, p.name.as_str()) {
                                self.new_error(
                                    SemanticError::ParamNameAlreadyExist(
                                        clone_string(&p.name),
                                        clone_string(&f.name),
                                        DefKind::Function,
                                        p.span,
                                    ),
                                );
                            } else {
                                let ghost pre = acc.deep_view();
                                acc.push((clone_string(&p.name), clone_string(&p.signature)));
                                proof {
                                    assert(acc.deep_view() =~= pre.push(
                                        (p.name@, p.signature@),
                                    ));
                                }
                            }
                        } else {
                            self.new_error(
                                SemanticError::UndefinedType(clone_string(&p.signature), p.span),
                            );
                            let ghost pre = acc.deep_view();
                            acc.push((clone_string(&p.name), String::from_str("Unknown")));
                            proof {
                                assert(acc.deep_view() =~= pre.push((p.name@, "Unknown"@)));
                            }
                        }
                        j += 1;
                    }
                    if self.declared_functions.contains_key(f.name.as_str()) {
                        self.new_error(
                            SemanticError::RedefinitionOfFunction(clone_string(&f.name), f.span),
                        );
                    } else {
                        let ret = if self.types_tree.get_type(f.return_type.as_str()).is_some() {
                            clone_string(&f.return_type)
                        } else {
                            String::from_str("Unknown")
                        };
                        let ghost accv = acc.deep_view();
                        let ghost retv = ret@;
                        let info = FunctionInfo::new(clone_string(&f.name), acc, ret);
                        let ghost mid = self@;
                        self.declared_functions.insert(clone_string(&f.name), info);
                        proof {
                            assert(self@ =~= (StateV {
                                functions: mid.functions.insert(
                                    f.name@,
                                    FunctionInfoV {
                                        name: f.name@,
                                        arg_types: accv,
                                        return_type: retv,
                                    },
                                ),
                                ..mid
                            }));
                        }
                    }
                },
                _ => {},
            }
            i += 1;
        }
    }

    /// The whole analysis: collect types, build the registry, collect
    /// functions, then type every statement.  `Ok` exactly when no diagnostic
    /// was recorded; `Err` carries the accumulated diagnostics.
    #[verifier::loop_isolation(false)]
    pub fn analyze(&mut self, node: &crate::ast::Program) -> (r: Result<
        (),
        Vec<SemanticError>,
    >)
        requires
            old(self).wf(),
        ensures
            final(self)@ == v_program(old(self)@, node),
            final(self).wf(),
            r is Ok <==> final(self)@.errors.len() == 0,
            (r matches Err(es) ==> es.deep_view() == final(self)@.errors),
    {
        self.get_types_definitions(node);
        self.build_types(node);
        self.get_functions_names_and_signatures(node);
        let ghost st3 = self@;
        let n = node.statements.len();
        let mut i: usize = 0;
        while i < n
            invariant
                i <= n,
                self.wf(),
                v_statements_from(self@, node, i as int) == v_statements_from(st3, node, 0),
            decreases n - i,
        {
            match &node.statements[i] {
                crate::ast::Statement::StatementExpression(e) => {
                    self.visit_expression(e);
                },
                crate::ast::Statement::StatementFunctionDef(f) => {
                    self.visit_function_def(f);
                },
                crate::ast::Statement::StatementTypeDef(t) => {
                    self.visit_type_def(t);
                },
            }
            i += 1;
        }
        if self.errors.is_empty() {
            Ok(())
        } else {
            Err(self.duplicate_errors())
        }
    }

    /// The annotations recorded so far, in traversal order.
    pub fn annotations(&self) -> (r: &Vec<TypeAnnotation>)
        ensures
            r.deep_view() == self@.anns,
    {
        &self.annotations
    }

    /// An equal copy of the diagnostics list.
    fn duplicate_errors(&self) -> (r: Vec<SemanticError>)
        ensures
            r.deep_view() == self@.errors,
    {
        let n = self.errors.len();
        let mut out: Vec<SemanticError> = Vec::new();
        let mut j: usize = 0;
        while j < n
            invariant
                n == self.errors.len(),
                j <= n,
                out@.len() == j,
                forall|m: int| 0 <= m < j ==> (#[trigger] out@[m])@ == self.errors@[m]@,
            decreases n - j,
        {
            out.push(self.errors[j].duplicate());
            j += 1;
        }
        proof {
            assert(out.deep_view() =~= self.errors.deep_view());
        }
        out
    }
}

/// Whether a collected parameter list already holds this name.
fn has_param(acc: &Vec<(String, String)>, name: &str) -> (r: bool)
    ensures
        r == exists|k: int|
            0 <= k < acc.deep_view().len() && acc.deep_view()[k].0 == name@,
{
    let n = acc.len();
    let mut j: usize = 0;
    while j < n
        invariant
            n == acc.len(),
            j <= n,
            forall|m: int| 0 <= m < j ==> acc.deep_view()[m].0 != name@,
        decreases n - j,
    {
        if str_eq(acc[j].0.as_str(), name) {
            proof {
                assert(acc.deep_view()[j as int].0 == name@);
            }
            return true;
        }
        j += 1;
    }
    false
}

/// The printed form of an operator.
pub fn op_text(op: OperatorToken) -> (r: &'static str)
    ensures
        r@ == op_symbol(op),
{
    match op {
        OperatorToken::PLUS => "+",
        OperatorToken::MINUS => "-",
        OperatorToken::MUL => "*",
        OperatorToken::DIV => "/",
        OperatorToken::MOD => "%",
        OperatorToken::POW => "^",
        OperatorToken::NOT => "!",
        OperatorToken::EQ => "==",
        OperatorToken::NEQ => "!=",
        OperatorToken::GT => ">",
        OperatorToken::GTE => ">=",
        OperatorToken::LT => "<",
        OperatorToken::LTE => "<=",
        OperatorToken::AND => "&&",
        OperatorToken::OR => "||",
        OperatorToken::DOT => ".",
        OperatorToken::ASSIGN => "=",
        OperatorToken::DASSIGN => ":=",
        OperatorToken::NEG => "-",
        OperatorToken::CONCAT => "@",
    }
}

} // verus!
