//! The registry of named types: inheritance edges, constructor parameters,
//! fields, and method signatures.
//!
//! Types are held in declaration order and refer to their parent by name;
//! ancestry is resolved by repeated lookup, with a fuel bound so that every
//! walk terminates even on a (user-error) cyclic hierarchy.

use vstd::prelude::*;
use crate::ast::Param;
use crate::strmap::{clone_string, str_eq, StrMap};

verus! {

/// The five pre-seeded types.  `Object` is the root of every declared type;
/// `Unknown` stands in wherever an error was already reported.
pub enum BuiltInTypes {
    Number,
    Boolean,
    String,
    Object,
    Unknown,
}

impl BuiltInTypes {
    /// The source-level name of the built-in type.
    pub fn as_str(&self) -> (r: &'static str)
        ensures
            r@ == self.spec_name(),
    {
        match self {
            BuiltInTypes::Number => "Number",
            BuiltInTypes::Boolean => "Boolean",
            BuiltInTypes::String => "String",
            BuiltInTypes::Object => "Object",
            BuiltInTypes::Unknown => "Unknown",
        }
    }

    pub open spec fn spec_name(&self) -> Seq<char> {
        match self {
            BuiltInTypes::Number => "Number"@,
            BuiltInTypes::Boolean => "Boolean"@,
            BuiltInTypes::String => "String"@,
            BuiltInTypes::Object => "Object"@,
            BuiltInTypes::Unknown => "Unknown"@,
        }
    }
}

/// A method signature kept in the registry: the body stays in the AST.
pub struct MethodSig {
    pub name: String,
    pub params: Vec<Param>,
    pub return_type: String,
}

#[verifier::ext_equal]
pub ghost struct ParamV {
    pub name: Seq<char>,
    pub signature: Seq<char>,
}

#[verifier::ext_equal]
pub ghost struct MethodSigV {
    pub name: Seq<char>,
    pub params: Seq<ParamV>,
    pub return_type: Seq<char>,
}

#[verifier::ext_equal]
pub ghost struct TypeNodeV {
    pub name: Seq<char>,
    pub params: Seq<ParamV>,
    pub parent: Option<Seq<char>>,
    pub variables: Map<Seq<char>, Seq<char>>,
    pub methods: Seq<MethodSigV>,
}

impl View for Param {
    type V = ParamV;

    open spec fn view(&self) -> ParamV {
        ParamV { name: self.name@, signature: self.signature@ }
    }
}

impl DeepView for Param {
    type V = ParamV;

    open spec fn deep_view(&self) -> ParamV {
        self.view()
    }
}

impl View for MethodSig {
    type V = MethodSigV;

    open spec fn view(&self) -> MethodSigV {
        MethodSigV {
            name: self.name@,
            params: self.params.deep_view(),
            return_type: self.return_type@,
        }
    }
}

impl DeepView for MethodSig {
    type V = MethodSigV;

    open spec fn deep_view(&self) -> MethodSigV {
        self.view()
    }
}

/// One registered type.
pub struct TypeNode {
    pub name: String,
    pub params: Vec<Param>,
    pub parent: Option<String>,
    pub variables: StrMap<String>,
    pub methods: Vec<MethodSig>,
}

impl DeepView for TypeNode {
    type V = TypeNodeV;

    open spec fn deep_view(&self) -> TypeNodeV {
        self.view()
    }
}

impl View for TypeNode {
    type V = TypeNodeV;

    open spec fn view(&self) -> TypeNodeV {
        TypeNodeV {
            name: self.name@,
            params: self.params.deep_view(),
            parent: match self.parent {
                Some(ref p) => Some(p@),
                None => None,
            },
            variables: self.variables@,
            methods: self.methods.deep_view(),
        }
    }
}

impl TypeNode {
    pub open spec fn wf(&self) -> bool {
        self.variables.wf()
    }

    /// A fresh node with no parent, fields, or methods.
    pub fn leaf(name: String) -> (r: Self)
        ensures
            r@ == (TypeNodeV {
                name: name@,
                params: Seq::empty(),
                parent: None,
                variables: Map::empty(),
                methods: Seq::empty(),
            }),
            r.wf(),
    {
        let r = TypeNode {
            name,
            params: Vec::new(),
            parent: None,
            variables: StrMap::new(),
            methods: Vec::new(),
        };
        proof {
            assert(r.params.deep_view() =~= Seq::<ParamV>::empty());
            assert(r.methods.deep_view() =~= Seq::<MethodSigV>::empty());
        }
        r
    }
}

/// First node of the given name, scanning in declaration order.
pub open spec fn tree_lookup(ts: Seq<TypeNodeV>, name: Seq<char>) -> Option<TypeNodeV>
    decreases ts.len(),
{
    if ts.len() == 0 {
        None
    } else if ts[0].name == name {
        Some(ts[0])
    } else {
        tree_lookup(ts.skip(1), name)
    }
}

/// Ancestor-or-self, walking the parent chain for at most `fuel` steps.
pub open spec fn is_ancestor_at(
    ts: Seq<TypeNodeV>,
    ancestor: Seq<char>,
    descendant: Seq<char>,
    fuel: nat,
) -> bool
    decreases fuel,
{
    if ancestor == descendant {
        true
    } else if fuel == 0 {
        false
    } else {
        match tree_lookup(ts, descendant) {
            Some(node) => match node.parent {
                Some(p) => is_ancestor_at(ts, ancestor, p, (fuel - 1) as nat),
                None => false,
            },
            None => false,
        }
    }
}

/// The fuel that suffices for any acyclic walk: one step per node.
pub open spec fn walk_fuel(ts: Seq<TypeNodeV>) -> nat {
    ts.len()
}

pub open spec fn spec_is_ancestor(ts: Seq<TypeNodeV>, ancestor: Seq<char>, descendant: Seq<char>) -> bool {
    is_ancestor_at(ts, ancestor, descendant, walk_fuel(ts))
}

/// Does the parent chain starting above `from` reach `target` within `fuel` steps?
pub open spec fn chain_reaches(
    ts: Seq<TypeNodeV>,
    from: Seq<char>,
    target: Seq<char>,
    fuel: nat,
) -> bool
    decreases fuel,
{
    if fuel == 0 {
        false
    } else {
        match tree_lookup(ts, from) {
            Some(node) => match node.parent {
                Some(p) => p == target || chain_reaches(ts, p, target, (fuel - 1) as nat),
                None => false,
            },
            None => false,
        }
    }
}

/// A type sits on an inheritance cycle when its own chain comes back to it.
pub open spec fn on_cycle(ts: Seq<TypeNodeV>, name: Seq<char>) -> bool {
    chain_reaches(ts, name, name, walk_fuel(ts))
}

/// First name of the lowest common ancestor walk: the first entry of `a`'s
/// ancestor chain (starting at `a` itself) that is also an ancestor of `b`.
pub open spec fn lca_walk(ts: Seq<TypeNodeV>, a: Seq<char>, b: Seq<char>, fuel: nat) -> Option<
    Seq<char>,
>
    decreases fuel,
{
    if fuel == 0 {
        None
    } else if spec_is_ancestor(ts, a, b) {
        Some(a)
    } else {
        match tree_lookup(ts, a) {
            Some(node) => match node.parent {
                Some(p) => lca_walk(ts, p, b, (fuel - 1) as nat),
                None => None,
            },
            None => None,
        }
    }
}

pub open spec fn spec_find_lca(ts: Seq<TypeNodeV>, a: Seq<char>, b: Seq<char>) -> Seq<char> {
    match lca_walk(ts, a, b, walk_fuel(ts)) {
        Some(n) => n,
        None => "Object"@,
    }
}

/// First method of the given name on the ancestor chain of `ty`.
pub open spec fn spec_find_method(
    ts: Seq<TypeNodeV>,
    ty: Seq<char>,
    method: Seq<char>,
    fuel: nat,
) -> Option<MethodSigV>
    decreases fuel,
{
    if fuel == 0 {
        None
    } else {
        match tree_lookup(ts, ty) {
            Some(node) => match method_lookup(node.methods, method) {
                Some(m) => Some(m),
                None => match node.parent {
                    Some(p) => spec_find_method(ts, p, method, (fuel - 1) as nat),
                    None => None,
                },
            },
            None => None,
        }
    }
}

pub open spec fn method_lookup(ms: Seq<MethodSigV>, name: Seq<char>) -> Option<MethodSigV>
    decreases ms.len(),
{
    if ms.len() == 0 {
        None
    } else if ms[0].name == name {
        Some(ms[0])
    } else {
        method_lookup(ms.skip(1), name)
    }
}

/// The five pre-seeded nodes; `Number`, `Boolean` and `String` hang off
/// `Object`, while `Unknown` stands apart.
pub open spec fn builtin_nodes() -> Seq<TypeNodeV> {
    seq![
        TypeNodeV {
            name: "Object"@,
            params: Seq::empty(),
            parent: None,
            variables: Map::empty(),
            methods: Seq::empty(),
        },
        TypeNodeV {
            name: "Number"@,
            params: Seq::empty(),
            parent: Some("Object"@),
            variables: Map::empty(),
            methods: Seq::empty(),
        },
        TypeNodeV {
            name: "Boolean"@,
            params: Seq::empty(),
            parent: Some("Object"@),
            variables: Map::empty(),
            methods: Seq::empty(),
        },
        TypeNodeV {
            name: "String"@,
            params: Seq::empty(),
            parent: Some("Object"@),
            variables: Map::empty(),
            methods: Seq::empty(),
        },
        TypeNodeV {
            name: "Unknown"@,
            params: Seq::empty(),
            parent: None,
            variables: Map::empty(),
            methods: Seq::empty(),
        },
    ]
}

/// The registry itself: nodes in insertion order, built-ins first.
pub struct TypeTree {
    nodes: Vec<TypeNode>,
}

impl TypeTree {
    pub closed spec fn view(&self) -> Seq<TypeNodeV> {
        self.nodes.deep_view()
    }

    pub closed spec fn wf(&self) -> bool {
        forall|i: int| 0 <= i < self.nodes@.len() ==> (#[trigger] self.nodes@[i]).wf()
    }

    /// A registry holding only the built-in types.
    pub fn new() -> (r: Self)
        ensures
            r@ == builtin_nodes(),
            r.wf(),
    {
        let mut nodes: Vec<TypeNode> = Vec::new();
        nodes.push(TypeNode::leaf(String::from_str("Object")));
        let mut number = TypeNode::leaf(String::from_str("Number"));
        number.parent = Some(String::from_str("Object"));
        nodes.push(number);
        let mut boolean = TypeNode::leaf(String::from_str("Boolean"));
        boolean.parent = Some(String::from_str("Object"));
        nodes.push(boolean);
        let mut stringly = TypeNode::leaf(String::from_str("String"));
        stringly.parent = Some(String::from_str("Object"));
        nodes.push(stringly);
        nodes.push(TypeNode::leaf(String::from_str("Unknown")));
        let r = TypeTree { nodes };
        proof {
            assert(r@ =~= builtin_nodes());
        }
        r
    }

    fn find_index(&self, name: &str) -> (r: Option<usize>)
        ensures
            match r {
                Some(j) => j < self@.len() && self@[j as int].name == name@ && (forall|m: int|
                    0 <= m < j ==> self@[m].name != name@),
                None => forall|m: int| 0 <= m < self@.len() ==> self@[m].name != name@,
            },
    {
        let n = self.nodes.len();
        let mut j: usize = 0;
        while j < n
            invariant
                n == self.nodes.len(),
                j <= n,
                forall|m: int| 0 <= m < j ==> self@[m].name != name@,
            decreases n - j,
        {
            if str_eq(self.nodes[j].name.as_str(), name) {
                return Some(j);
            }
            j += 1;
        }
        None
    }

    /// Looks a type up by name.
    pub fn get_type(&self, name: &str) -> (r: Option<&TypeNode>)
        ensures
            match r {
                Some(node) => tree_lookup(self@, name@) == Some(node@) && (self.wf() ==> node.wf()),
                None => tree_lookup(self@, name@) is None,
            },
    {
        proof {
            lemma_tree_lookup_index(self@, name@);
        }
        match self.find_index(name) {
            Some(j) => Some(&self.nodes[j]),
            None => None,
        }
    }

    /// Registers a new type; a name that is already present is left as it is.
    pub fn add_type(&mut self, node: TypeNode)
        requires
            old(self).wf(),
            node.wf(),
        ensures
            final(self)@ == if tree_lookup(old(self)@, node@.name) is Some {
                old(self)@
            } else {
                old(self)@.push(node@)
            },
            final(self).wf(),
    {
        proof {
            lemma_tree_lookup_index(self@, node.name@);
        }
        match self.find_index(node.name.as_str()) {
            Some(_) => {},
            None => {
                self.nodes.push(node);
                proof {
                    assert(self@ =~= old(self)@.push(node@));
                }
            },
        }
    }

    /// Sets the parent edge of an existing type.
    pub fn set_parent(&mut self, name: &str, parent: String)
        requires
            old(self).wf(),
        ensures
            final(self).wf(),
            final(self)@ == match first_index(old(self)@, name@) {
                Some(j) => old(self)@.update(
                    j,
                    TypeNodeV { parent: Some(parent@), ..old(self)@[j] },
                ),
                None => old(self)@,
            },
    {
        proof {
            lemma_tree_lookup_index(self@, name@);
        }
        match self.find_index(name) {
            Some(j) => {
                let mut patch = TypeNode::leaf(String::new());
                self.nodes.set_and_swap(j, &mut patch);
                patch.parent = Some(parent);
                self.nodes.set_and_swap(j, &mut patch);
                proof {
                    assert(first_index(old(self)@, name@) == Some(j as int));
                    assert(self@ =~= old(self)@.update(
                        j as int,
                        TypeNodeV { parent: Some(parent@), ..old(self)@[j as int] },
                    ));
                }
            },
            None => {
                proof {
                    assert(first_index(old(self)@, name@) is None);
                }
            },
        }
    }

    /// Records (or re-types) an instance field of an existing type.
    pub fn add_variable(&mut self, name: &str, member: String, member_type: String)
        requires
            old(self).wf(),
        ensures
            final(self).wf(),
            final(self)@ == match first_index(old(self)@, name@) {
                Some(j) => old(self)@.update(
                    j,
                    TypeNodeV {
                        variables: old(self)@[j].variables.insert(member@, member_type@),
                        ..old(self)@[j]
                    },
                ),
                None => old(self)@,
            },
    {
        proof {
            lemma_tree_lookup_index(self@, name@);
        }
        match self.find_index(name) {
            Some(j) => {
                let mut patch = TypeNode::leaf(String::new());
                self.nodes.set_and_swap(j, &mut patch);
                patch.variables.insert(member, member_type);
                self.nodes.set_and_swap(j, &mut patch);
                proof {
                    assert(first_index(old(self)@, name@) == Some(j as int));
                    assert(self@ =~= old(self)@.update(
                        j as int,
                        TypeNodeV {
                            variables: old(self)@[j as int].variables.insert(member@, member_type@),
                            ..old(self)@[j as int]
                        },
                    ));
                }
            },
            None => {
                proof {
                    assert(first_index(old(self)@, name@) is None);
                }
            },
        }
    }

    /// Reflexive ancestry along parent edges.
    pub fn is_ancestor(&self, ancestor: &str, descendant: &str) -> (r: bool)
        ensures
            r == spec_is_ancestor(self@, ancestor@, descendant@),
    {
        let fuel = self.nodes.len();
        let mut cur = String::from_str(descendant);
        let mut left = fuel;
        while left > 0
            invariant
                is_ancestor_at(self@, ancestor@, cur@, left as nat) == spec_is_ancestor(
                    self@,
                    ancestor@,
                    descendant@,
                ),
                left <= fuel,
            decreases left,
        {
            if str_eq(ancestor, cur.as_str()) {
                return true;
            }
            proof {
                lemma_tree_lookup_index(self@, cur@);
            }
            match self.find_index(cur.as_str()) {
                Some(j) => {
                    match &self.nodes[j].parent {
                        Some(p) => {
                            cur = clone_string(p);
                        },
                        None => {
                            return false;
                        },
                    }
                },
                None => {
                    return false;
                },
            }
            left -= 1;
        }
        str_eq(ancestor, cur.as_str())
    }

    /// The lowest common ancestor of two types; `Object` when the walk finds
    /// nothing better.
    pub fn find_lca(&self, a: &str, b: &str) -> (r: String)
        ensures
            r@ == spec_find_lca(self@, a@, b@),
    {
        let fuel = self.nodes.len();
        let mut cur = String::from_str(a);
        let mut left = fuel;
        while left > 0
            invariant
                lca_walk(self@, cur@, b@, left as nat) == lca_walk(
                    self@,
                    a@,
                    b@,
                    walk_fuel(self@),
                ),
                left <= fuel,
            decreases left,
        {
            if self.is_ancestor(cur.as_str(), b) {
                return cur;
            }
            proof {
                lemma_tree_lookup_index(self@, cur@);
            }
            match self.find_index(cur.as_str()) {
                Some(j) => {
                    match &self.nodes[j].parent {
                        Some(p) => {
                            cur = clone_string(p);
                        },
                        None => {
                            return String::from_str("Object");
                        },
                    }
                },
                None => {
                    return String::from_str("Object");
                },
            }
            left -= 1;
        }
        String::from_str("Object")
    }

    /// Finds a method by name on the type or one of its ancestors.
    pub fn find_method(&self, ty: &str, method: &str) -> (r: Option<&MethodSig>)
        ensures
            match r {
                Some(m) => spec_find_method(self@, ty@, method@, walk_fuel(self@)) == Some(m@),
                None => spec_find_method(self@, ty@, method@, walk_fuel(self@)) is None,
            },
    {
        let fuel = self.nodes.len();
        let mut cur = String::from_str(ty);
        let mut left = fuel;
        while left > 0
            invariant
                spec_find_method(self@, cur@, method@, left as nat) == spec_find_method(
                    self@,
                    ty@,
                    method@,
                    walk_fuel(self@),
                ),
                left <= fuel,
            decreases left,
        {
            proof {
                lemma_tree_lookup_index(self@, cur@);
            }
            match self.find_index(cur.as_str()) {
                Some(j) => {
                    let node = &self.nodes[j];
                    match method_index(&node.methods, method) {
                        Some(mi) => {
                            return Some(&node.methods[mi]);
                        },
                        None => {
                            match &node.parent {
                                Some(p) => {
                                    cur = clone_string(p);
                                },
                                None => {
                                    return None;
                                },
                            }
                        },
                    }
                },
                None => {
                    return None;
                },
            }
            left -= 1;
        }
        None
    }

    /// Reports the first declared type that sits on an inheritance cycle.
    pub fn check_cycle(&self) -> (r: Option<&String>)
        ensures
            match r {
                Some(name) => spec_check_cycle(self@) == Some(name@),
                None => spec_check_cycle(self@) is None,
            },
    {
        let n = self.nodes.len();
        let mut j: usize = 0;
        while j < n
            invariant
                n == self.nodes.len(),
                j <= n,
                forall|m: int| 0 <= m < j ==> !on_cycle(self@, self@[m].name),
            decreases n - j,
        {
            if self.walks_back_to(self.nodes[j].name.as_str()) {
                proof {
                    lemma_first_cycle_index(self@, j as int);
                }
                return Some(&self.nodes[j].name);
            }
            j += 1;
        }
        proof {
            assert(spec_check_cycle_from(self@, 0) is None) by {
                lemma_no_cycle(self@, 0);
            }
        }
        None
    }

    /// Whether the parent chain above `name` comes back to `name`.
    fn walks_back_to(&self, name: &str) -> (r: bool)
        ensures
            r == on_cycle(self@, name@),
    {
        let fuel = self.nodes.len();
        let mut cur = String::from_str(name);
        let mut left = fuel;
        while left > 0
            invariant
                chain_reaches(self@, cur@, name@, left as nat) == on_cycle(self@, name@),
                left <= fuel,
            decreases left,
        {
            proof {
                lemma_tree_lookup_index(self@, cur@);
            }
            match self.find_index(cur.as_str()) {
                Some(j) => {
                    match &self.nodes[j].parent {
                        Some(p) => {
                            if str_eq(p.as_str(), name) {
                                return true;
                            }
                            cur = clone_string(p);
                        },
                        None => {
                            return false;
                        },
                    }
                },
                None => {
                    return false;
                },
            }
            left -= 1;
        }
        false
    }
}

/// An equal copy of a parameter declaration.
pub fn clone_param(p: &Param) -> (r: Param)
    ensures
        r@ == p@,
{
    Param { name: clone_string(&p.name), signature: clone_string(&p.signature), span: p.span }
}

/// An equal copy of a parameter list.
pub fn clone_params(ps: &Vec<Param>) -> (r: Vec<Param>)
    ensures
        r.deep_view() == ps.deep_view(),
{
    let n = ps.len();
    let mut out: Vec<Param> = Vec::new();
    let mut j: usize = 0;
    while j < n
        invariant
            n == ps.len(),
            j <= n,
            out@.len() == j,
            forall|m: int| 0 <= m < j ==> (#[trigger] out@[m])@ == ps@[m]@,
        decreases n - j,
    {
        out.push(clone_param(&ps[j]));
        j += 1;
    }
    proof {
        assert(out.deep_view() =~= ps.deep_view());
    }
    out
}

impl MethodSig {
    /// An equal copy of the signature.
    pub fn duplicate(&self) -> (r: MethodSig)
        ensures
            r@ == self@,
    {
        MethodSig {
            name: clone_string(&self.name),
            params: clone_params(&self.params),
            return_type: clone_string(&self.return_type),
        }
    }
}

/// Index of the first method with the given name in a method list.
pub fn method_index<'a>(ms: &'a Vec<MethodSig>, name: &str) -> (r: Option<usize>)
    ensures
        match r {
            Some(mi) => mi < ms.len() && method_lookup(ms.deep_view(), name@) == Some(
                ms.deep_view()[mi as int],
            ),
            None => method_lookup(ms.deep_view(), name@) is None,
        },
{
    proof {
        lemma_method_lookup_index(ms.deep_view(), name@);
    }
    let n = ms.len();
    let mut j: usize = 0;
    while j < n
        invariant
            n == ms.len(),
            j <= n,
            forall|m: int| 0 <= m < j ==> ms.deep_view()[m].name != name@,
        decreases n - j,
    {
        if str_eq(ms[j].name.as_str(), name) {
            proof {
                lemma_method_lookup_index(ms.deep_view(), name@);
            }
            return Some(j);
        }
        j += 1;
    }
    None
}

/// Index of the first node with the given name.
pub open spec fn first_index(ts: Seq<TypeNodeV>, name: Seq<char>) -> Option<int> {
    if exists|i: int| 0 <= i < ts.len() && ts[i].name == name {
        Some(choose|i: int| 0 <= i < ts.len() && ts[i].name == name && (forall|m: int| 0 <= m < i ==> ts[m].name != name))
    } else {
        None
    }
}

/// `tree_lookup` agrees with scanning by index.
#[verifier::rlimit(50)]
pub proof fn lemma_tree_lookup_index(ts: Seq<TypeNodeV>, name: Seq<char>)
    ensures
        forall|j: int| #![all_triggers]
            0 <= j < ts.len() && ts[j].name == name && (forall|m: int| 0 <= m < j ==> ts[m].name
                != name) ==> tree_lookup(ts, name) == Some(ts[j]) && first_index(ts, name) == Some(
                j,
            ),
        (forall|m: int| 0 <= m < ts.len() ==> ts[m].name != name) ==> tree_lookup(ts, name) is None
            && first_index(ts, name) is None,
    decreases ts.len(),
{
    if ts.len() > 0 {
        lemma_tree_lookup_index(ts.skip(1), name);
        assert forall|j: int| #![all_triggers]
            0 <= j < ts.len() && ts[j].name == name && (forall|m: int| 0 <= m < j ==> ts[m].name
                != name) implies tree_lookup(ts, name) == Some(ts[j]) && first_index(ts, name)
            == Some(j) by {
            if j == 0 {
            } else {
                assert(ts[0].name != name);
                assert(forall|m: int| 0 <= m < j - 1 ==> ts.skip(1)[m].name != name);
                assert(ts.skip(1)[j - 1].name == name);
                assert(tree_lookup(ts.skip(1), name) == Some(ts.skip(1)[j - 1]));
            }
            if first_index(ts, name) != Some(j) {
                let i = choose|i: int|
                    0 <= i < ts.len() && ts[i].name == name && (forall|m: int|
                        0 <= m < i ==> ts[m].name != name);
                assert(ts[i].name == name);
                if i < j {
                    assert(ts[i].name != name);
                } else if j < i {
                    assert(ts[j].name != name);
                }
            }
        }
    }
}

pub proof fn lemma_method_lookup_index(ms: Seq<MethodSigV>, name: Seq<char>)
    ensures
        forall|j: int| #![all_triggers]
            0 <= j < ms.len() && ms[j].name == name && (forall|m: int| 0 <= m < j ==> ms[m].name
                != name) ==> method_lookup(ms, name) == Some(ms[j]),
        (forall|m: int| 0 <= m < ms.len() ==> ms[m].name != name) ==> method_lookup(ms, name) is None,
    decreases ms.len(),
{
    if ms.len() > 0 {
        lemma_method_lookup_index(ms.skip(1), name);
        assert forall|j: int| #![all_triggers]
            0 <= j < ms.len() && ms[j].name == name && (forall|m: int| 0 <= m < j ==> ms[m].name
                != name) implies method_lookup(ms, name) == Some(ms[j]) by {
            if j > 0 {
                assert(ms[0].name != name);
                assert(forall|m: int| 0 <= m < j - 1 ==> ms.skip(1)[m].name != name);
                assert(ms.skip(1)[j - 1].name == name);
            }
        }
    }
}

/// The first declared type on a cycle, scanning from `from`.
pub open spec fn spec_check_cycle_from(ts: Seq<TypeNodeV>, from: int) -> Option<Seq<char>>
    decreases ts.len() - from,
{
    if from < 0 || from >= ts.len() {
        None
    } else if on_cycle(ts, ts[from].name) {
        Some(ts[from].name)
    } else {
        spec_check_cycle_from(ts, from + 1)
    }
}

pub open spec fn spec_check_cycle(ts: Seq<TypeNodeV>) -> Option<Seq<char>> {
    spec_check_cycle_from(ts, 0)
}

proof fn lemma_first_cycle_index(ts: Seq<TypeNodeV>, j: int)
    requires
        0 <= j < ts.len(),
        on_cycle(ts, ts[j].name),
        forall|m: int| 0 <= m < j ==> !on_cycle(ts, ts[m].name),
    ensures
        spec_check_cycle(ts) == Some(ts[j].name),
{
    lemma_cycle_scan(ts, 0, j);
}

proof fn lemma_cycle_scan(ts: Seq<TypeNodeV>, from: int, j: int)
    requires
        0 <= from <= j < ts.len(),
        on_cycle(ts, ts[j].name),
        forall|m: int| from <= m < j ==> !on_cycle(ts, ts[m].name),
    ensures
        spec_check_cycle_from(ts, from) == Some(ts[j].name),
    decreases j - from,
{
    if from < j {
        lemma_cycle_scan(ts, from + 1, j);
    }
}

proof fn lemma_no_cycle(ts: Seq<TypeNodeV>, from: int)
    requires
        forall|m: int| 0 <= m < ts.len() ==> !on_cycle(ts, ts[m].name),
        from >= 0,
    ensures
        spec_check_cycle_from(ts, from) is None,
    decreases ts.len() - from,
{
    if from < ts.len() {
        lemma_no_cycle(ts, from + 1);
    }
}

/// Every type is an ancestor of itself, and a parent is an ancestor of each
/// of its children.
pub proof fn lemma_parent_is_ancestor(ts: Seq<TypeNodeV>, child: Seq<char>, parent: Seq<char>)
    requires
        tree_lookup(ts, child) is Some,
        tree_lookup(ts, child).unwrap().parent == Some(parent),
    ensures
        spec_is_ancestor(ts, child, child),
        spec_is_ancestor(ts, parent, child),
{
    lemma_tree_lookup_len(ts, child);
    if parent != child {
        assert(walk_fuel(ts) >= 1);
        assert(is_ancestor_at(ts, parent, parent, (walk_fuel(ts) - 1) as nat));
        assert(is_ancestor_at(ts, parent, child, walk_fuel(ts)));
    }
}

proof fn lemma_tree_lookup_len(ts: Seq<TypeNodeV>, name: Seq<char>)
    ensures
        tree_lookup(ts, name) is Some ==> ts.len() >= 1,
    decreases ts.len(),
{
    if ts.len() > 0 {
        lemma_tree_lookup_len(ts.skip(1), name);
    }
}

} // verus!
