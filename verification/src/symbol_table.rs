//! A simple name table: each symbol with its kind and the scope label it was
//! declared in.

use vstd::prelude::*;
use crate::strmap::{clone_string, StrMap};

verus! {

/// What kind of thing a name denotes.
#[derive(Debug, Clone, Copy, PartialEq, Eq, Structural)]
pub enum SymbolType {
    Variable,
    Function,
}

/// One table entry: a name, its kind, and the scope it belongs to.
#[derive(Debug)]
pub struct Symbol {
    pub name: String,
    pub symbol_type: SymbolType,
    pub scope: String,
}

pub ghost struct SymbolV {
    pub name: Seq<char>,
    pub symbol_type: SymbolType,
    pub scope: Seq<char>,
}

impl View for Symbol {
    type V = SymbolV;

    open spec fn view(&self) -> SymbolV {
        SymbolV { name: self.name@, symbol_type: self.symbol_type, scope: self.scope@ }
    }
}

/// The table itself, keyed by symbol name.
pub struct SymbolTable {
    symbols: StrMap<Symbol>,
}

impl SymbolTable {
    pub closed spec fn view(&self) -> Map<Seq<char>, SymbolV> {
        self.symbols@
    }

    pub closed spec fn wf(&self) -> bool {
        self.symbols.wf()
    }

    /// An empty table.
    pub fn new() -> (r: Self)
        ensures
            r@ == Map::<Seq<char>, SymbolV>::empty(),
            r.wf(),
    {
        SymbolTable { symbols: StrMap::new() }
    }

    /// Records a symbol under its name, replacing any earlier entry.
    pub fn define(&mut self, symbol: Symbol)
        requires
            old(self).wf(),
        ensures
            final(self)@ == old(self)@.insert(symbol.name@, symbol@),
            final(self).wf(),
    {
        let key = clone_string(&symbol.name);
        self.symbols.insert(key, symbol);
    }

    /// Looks a symbol up by name.
    pub fn resolve(&self, name: &str) -> (r: Option<&Symbol>)
        requires
            self.wf(),
        ensures
            match r {
                Some(s) => self@.contains_key(name@) && s@ == self@[name@],
                None => !self@.contains_key(name@),
            },
    {
        self.symbols.get(name)
    }
}

} // verus!
