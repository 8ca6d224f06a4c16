//! The scope chain: lookup contexts from the innermost block out to the
//! program root, each with its local variable, function and class tables,
//! and the transient override scope used for member-access resolution.

use vstd::prelude::*;
use crate::symbols::{
    ClassSymV, FunSymV, SymbolTable, VarSymV, find_class_from, find_fun_from, find_var_from,
};
use crate::text::str_eq;
use crate::types::{DataType, TypeV};

verus! {

/// What construct a scope belongs to: the program root, a function body
/// (with the function's name and declared return type), or a class body.
pub enum ScopeType {
    Root,
    Function(String, DataType),
    Class(String),
}

/// The mathematical value of a `ScopeType`.
pub enum ScopeTypeV {
    Root,
    Function(Seq<char>, TypeV),
    Class(Seq<char>),
}

impl ScopeType {
    /// The mathematical value of this scope kind.
    pub open spec fn dv(self) -> ScopeTypeV {
        match self {
            ScopeType::Root => ScopeTypeV::Root,
            ScopeType::Function(name, t) => ScopeTypeV::Function(name@, t.dv()),
            ScopeType::Class(name) => ScopeTypeV::Class(name@),
        }
    }
}

/// One lookup context: its kind, its parent (absent only at the root), its
/// three local symbol lists (indices into the central table, in declaration
/// order), and the optional override scope that redirects exactly the next
/// lookup.
pub struct Scope {
    pub scope: ScopeType,
    pub parent: Option<Box<Scope>>,
    pub variables: Vec<usize>,
    pub functions: Vec<usize>,
    pub classes: Vec<usize>,
    pub selected: Option<Box<Scope>>,
}

/// The mathematical value of a `Scope`.
pub struct ScopeV {
    pub scope: ScopeTypeV,
    pub parent: Option<Box<ScopeV>>,
    pub variables: Seq<usize>,
    pub functions: Seq<usize>,
    pub classes: Seq<usize>,
    pub selected: Option<Box<ScopeV>>,
}

impl Scope {
    /// The mathematical value of this scope and its whole parent chain.
    pub open spec fn dv(self) -> ScopeV
        decreases self,
    {
        ScopeV {
            scope: self.scope.dv(),
            parent: match self.parent {
                Some(p) => Some(Box::new((*p).dv())),
                None => None,
            },
            variables: self.variables@,
            functions: self.functions@,
            classes: self.classes@,
            selected: match self.selected {
                Some(s) => Some(Box::new((*s).dv())),
                None => None,
            },
        }
    }

    /// A fresh scope of the given kind under the given parent: empty local
    /// tables and no override.
    pub fn new(scope: ScopeType, parent: Option<Box<Scope>>) -> (r: Scope)
        ensures
            r.dv() == (ScopeV {
                scope: scope.dv(),
                parent: match parent {
                    Some(p) => Some(Box::new((*p).dv())),
                    None => None,
                },
                variables: Seq::<usize>::empty(),
                functions: Seq::<usize>::empty(),
                classes: Seq::<usize>::empty(),
                selected: None,
            }),
    {
        Scope {
            scope,
            parent,
            variables: Vec::new(),
            functions: Vec::new(),
            classes: Vec::new(),
            selected: None,
        }
    }
}

/// `s` with its override scope dropped; everything else unchanged.
pub open spec fn clear_override(s: ScopeV) -> ScopeV {
    ScopeV { selected: None, ..s }
}

/// Resolution of `name` as a variable through the plain chain: scan the
/// local list, then on a miss recurse into the parent; the root ends the
/// chain. The override plays no part here.
pub open spec fn chain_var(s: ScopeV, t: Seq<VarSymV>, name: Seq<char>) -> Option<usize>
    decreases s,
{
    match find_var_from(s.variables, t, name, 0) {
        Some(i) => Some(i),
        None => match s.parent {
            Some(p) => chain_var(*p, t, name),
            None => None,
        },
    }
}

/// Resolution of `name` as a function through the plain chain.
pub open spec fn chain_fun(s: ScopeV, t: Seq<FunSymV>, name: Seq<char>) -> Option<usize>
    decreases s,
{
    match find_fun_from(s.functions, t, name, 0) {
        Some(i) => Some(i),
        None => match s.parent {
            Some(p) => chain_fun(*p, t, name),
            None => None,
        },
    }
}

/// Resolution of `name` as a class through the plain chain.
pub open spec fn chain_class(s: ScopeV, t: Seq<ClassSymV>, name: Seq<char>) -> Option<usize>
    decreases s,
{
    match find_class_from(s.classes, t, name, 0) {
        Some(i) => Some(i),
        None => match s.parent {
            Some(p) => chain_class(*p, t, name),
            None => None,
        },
    }
}

/// A full variable lookup: when an override scope is active the lookup is
/// delegated entirely to it — local tables and parents are not consulted —
/// and otherwise it walks the plain chain.
pub open spec fn resolve_var(s: ScopeV, t: Seq<VarSymV>, name: Seq<char>) -> Option<usize> {
    match s.selected {
        Some(sel) => chain_var(*sel, t, name),
        None => chain_var(s, t, name),
    }
}

/// A full function lookup; see `resolve_var`.
pub open spec fn resolve_fun(s: ScopeV, t: Seq<FunSymV>, name: Seq<char>) -> Option<usize> {
    match s.selected {
        Some(sel) => chain_fun(*sel, t, name),
        None => chain_fun(s, t, name),
    }
}

/// A full class lookup; see `resolve_var`.
pub open spec fn resolve_class(s: ScopeV, t: Seq<ClassSymV>, name: Seq<char>) -> Option<usize> {
    match s.selected {
        Some(sel) => chain_class(*sel, t, name),
        None => chain_class(s, t, name),
    }
}

/// Whether `name` resolves to anything — variable, function or class —
/// through the plain chain.
pub open spec fn symbol_in_chain(s: ScopeV, t: crate::symbols::TableV, name: Seq<char>) -> bool {
    ||| chain_var(s, t.vars, name) is Some
    ||| chain_fun(s, t.funs, name) is Some
    ||| chain_class(s, t.classes, name) is Some
}

impl Scope {
    /// Scan this scope's local variable list, then its parents', for
    /// `name`; the override is ignored.
    fn chain_find_variable(&self, table: &SymbolTable, name: &str) -> (r: Option<usize>)
        ensures
            r == chain_var(self.dv(), table.dv().vars, name@),
        decreases *self,
    {
        let n = self.variables.len();
        let mut i: usize = 0;
        while i < n
            invariant
                n == self.variables.len(),
                i <= n,
                find_var_from(self.dv().variables, table.dv().vars, name@, 0) == find_var_from(
                    self.dv().variables,
                    table.dv().vars,
                    name@,
                    i as int,
                ),
            decreases n - i,
        {
            let idx = self.variables[i];
            if idx < table.vars.len() {
                if str_eq(table.vars[idx].name.as_str(), name) {
                    return Some(idx);
                }
            }
            i = i + 1;
        }
        match &self.parent {
            Some(p) => p.chain_find_variable(table, name),
            None => None,
        }
    }

    /// Scan this scope's local function list, then its parents', for
    /// `name`; the override is ignored.
    fn chain_find_function(&self, table: &SymbolTable, name: &str) -> (r: Option<usize>)
        ensures
            r == chain_fun(self.dv(), table.dv().funs, name@),
        decreases *self,
    {
        let n = self.functions.len();
        let mut i: usize = 0;
        while i < n
            invariant
                n == self.functions.len(),
                i <= n,
                find_fun_from(self.dv().functions, table.dv().funs, name@, 0) == find_fun_from(
                    self.dv().functions,
                    table.dv().funs,
                    name@,
                    i as int,
                ),
            decreases n - i,
        {
            let idx = self.functions[i];
            if idx < table.funs.len() {
                if str_eq(table.funs[idx].name.as_str(), name) {
                    return Some(idx);
                }
            }
            i = i + 1;
        }
        match &self.parent {
            Some(p) => p.chain_find_function(table, name),
            None => None,
        }
    }

    /// Scan this scope's local class list, then its parents', for `name`;
    /// the override is ignored.
    fn chain_find_class(&self, table: &SymbolTable, name: &str) -> (r: Option<usize>)
        ensures
            r == chain_class(self.dv(), table.dv().classes, name@),
        decreases *self,
    {
        let n = self.classes.len();
        let mut i: usize = 0;
        while i < n
            invariant
                n == self.classes.len(),
                i <= n,
                find_class_from(self.dv().classes, table.dv().classes, name@, 0) == find_class_from(
                    self.dv().classes,
                    table.dv().classes,
                    name@,
                    i as int,
                ),
            decreases n - i,
        {
            let idx = self.classes[i];
            if idx < table.classes.len() {
                if str_eq(table.classes[idx].name.as_str(), name) {
                    return Some(idx);
                }
            }
            i = i + 1;
        }
        match &self.parent {
            Some(p) => p.chain_find_class(table, name),
            None => None,
        }
    }

    /// Look `name` up as a variable. If an override scope is active it
    /// alone is consulted; the override is then dropped whether or not it
    /// held the name, so it redirects exactly one lookup.
    pub fn get_variable(&mut self, table: &SymbolTable, name: &str) -> (r: Option<usize>)
        ensures
            r == resolve_var(old(self).dv(), table.dv().vars, name@),
            final(self).dv() == clear_override(old(self).dv()),
    {
        let r = match &self.selected {
            Some(sel) => sel.chain_find_variable(table, name),
            None => self.chain_find_variable(table, name),
        };
        self.selected = None;
        r
    }

    /// Look `name` up as a function; the override rule of `get_variable`
    /// applies.
    pub fn get_function(&mut self, table: &SymbolTable, name: &str) -> (r: Option<usize>)
        ensures
            r == resolve_fun(old(self).dv(), table.dv().funs, name@),
            final(self).dv() == clear_override(old(self).dv()),
    {
        let r = match &self.selected {
            Some(sel) => sel.chain_find_function(table, name),
            None => self.chain_find_function(table, name),
        };
        self.selected = None;
        r
    }

    /// Look `name` up as a class; the override rule of `get_variable`
    /// applies.
    pub fn get_class(&mut self, table: &SymbolTable, name: &str) -> (r: Option<usize>)
        ensures
            r == resolve_class(old(self).dv(), table.dv().classes, name@),
            final(self).dv() == clear_override(old(self).dv()),
    {
        let r = match &self.selected {
            Some(sel) => sel.chain_find_class(table, name),
            None => self.chain_find_class(table, name),
        };
        self.selected = None;
        r
    }

    /// Whether `name` resolves to any symbol — variable, function or class
    /// — through the plain chain. Declarations use this to reject
    /// shadowing.
    pub fn symbol_exists(&self, table: &SymbolTable, name: &str) -> (r: bool)
        ensures
            r == symbol_in_chain(self.dv(), table.dv(), name@),
    {
        self.chain_find_variable(table, name).is_some() || self.chain_find_function(
            table,
            name,
        ).is_some() || self.chain_find_class(table, name).is_some()
    }
}

/// The override never leaks past a single lookup: once any lookup has run,
/// the override is gone, and the next lookup — whatever name it asks for —
/// resolves through the plain scope chain.
pub proof fn lemma_override_one_shot(s: ScopeV, t: Seq<VarSymV>, name: Seq<char>)
    ensures
        resolve_var(clear_override(s), t, name) == chain_var(s, t, name),
{
    lemma_chain_var_ignores_override(s, t, name);
}

/// The plain chain pays no attention to the override slot.
pub proof fn lemma_chain_var_ignores_override(s: ScopeV, t: Seq<VarSymV>, name: Seq<char>)
    ensures
        chain_var(clear_override(s), t, name) == chain_var(s, t, name),
{
    assert(clear_override(s).variables == s.variables);
    assert(clear_override(s).parent == s.parent);
}


/// A resolved variable index always lies inside the table.
pub proof fn lemma_chain_var_in_bounds(s: ScopeV, t: Seq<VarSymV>, name: Seq<char>)
    ensures
        chain_var(s, t, name) matches Some(r) ==> r < t.len(),
    decreases s,
{
    crate::symbols::lemma_find_var_in_bounds(s.variables, t, name, 0);
    match s.parent {
        Some(p) => lemma_chain_var_in_bounds(*p, t, name),
        None => {},
    }
}

/// A resolved function index always lies inside the table.
pub proof fn lemma_chain_fun_in_bounds(s: ScopeV, t: Seq<FunSymV>, name: Seq<char>)
    ensures
        chain_fun(s, t, name) matches Some(r) ==> r < t.len(),
    decreases s,
{
    crate::symbols::lemma_find_fun_in_bounds(s.functions, t, name, 0);
    match s.parent {
        Some(p) => lemma_chain_fun_in_bounds(*p, t, name),
        None => {},
    }
}

/// A resolved class index always lies inside the table.
pub proof fn lemma_chain_class_in_bounds(s: ScopeV, t: Seq<ClassSymV>, name: Seq<char>)
    ensures
        chain_class(s, t, name) matches Some(r) ==> r < t.len(),
    decreases s,
{
    crate::symbols::lemma_find_class_in_bounds(s.classes, t, name, 0);
    match s.parent {
        Some(p) => lemma_chain_class_in_bounds(*p, t, name),
        None => {},
    }
}

/// A full lookup's result always lies inside the table, whichever scope it
/// went through.
pub proof fn lemma_resolve_in_bounds(s: ScopeV, tv: Seq<VarSymV>, tf: Seq<FunSymV>, tc: Seq<ClassSymV>, name: Seq<char>)
    ensures
        resolve_var(s, tv, name) matches Some(r) ==> r < tv.len(),
        resolve_fun(s, tf, name) matches Some(r) ==> r < tf.len(),
        resolve_class(s, tc, name) matches Some(r) ==> r < tc.len(),
{
    lemma_chain_var_in_bounds(s, tv, name);
    lemma_chain_fun_in_bounds(s, tf, name);
    lemma_chain_class_in_bounds(s, tc, name);
    match s.selected {
        Some(sel) => {
            lemma_chain_var_in_bounds(*sel, tv, name);
            lemma_chain_fun_in_bounds(*sel, tf, name);
            lemma_chain_class_in_bounds(*sel, tc, name);
        },
        None => {},
    }
}

} // verus!
