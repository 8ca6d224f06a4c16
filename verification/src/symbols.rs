//! Symbol records for variables, functions and classes, and the central
//! table that owns them.
//!
//! A class's fields and methods must stay visible through every reference to
//! the class while the class body is still being checked, so records are
//! shared by index: every record lives once in a `SymbolTable`, and scopes
//! and class symbols hold indices into it. A mutation made through one index
//! (assigning an inferred type, flipping the initialized flag, appending a
//! field) is then observed through every other.

use vstd::prelude::*;
use crate::node::{FunctionDefinitionParameter, ParamV, VarType, params_dv};
use crate::text::str_eq;
use crate::types::{DataType, TypeV};

verus! {

/// A variable's record: its mutability, name, type (absent until inferred)
/// and whether it has been given a value yet.
pub struct VariableSymbol {
    pub var_type: VarType,
    pub name: String,
    pub data_type: Option<DataType>,
    pub initialized: bool,
}

/// How a function was declared: with no body (to be linked from outside),
/// as a class constructor, or as an ordinary function.
#[derive(Clone, Copy, PartialEq, Eq, Structural, Debug)]
pub enum FunctionType {
    ExternalFunction,
    Constructor,
    Function,
}

/// A function's record: name, return type, kind and declared parameters.
/// Immutable once created.
pub struct FunctionSymbol {
    pub name: String,
    pub data_type: DataType,
    pub function_type: FunctionType,
    pub params: Vec<FunctionDefinitionParameter>,
}

/// A class's record: its name and the indices of its field and method
/// records, both in declaration order, both growing while the class body is
/// checked.
pub struct ClassSymbol {
    pub name: String,
    pub fields: Vec<usize>,
    pub functions: Vec<usize>,
}

/// A reference to a symbol record: which kind it is, and its index in the
/// corresponding table.
#[derive(Clone, Copy, PartialEq, Eq, Structural, Debug)]
pub enum Symbol {
    Function(usize),
    Variable(usize),
    Class(usize),
}

/// The central arena: every symbol record of a checking pass lives in one of
/// these three vectors.
pub struct SymbolTable {
    pub vars: Vec<VariableSymbol>,
    pub funs: Vec<FunctionSymbol>,
    pub classes: Vec<ClassSymbol>,
}

/// The mathematical value of a variable record.
pub struct VarSymV {
    pub var_type: VarType,
    pub name: Seq<char>,
    pub data_type: Option<TypeV>,
    pub initialized: bool,
}

/// The mathematical value of a function record.
pub struct FunSymV {
    pub name: Seq<char>,
    pub data_type: TypeV,
    pub function_type: FunctionType,
    pub params: Seq<ParamV>,
}

/// The mathematical value of a class record.
pub struct ClassSymV {
    pub name: Seq<char>,
    pub fields: Seq<usize>,
    pub functions: Seq<usize>,
}

/// The mathematical value of the whole table.
pub struct TableV {
    pub vars: Seq<VarSymV>,
    pub funs: Seq<FunSymV>,
    pub classes: Seq<ClassSymV>,
}

/// The mathematical value of an optional type.
pub open spec fn opt_type_dv(o: Option<DataType>) -> Option<TypeV> {
    match o {
        Some(t) => Some(t.dv()),
        None => None,
    }
}

impl VariableSymbol {
    /// The mathematical value of this record.
    pub open spec fn dv(self) -> VarSymV {
        VarSymV {
            var_type: self.var_type,
            name: self.name@,
            data_type: opt_type_dv(self.data_type),
            initialized: self.initialized,
        }
    }

    /// Build a variable record from its parts.
    pub fn new(var_type: VarType, name: String, data_type: Option<DataType>, initialized: bool) -> (r: VariableSymbol)
        ensures
            r.dv() == (VarSymV {
                var_type,
                name: name@,
                data_type: opt_type_dv(data_type),
                initialized,
            }),
    {
        VariableSymbol { var_type, name, data_type, initialized }
    }
}

impl FunctionSymbol {
    /// The mathematical value of this record.
    pub open spec fn dv(self) -> FunSymV {
        FunSymV {
            name: self.name@,
            data_type: self.data_type.dv(),
            function_type: self.function_type,
            params: params_dv(self.params@),
        }
    }

    /// Build a function record from its parts.
    pub fn new(
        name: String,
        data_type: DataType,
        function_type: FunctionType,
        params: Vec<FunctionDefinitionParameter>,
    ) -> (r: FunctionSymbol)
        ensures
            r.dv() == (FunSymV {
                name: name@,
                data_type: data_type.dv(),
                function_type,
                params: params_dv(params@),
            }),
    {
        FunctionSymbol { name, data_type, function_type, params }
    }
}

/// The first index in `list`, scanning from position `i`, whose variable
/// record in `vars` carries `name`.
pub open spec fn find_var_from(list: Seq<usize>, vars: Seq<VarSymV>, name: Seq<char>, i: int) -> Option<usize>
    decreases list.len() - i,
{
    if i < 0 || i >= list.len() {
        None
    } else if list[i] < vars.len() && vars[list[i] as int].name == name {
        Some(list[i])
    } else {
        find_var_from(list, vars, name, i + 1)
    }
}

/// The first index in `list`, scanning from position `i`, whose function
/// record in `funs` carries `name`.
pub open spec fn find_fun_from(list: Seq<usize>, funs: Seq<FunSymV>, name: Seq<char>, i: int) -> Option<usize>
    decreases list.len() - i,
{
    if i < 0 || i >= list.len() {
        None
    } else if list[i] < funs.len() && funs[list[i] as int].name == name {
        Some(list[i])
    } else {
        find_fun_from(list, funs, name, i + 1)
    }
}

/// The first index in `list`, scanning from position `i`, whose class
/// record in `classes` carries `name`.
pub open spec fn find_class_from(list: Seq<usize>, classes: Seq<ClassSymV>, name: Seq<char>, i: int) -> Option<usize>
    decreases list.len() - i,
{
    if i < 0 || i >= list.len() {
        None
    } else if list[i] < classes.len() && classes[list[i] as int].name == name {
        Some(list[i])
    } else {
        find_class_from(list, classes, name, i + 1)
    }
}

impl ClassSymbol {
    /// The mathematical value of this record.
    pub open spec fn dv(self) -> ClassSymV {
        ClassSymV { name: self.name@, fields: self.fields@, functions: self.functions@ }
    }

    /// Build an empty class record: no fields, no methods yet.
    pub fn new(name: String) -> (r: ClassSymbol)
        ensures
            r.dv() == (ClassSymV { name: name@, fields: Seq::<usize>::empty(), functions: Seq::<usize>::empty() }),
    {
        ClassSymbol { name, fields: Vec::new(), functions: Vec::new() }
    }

    /// The index of the first field of this class named `name`, if any.
    pub fn get_field(&self, table: &SymbolTable, name: &str) -> (r: Option<usize>)
        ensures
            r == find_var_from(self.dv().fields, table.dv().vars, name@, 0),
    {
        let n = self.fields.len();
        let mut i: usize = 0;
        while i < n
            invariant
                n == self.fields.len(),
                i <= n,
                find_var_from(self.dv().fields, table.dv().vars, name@, 0) == find_var_from(
                    self.dv().fields,
                    table.dv().vars,
                    name@,
                    i as int,
                ),
            decreases n - i,
        {
            let idx = self.fields[i];
            if idx < table.vars.len() {
                if str_eq(table.vars[idx].name.as_str(), name) {
                    return Some(idx);
                }
            }
            i = i + 1;
        }
        None
    }

    /// The index of the first method of this class named `name`, if any.
    pub fn get_function(&self, table: &SymbolTable, name: &str) -> (r: Option<usize>)
        ensures
            r == find_fun_from(self.dv().functions, table.dv().funs, name@, 0),
    {
        let n = self.functions.len();
        let mut i: usize = 0;
        while i < n
            invariant
                n == self.functions.len(),
                i <= n,
                find_fun_from(self.dv().functions, table.dv().funs, name@, 0) == find_fun_from(
                    self.dv().functions,
                    table.dv().funs,
                    name@,
                    i as int,
                ),
            decreases n - i,
        {
            let idx = self.functions[i];
            if idx < table.funs.len() {
                if str_eq(table.funs[idx].name.as_str(), name) {
                    return Some(idx);
                }
            }
            i = i + 1;
        }
        None
    }
}

impl SymbolTable {
    /// The mathematical value of this table.
    pub open spec fn dv(self) -> TableV {
        TableV {
            vars: self.vars@.map_values(|v: VariableSymbol| v.dv()),
            funs: self.funs@.map_values(|f: FunctionSymbol| f.dv()),
            classes: self.classes@.map_values(|c: ClassSymbol| c.dv()),
        }
    }

    /// An empty table.
    pub fn new() -> (r: SymbolTable)
        ensures
            r.dv() == (TableV {
                vars: Seq::<VarSymV>::empty(),
                funs: Seq::<FunSymV>::empty(),
                classes: Seq::<ClassSymV>::empty(),
            }),
    {
        let r = SymbolTable { vars: Vec::new(), funs: Vec::new(), classes: Vec::new() };
        proof {
            assert(r.dv().vars =~= Seq::<VarSymV>::empty());
            assert(r.dv().funs =~= Seq::<FunSymV>::empty());
            assert(r.dv().classes =~= Seq::<ClassSymV>::empty());
        }
        r
    }

    /// Add a variable record; its index is returned.
    pub fn add_variable(&mut self, sym: VariableSymbol) -> (r: usize)
        ensures
            r == old(self).dv().vars.len(),
            final(self).dv().vars == old(self).dv().vars.push(sym.dv()),
            final(self).dv().funs == old(self).dv().funs,
            final(self).dv().classes == old(self).dv().classes,
    {
        let ghost pre = self.dv();
        let r = self.vars.len();
        self.vars.push(sym);
        proof {
            assert(self.dv().vars =~= pre.vars.push(sym.dv()));
            assert(self.dv().funs =~= pre.funs);
            assert(self.dv().classes =~= pre.classes);
        }
        r
    }

    /// Add a function record; its index is returned.
    pub fn add_function(&mut self, sym: FunctionSymbol) -> (r: usize)
        ensures
            r == old(self).dv().funs.len(),
            final(self).dv().funs == old(self).dv().funs.push(sym.dv()),
            final(self).dv().vars == old(self).dv().vars,
            final(self).dv().classes == old(self).dv().classes,
    {
        let ghost pre = self.dv();
        let r = self.funs.len();
        self.funs.push(sym);
        proof {
            assert(self.dv().funs =~= pre.funs.push(sym.dv()));
            assert(self.dv().vars =~= pre.vars);
            assert(self.dv().classes =~= pre.classes);
        }
        r
    }

    /// Add a class record; its index is returned.
    pub fn add_class(&mut self, sym: ClassSymbol) -> (r: usize)
        ensures
            r == old(self).dv().classes.len(),
            final(self).dv().classes == old(self).dv().classes.push(sym.dv()),
            final(self).dv().vars == old(self).dv().vars,
            final(self).dv().funs == old(self).dv().funs,
    {
        let ghost pre = self.dv();
        let r = self.classes.len();
        self.classes.push(sym);
        proof {
            assert(self.dv().classes =~= pre.classes.push(sym.dv()));
            assert(self.dv().vars =~= pre.vars);
            assert(self.dv().funs =~= pre.funs);
        }
        r
    }
}


/// An exact copy of an index list.
pub fn copy_indices(v: &Vec<usize>) -> (r: Vec<usize>)
    ensures
        r@ == v@,
{
    let n = v.len();
    let mut out: Vec<usize> = Vec::new();
    let mut i: usize = 0;
    while i < n
        invariant
            n == v.len(),
            i <= n,
            out@ == v@.subrange(0, i as int),
        decreases n - i,
    {
        out.push(v[i]);
        proof {
            assert(out@ =~= v@.subrange(0, i + 1));
        }
        i = i + 1;
    }
    proof {
        assert(out@ =~= v@);
    }
    out
}

/// A found variable index always lies inside the table.
pub proof fn lemma_find_var_in_bounds(list: Seq<usize>, vars: Seq<VarSymV>, name: Seq<char>, i: int)
    ensures
        find_var_from(list, vars, name, i) matches Some(r) ==> r < vars.len(),
    decreases list.len() - i,
{
    if 0 <= i < list.len() {
        lemma_find_var_in_bounds(list, vars, name, i + 1);
    }
}

/// A found function index always lies inside the table.
pub proof fn lemma_find_fun_in_bounds(list: Seq<usize>, funs: Seq<FunSymV>, name: Seq<char>, i: int)
    ensures
        find_fun_from(list, funs, name, i) matches Some(r) ==> r < funs.len(),
    decreases list.len() - i,
{
    if 0 <= i < list.len() {
        lemma_find_fun_in_bounds(list, funs, name, i + 1);
    }
}

/// A found class index always lies inside the table.
pub proof fn lemma_find_class_in_bounds(list: Seq<usize>, classes: Seq<ClassSymV>, name: Seq<char>, i: int)
    ensures
        find_class_from(list, classes, name, i) matches Some(r) ==> r < classes.len(),
    decreases list.len() - i,
{
    if 0 <= i < list.len() {
        lemma_find_class_in_bounds(list, classes, name, i + 1);
    }
}

} // verus!
