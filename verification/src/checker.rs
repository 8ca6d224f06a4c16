//! The semantic checker: walks the parsed tree, resolves every identifier
//! through the scope chain, infers and validates types, enforces the
//! language's static rules, and produces a rewritten, type-annotated tree.
//! Every method returns exactly what the mirror functions of `checkspec`
//! define, state included; checking is fail-fast, so the first error aborts
//! the pass.

use vstd::prelude::*;
use vstd::pervasive::VecAdditionalExecFns;
use vstd::string::StringExecFns;
use crate::checkspec::{
    CheckError, CheckErrorKind, CheckResV, InfoV, StV, check_args_v, check_assignment_v, check_body_v,
    check_call_v, check_class_body_v, check_classdef_v, check_fundef_v, check_import_v,
    check_member_access_v, check_node_v, check_return_v, check_unit_v, check_value_v,
    check_vardef_v, clear_scope, err_at, imports_out, infer2_v, infer_v,
};
use crate::file::SourceFile;
use crate::node::{
    ArgV, FunctionCallParameter, FunctionDefinitionParameter, Node, NodeV, Operator, ValueNode,
    VarType, args_dv, clone_params, clone_pnode, clone_pstring, lemma_args_dv,
    lemma_args_dv_ge_helper, lemma_nodes_dv, lemma_nodes_dv_concat, lemma_size_nodes_from_ge,
    node_dv, nodes_dv, opt_pstring_dv, param_dv, params_dv, pnode_dv, pstring_dv, size_args_from,
    size_node, size_nodes_from, size_pnode, value_dv,
};
use crate::position::{Position, Positioned};
use crate::scope::{
    Scope, ScopeType, ScopeTypeV, ScopeV, clear_override, lemma_resolve_in_bounds, resolve_class,
    resolve_fun, resolve_var, symbol_in_chain,
};
use crate::symbols::{
    ClassSymV, ClassSymbol, FunSymV, FunctionSymbol, FunctionType, Symbol, SymbolTable, TableV,
    VarSymV, VariableSymbol, copy_indices,
};
use crate::types::{DataType, TypeV, compatible, spell_type};

verus! {

/// The summary of a checked expression: its statically known type, if any,
/// and the symbol it is bound to, if any.
pub struct NodeInfo {
    pub data_type: Option<DataType>,
    pub symbol: Option<Symbol>,
}

impl NodeInfo {
    /// The mathematical value of this summary.
    pub open spec fn dv(self) -> InfoV {
        InfoV { data_type: crate::symbols::opt_type_dv(self.data_type), symbol: self.symbol }
    }

    /// Bundle a type and a symbol reference.
    pub fn new(data_type: Option<DataType>, symbol: Option<Symbol>) -> (r: NodeInfo)
        ensures
            r.dv() == (InfoV { data_type: crate::symbols::opt_type_dv(data_type), symbol }),
    {
        NodeInfo { data_type, symbol }
    }
}

/// The mathematical value of the collected units.
pub open spec fn imports_dv(s: Seq<(Positioned<()>, Positioned<String>)>) -> Seq<
    (Positioned<()>, Positioned<Seq<char>>),
> {
    s.map_values(|p: (Positioned<()>, Positioned<String>)| (p.0, pstring_dv(p.1)))
}

/// What a node checker promises: the frame fields are untouched, and the
/// outcome — summary, rewritten nodes and state, or the error — is exactly
/// the mirror's.
pub open spec fn node_result_matches(
    pre: Checker,
    post: Checker,
    r: Result<(NodeInfo, Vec<Positioned<Node>>), CheckError>,
    m: CheckResV,
) -> bool {
    &&& post.src == pre.src
    &&& post.ast == pre.ast
    &&& post.index == pre.index
    &&& match (m, r) {
        (Ok(ok), Ok(ro)) => ro.0.dv() == ok.0 && nodes_dv(ro.1@) == ok.1 && post.st() == ok.2,
        (Err(e1), Err(e2)) => e1 == e2,
        _ => false,
    }
}

/// The semantic checker's working state: the source handle, the tree under
/// check, the cursor into it, the scope chain, the symbol table, and the
/// units collected for hoisting.
pub struct Checker {
    pub src: SourceFile,
    pub ast: Vec<Positioned<Node>>,
    pub index: usize,
    pub scope: Scope,
    pub table: SymbolTable,
    pub imports: Vec<(Positioned<()>, Positioned<String>)>,
}

impl Checker {
    /// The mathematical value of the checker's mutable state.
    pub open spec fn st(self) -> StV {
        StV { scope: self.scope.dv(), table: self.table.dv(), imports: imports_dv(self.imports@) }
    }

    /// A fresh checker over `ast`: an empty root scope, an empty table, and
    /// nothing collected yet.
    pub fn new(src: SourceFile, ast: Vec<Positioned<Node>>) -> (r: Checker)
        ensures
            r.src == src,
            r.ast == ast,
            r.index == 0,
            r.st() == (StV {
                scope: ScopeV {
                    scope: ScopeTypeV::Root,
                    parent: None,
                    variables: Seq::<usize>::empty(),
                    functions: Seq::<usize>::empty(),
                    classes: Seq::<usize>::empty(),
                    selected: None,
                },
                table: TableV {
                    vars: Seq::<VarSymV>::empty(),
                    funs: Seq::<FunSymV>::empty(),
                    classes: Seq::<ClassSymV>::empty(),
                },
                imports: Seq::<(Positioned<()>, Positioned<Seq<char>>)>::empty(),
            }),
    {
        let r = Checker {
            src,
            ast,
            index: 0,
            scope: Scope::new(ScopeType::Root, None),
            table: SymbolTable::new(),
            imports: Vec::new(),
        };
        proof {
            assert(imports_dv(r.imports@) =~= Seq::<(Positioned<()>, Positioned<Seq<char>>)>::empty());
        }
        r
    }

    /// Hand the source handle back once checking is over.
    pub fn take(self) -> (r: SourceFile)
        ensures
            r == self.src,
    {
        self.src
    }

    /// Move the cursor to the next top-level node.
    fn advance(&mut self)
        requires
            old(self).index < usize::MAX,
        ensures
            *final(self) == (Checker { index: (old(self).index + 1) as usize, ..*old(self) }),
    {
        self.index = self.index + 1;
    }

    /// The top-level node under the cursor, if the cursor is still inside
    /// the tree.
    fn current(&self) -> (r: Option<&Positioned<Node>>)
        ensures
            match r {
                Some(n) => self.index < self.ast@.len() && *n == self.ast@[self.index as int],
                None => self.index >= self.ast@.len(),
            },
    {
        if self.index < self.ast.len() {
            Some(&self.ast[self.index])
        } else {
            None
        }
    }

    /// The compatibility predicate between an expected and a found type.
    pub fn check_data_type(&self, expected: &DataType, found: &DataType) -> (r: bool)
        ensures
            r == compatible(expected.dv(), found.dv()),
    {
        if expected.same_as(found) {
            return true;
        }
        match expected {
            DataType::CDecimal => {
                if let DataType::Custom(inner) = found {
                    if crate::types::is_numeric_alias(inner.as_str()) {
                        return true;
                    }
                }
            },
            DataType::CString => {
                if let DataType::Custom(inner) = found {
                    if crate::text::str_eq(inner.as_str(), "c_string") {
                        return true;
                    }
                }
            },
            _ => {},
        }
        match found {
            DataType::CDecimal => {
                if let DataType::Custom(inner) = expected {
                    crate::types::is_numeric_alias(inner.as_str())
                } else {
                    false
                }
            },
            DataType::CString => {
                if let DataType::Custom(inner) = expected {
                    if crate::text::str_eq(inner.as_str(), "c_string") {
                        return true;
                    }
                }
                false
            },
            _ => false,
        }
    }

    /// One-sided unification of a checked expression against an expected
    /// type; an unset variable type is fixed to `other`, permanently.
    pub fn infer_and_check(&mut self, node_info: &NodeInfo, other: &DataType) -> (r: Result<
        DataType,
        CheckErrorKind,
    >)
        ensures
            final(self).src == old(self).src,
            final(self).ast == old(self).ast,
            final(self).index == old(self).index,
            final(self).scope == old(self).scope,
            final(self).imports == old(self).imports,
            match (infer_v(old(self).table.dv(), node_info.dv(), other.dv()), r) {
                (Ok(ok), Ok(d)) => d.dv() == ok.0 && final(self).table.dv() == ok.1,
                (Err(k1), Err(k2)) => k1 == k2 && final(self).table == old(self).table,
                _ => false,
            },
    {
        match &node_info.data_type {
            Some(dt) => {
                if self.check_data_type(other, dt) {
                    Ok(other.duplicate())
                } else {
                    Err(CheckErrorKind::TypeMismatch)
                }
            },
            None => match &node_info.symbol {
                Some(Symbol::Variable(vi)) => {
                    let vi = *vi;
                    if vi < self.table.vars.len() {
                        if self.table.vars[vi].data_type.is_some() {
                            let compat = match &self.table.vars[vi].data_type {
                                Some(dt) => self.check_data_type(other, dt),
                                None => false,
                            };
                            if compat {
                                Ok(other.duplicate())
                            } else {
                                Err(CheckErrorKind::TypeMismatch)
                            }
                        } else {
                            let ghost pre_vars = self.table.dv().vars;
                            let vt = self.table.vars[vi].var_type;
                            let init = self.table.vars[vi].initialized;
                            let name = self.table.vars[vi].name.clone();
                            self.table.vars.set(
                                vi,
                                VariableSymbol {
                                    var_type: vt,
                                    name,
                                    data_type: Some(other.duplicate()),
                                    initialized: init,
                                },
                            );
                            proof {
                                assert(self.table.dv().vars =~= pre_vars.update(
                                    vi as int,
                                    VarSymV { data_type: Some(other.dv()), ..pre_vars[vi as int] },
                                ));
                                assert(self.table.dv().funs =~= old(self).table.dv().funs);
                                assert(self.table.dv().classes =~= old(self).table.dv().classes);
                            }
                            Ok(other.duplicate())
                        }
                    } else {
                        Err(CheckErrorKind::UninferableType)
                    }
                },
                _ => Err(CheckErrorKind::UninferableType),
            },
        }
    }

    /// Two-sided best-effort unification: whichever side has a known type
    /// drives a one-sided unification of the other.
    pub fn infer_and_check2(&mut self, node_info: &NodeInfo, other: &NodeInfo) -> (r: Result<
        DataType,
        CheckErrorKind,
    >)
        ensures
            final(self).src == old(self).src,
            final(self).ast == old(self).ast,
            final(self).index == old(self).index,
            final(self).scope == old(self).scope,
            final(self).imports == old(self).imports,
            match (infer2_v(old(self).table.dv(), node_info.dv(), other.dv()), r) {
                (Ok(ok), Ok(d)) => d.dv() == ok.0 && final(self).table.dv() == ok.1,
                (Err(k1), Err(k2)) => k1 == k2 && final(self).table == old(self).table,
                _ => false,
            },
    {
        match &other.data_type {
            Some(dt) => {
                let d = dt.duplicate();
                self.infer_and_check(node_info, &d)
            },
            None => match &node_info.data_type {
                Some(dt) => {
                    let d = dt.duplicate();
                    self.infer_and_check(other, &d)
                },
                None => Err(CheckErrorKind::UninferableType),
            },
        }
    }

    /// Check a leaf expression.
    fn check_value(&mut self, pos: Positioned<()>, v: &ValueNode) -> (r: Result<
        (NodeInfo, Vec<Positioned<Node>>),
        CheckError,
    >)
        ensures
            node_result_matches(
                *old(self),
                *final(self),
                r,
                check_value_v(
                    old(self).st(),
                    Positioned { start: pos.start, end: pos.end, data: value_dv(*v) },
                ),
            ),
    {
        match v {
            ValueNode::Decimal(s) => {
                let mut out: Vec<Positioned<Node>> = Vec::new();
                out.push(
                    Positioned {
                        start: pos.start,
                        end: pos.end,
                        data: Node::Value(ValueNode::Decimal(s.clone())),
                    },
                );
                proof {
                    lemma_nodes_dv(out@);
                    assert(nodes_dv(out@) =~= seq![pnode_dv(out@[0])]);
                }
                Ok((NodeInfo::new(Some(DataType::CDecimal), None), out))
            },
            ValueNode::Text(s) => {
                let mut out: Vec<Positioned<Node>> = Vec::new();
                out.push(
                    Positioned {
                        start: pos.start,
                        end: pos.end,
                        data: Node::Value(ValueNode::Text(s.clone())),
                    },
                );
                proof {
                    lemma_nodes_dv(out@);
                    assert(nodes_dv(out@) =~= seq![pnode_dv(out@[0])]);
                }
                Ok((NodeInfo::new(Some(DataType::CString), None), out))
            },
            ValueNode::VariableCall(name) => {
                let ghost pre = *self;
                let found = self.scope.get_variable(&self.table, name.as_str());
                match found {
                    Some(vi) => {
                        proof {
                            lemma_resolve_in_bounds(
                                pre.scope.dv(),
                                pre.table.dv().vars,
                                pre.table.dv().funs,
                                pre.table.dv().classes,
                                name@,
                            );
                        }
                        let dt = match &self.table.vars[vi].data_type {
                            Some(d) => Some(d.duplicate()),
                            None => None,
                        };
                        let mut out: Vec<Positioned<Node>> = Vec::new();
                        out.push(
                            Positioned {
                                start: pos.start,
                                end: pos.end,
                                data: Node::Value(ValueNode::VariableCall(name.clone())),
                            },
                        );
                        proof {
                            lemma_nodes_dv(out@);
                            assert(nodes_dv(out@) =~= seq![pnode_dv(out@[0])]);
                        }
                        Ok((NodeInfo::new(dt, Some(Symbol::Variable(vi))), out))
                    },
                    None => {
                        let found_class = self.scope.get_class(&self.table, name.as_str());
                        match found_class {
                            Some(ci) => {
                                let mut out: Vec<Positioned<Node>> = Vec::new();
                                out.push(
                                    Positioned {
                                        start: pos.start,
                                        end: pos.end,
                                        data: Node::Value(ValueNode::VariableCall(name.clone())),
                                    },
                                );
                                proof {
                                    lemma_nodes_dv(out@);
                                    assert(nodes_dv(out@) =~= seq![pnode_dv(out@[0])]);
                                }
                                Ok(
                                    (
                                        NodeInfo::new(
                                            Some(DataType::Custom(name.clone())),
                                            Some(Symbol::Class(ci)),
                                        ),
                                        out,
                                    ),
                                )
                            },
                            None => Err(CheckError { kind: CheckErrorKind::UnresolvedSymbol, start: pos.start, end: pos.end }),
                        }
                    },
                }
            },
            ValueNode::This => {
                let ghost pre = *self;
                let found = self.scope.get_variable(&self.table, "self");
                match found {
                    Some(vi) => {
                        proof {
                            lemma_resolve_in_bounds(
                                pre.scope.dv(),
                                pre.table.dv().vars,
                                pre.table.dv().funs,
                                pre.table.dv().classes,
                                "self"@,
                            );
                        }
                        let dt = match &self.table.vars[vi].data_type {
                            Some(d) => Some(d.duplicate()),
                            None => None,
                        };
                        let mut out: Vec<Positioned<Node>> = Vec::new();
                        out.push(
                            Positioned { start: pos.start, end: pos.end, data: Node::Value(ValueNode::This) },
                        );
                        proof {
                            lemma_nodes_dv(out@);
                            assert(nodes_dv(out@) =~= seq![pnode_dv(out@[0])]);
                        }
                        Ok((NodeInfo::new(dt, Some(Symbol::Variable(vi))), out))
                    },
                    None => Err(CheckError { kind: CheckErrorKind::InvalidContext, start: pos.start, end: pos.end }),
                }
            },
        }
    }

    /// Record a unit for hoisting; nothing is emitted in place.
    fn check_import(&mut self, pos: Positioned<()>, path: &Positioned<String>) -> (r: Result<
        (NodeInfo, Vec<Positioned<Node>>),
        CheckError,
    >)
        ensures
            node_result_matches(
                *old(self),
                *final(self),
                r,
                check_import_v(old(self).st(), pos, pstring_dv(*path)),
            ),
    {
        let ghost pre_imports = imports_dv(self.imports@);
        self.imports.push((pos, clone_pstring(path)));
        proof {
            assert(imports_dv(self.imports@) =~= pre_imports.push((pos, pstring_dv(*path))));
            assert(nodes_dv(Seq::<Positioned<Node>>::empty()) =~= Seq::<Positioned<NodeV>>::empty());
        }
        Ok((NodeInfo::new(Some(DataType::Void), None), Vec::new()))
    }

    /// Check a member access `lhs.rhs`: the left side must name a class or
    /// a variable of a class type; the class's member scope is installed as
    /// the one-shot override before the right side is resolved.
    fn check_member_access(
        &mut self,
        pos: Positioned<()>,
        lhs: &Positioned<Node>,
        op: Positioned<Operator>,
        rhs: &Positioned<Node>,
    ) -> (r: Result<(NodeInfo, Vec<Positioned<Node>>), CheckError>)
        ensures
            node_result_matches(
                *old(self),
                *final(self),
                r,
                check_member_access_v(old(self).st(), pos, pnode_dv(*lhs), op, pnode_dv(*rhs)),
            ),
        decreases size_pnode(pnode_dv(*lhs)) + size_pnode(pnode_dv(*rhs)) + 1,
    {
        let (lhs_info, mut lhs_out) = match self.check_node(lhs) {
            Ok(p) => p,
            Err(e) => {
                return Err(e);
            },
        };
        proof {
            lemma_nodes_dv(lhs_out@);
        }
        if lhs_out.len() != 1 {
            return Err(CheckError { kind: CheckErrorKind::InvalidContext, start: pos.start, end: pos.end });
        }
        let lhs_node = lhs_out.remove(0);
        let ghost st1 = self.st();
        let ci: usize = match &lhs_info.symbol {
            Some(Symbol::Variable(vi)) => {
                let vi = *vi;
                if vi < self.table.vars.len() {
                    let cls_name_opt: Option<String> = match &self.table.vars[vi].data_type {
                        Some(DataType::Custom(cn)) => Some(cn.clone()),
                        _ => None,
                    };
                    match cls_name_opt {
                        Some(cn) => {
                            let ghost pre2 = *self;
                            let found = self.scope.get_class(&self.table, cn.as_str());
                            match found {
                                Some(ci) => {
                                    proof {
                                        lemma_resolve_in_bounds(
                                            pre2.scope.dv(),
                                            pre2.table.dv().vars,
                                            pre2.table.dv().funs,
                                            pre2.table.dv().classes,
                                            cn@,
                                        );
                                    }
                                    ci
                                },
                                None => {
                                    return Err(
                                        CheckError {
                                            kind: CheckErrorKind::InvalidAccessTarget,
                                            start: pos.start,
                                            end: pos.end,
                                        },
                                    );
                                },
                            }
                        },
                        None => {
                            return Err(
                                CheckError {
                                    kind: CheckErrorKind::InvalidAccessTarget,
                                    start: pos.start,
                                    end: pos.end,
                                },
                            );
                        },
                    }
                } else {
                    return Err(
                        CheckError {
                            kind: CheckErrorKind::InvalidAccessTarget,
                            start: pos.start,
                            end: pos.end,
                        },
                    );
                }
            },
            Some(Symbol::Class(ci)) => {
                let ci = *ci;
                if ci < self.table.classes.len() {
                    ci
                } else {
                    return Err(
                        CheckError {
                            kind: CheckErrorKind::InvalidAccessTarget,
                            start: pos.start,
                            end: pos.end,
                        },
                    );
                }
            },
            _ => {
                return Err(
                    CheckError {
                        kind: CheckErrorKind::InvalidAccessTarget,
                        start: pos.start,
                        end: pos.end,
                    },
                );
            },
        };
        let cname = self.table.classes[ci].name.clone();
        let mut member = Scope::new(ScopeType::Class(cname), None);
        member.variables = copy_indices(&self.table.classes[ci].fields);
        member.functions = copy_indices(&self.table.classes[ci].functions);
        proof {
            assert(member.dv() == crate::checkspec::member_scope_of(self.table.dv().classes[ci as int]));
        }
        self.scope.selected = Some(Box::new(member));
        let (rhs_info, mut rhs_out) = match self.check_node(rhs) {
            Ok(p) => p,
            Err(e) => {
                return Err(e);
            },
        };
        proof {
            lemma_nodes_dv(rhs_out@);
        }
        if rhs_out.len() != 1 {
            return Err(CheckError { kind: CheckErrorKind::InvalidContext, start: pos.start, end: pos.end });
        }
        let rhs_node = rhs_out.remove(0);
        let mut out: Vec<Positioned<Node>> = Vec::new();
        out.push(
            Positioned {
                start: pos.start,
                end: pos.end,
                data: Node::BinaryOperation { lhs: Box::new(lhs_node), op, rhs: Box::new(rhs_node) },
            },
        );
        proof {
            lemma_nodes_dv(out@);
            assert(nodes_dv(out@) =~= seq![pnode_dv(out@[0])]);
        }
        Ok((rhs_info, out))
    }

    /// Check an assignment `lhs = rhs`: a function or class target, or an
    /// initialized constant, is rejected; the target is marked initialized;
    /// the two sides' types are unified.
    fn check_assignment(
        &mut self,
        pos: Positioned<()>,
        lhs: &Positioned<Node>,
        op: Positioned<Operator>,
        rhs: &Positioned<Node>,
    ) -> (r: Result<(NodeInfo, Vec<Positioned<Node>>), CheckError>)
        ensures
            node_result_matches(
                *old(self),
                *final(self),
                r,
                check_assignment_v(old(self).st(), pos, pnode_dv(*lhs), op, pnode_dv(*rhs)),
            ),
        decreases size_pnode(pnode_dv(*lhs)) + size_pnode(pnode_dv(*rhs)) + 1,
    {
        let (lhs_info, mut lhs_out) = match self.check_node(lhs) {
            Ok(p) => p,
            Err(e) => {
                return Err(e);
            },
        };
        let (rhs_info, mut rhs_out) = match self.check_node(rhs) {
            Ok(p) => p,
            Err(e) => {
                return Err(e);
            },
        };
        proof {
            lemma_nodes_dv(lhs_out@);
            lemma_nodes_dv(rhs_out@);
        }
        if lhs_out.len() != 1 || rhs_out.len() != 1 {
            return Err(CheckError { kind: CheckErrorKind::InvalidContext, start: pos.start, end: pos.end });
        }
        match &lhs_info.symbol {
            None => {},
            Some(Symbol::Variable(vi)) => {
                let vi = *vi;
                if vi < self.table.vars.len() {
                    if self.table.vars[vi].var_type == VarType::Constant && self.table.vars[vi].initialized {
                        return Err(
                            CheckError {
                                kind: CheckErrorKind::InvalidAssignmentTarget,
                                start: pos.start,
                                end: pos.end,
                            },
                        );
                    }
                    let ghost pre_table = self.table.dv();
                    let ghost pre_vars = self.table.dv().vars;
                    let vt = self.table.vars[vi].var_type;
                    let nm = self.table.vars[vi].name.clone();
                    let dt = match &self.table.vars[vi].data_type {
                        Some(d) => Some(d.duplicate()),
                        None => None,
                    };
                    self.table.vars.set(
                        vi,
                        VariableSymbol { var_type: vt, name: nm, data_type: dt, initialized: true },
                    );
                    proof {
                        assert(self.table.dv().vars =~= pre_vars.update(
                            vi as int,
                            VarSymV { initialized: true, ..pre_vars[vi as int] },
                        ));
                        assert(self.table.dv().funs =~= pre_table.funs);
                        assert(self.table.dv().classes =~= pre_table.classes);
                    }
                } else {
                    return Err(
                        CheckError {
                            kind: CheckErrorKind::UnresolvedSymbol,
                            start: pos.start,
                            end: pos.end,
                        },
                    );
                }
            },
            Some(_) => {
                return Err(
                    CheckError {
                        kind: CheckErrorKind::InvalidAssignmentTarget,
                        start: pos.start,
                        end: pos.end,
                    },
                );
            },
        }
        let unified = match self.infer_and_check2(&lhs_info, &rhs_info) {
            Ok(t) => t,
            Err(k) => {
                return Err(CheckError { kind: k, start: pos.start, end: pos.end });
            },
        };
        let lhs_node = lhs_out.remove(0);
        let rhs_node = rhs_out.remove(0);
        let mut out: Vec<Positioned<Node>> = Vec::new();
        out.push(
            Positioned {
                start: pos.start,
                end: pos.end,
                data: Node::BinaryOperation { lhs: Box::new(lhs_node), op, rhs: Box::new(rhs_node) },
            },
        );
        proof {
            lemma_nodes_dv(out@);
            assert(nodes_dv(out@) =~= seq![pnode_dv(out@[0])]);
        }
        Ok((NodeInfo::new(Some(unified), None), out))
    }

    /// Dispatch a binary operation: member access and assignment are
    /// checked; the arithmetic operators are an open construct, reserved
    /// and rejected.
    fn check_binary_operation(
        &mut self,
        pos: Positioned<()>,
        lhs: &Positioned<Node>,
        op: Positioned<Operator>,
        rhs: &Positioned<Node>,
    ) -> (r: Result<(NodeInfo, Vec<Positioned<Node>>), CheckError>)
        ensures
            node_result_matches(
                *old(self),
                *final(self),
                r,
                match op.data {
                    Operator::MemberAccess => check_member_access_v(
                        old(self).st(),
                        pos,
                        pnode_dv(*lhs),
                        op,
                        pnode_dv(*rhs),
                    ),
                    Operator::Assignment => check_assignment_v(
                        old(self).st(),
                        pos,
                        pnode_dv(*lhs),
                        op,
                        pnode_dv(*rhs),
                    ),
                    _ => Err(err_at(CheckErrorKind::UnsupportedConstruct, pos.start, pos.end)),
                },
            ),
        decreases size_pnode(pnode_dv(*lhs)) + size_pnode(pnode_dv(*rhs)) + 2,
    {
        match op.data {
            Operator::MemberAccess => self.check_member_access(pos, lhs, op, rhs),
            Operator::Assignment => self.check_assignment(pos, lhs, op, rhs),
            _ => Err(
                CheckError { kind: CheckErrorKind::UnsupportedConstruct, start: pos.start, end: pos.end },
            ),
        }
    }

    /// Check a variable declaration: shadowing is rejected; the type is
    /// settled from the annotation and the initializer; a fresh record is
    /// registered in the current scope; the rewritten node spells the type.
    fn check_variable_definition(
        &mut self,
        pos: Positioned<()>,
        var_type: Positioned<VarType>,
        name: &Positioned<String>,
        data_type: &Option<Positioned<String>>,
        value: &Option<Box<Positioned<Node>>>,
    ) -> (r: Result<(NodeInfo, Vec<Positioned<Node>>), CheckError>)
        ensures
            node_result_matches(
                *old(self),
                *final(self),
                r,
                check_vardef_v(
                    old(self).st(),
                    pos,
                    var_type,
                    pstring_dv(*name),
                    opt_pstring_dv(*data_type),
                    crate::node::opt_pnode_dv(*value),
                ),
            ),
        decreases (match *value {
            Some(v) => size_pnode(pnode_dv(*v)),
            None => 0nat,
        }) + 1,
    {
        if self.scope.symbol_exists(&self.table, name.data.as_str()) {
            return Err(
                CheckError { kind: CheckErrorKind::DuplicateDeclaration, start: name.start, end: name.end },
            );
        }
        let has_value = value.is_some();
        let final_t: DataType = match value {
            Some(v) => {
                let (value_info, _value_out) = match self.check_node(v) {
                    Ok(p) => p,
                    Err(e) => {
                        return Err(e);
                    },
                };
                match data_type {
                    Some(ann) => {
                        let annt = DataType::Custom(ann.data.clone());
                        let known = value_info.data_type.is_some();
                        if known {
                            let compat = match &value_info.data_type {
                                Some(vt) => self.check_data_type(vt, &annt),
                                None => false,
                            };
                            if compat {
                                annt
                            } else {
                                return Err(
                                    CheckError {
                                        kind: CheckErrorKind::TypeMismatch,
                                        start: pos.start,
                                        end: pos.end,
                                    },
                                );
                            }
                        } else {
                            match self.infer_and_check(&value_info, &annt) {
                                Ok(t) => t,
                                Err(k) => {
                                    return Err(CheckError { kind: k, start: pos.start, end: pos.end });
                                },
                            }
                        }
                    },
                    None => match &value_info.data_type {
                        Some(vt) => vt.duplicate(),
                        None => {
                            return Err(
                                CheckError {
                                    kind: CheckErrorKind::UninferableType,
                                    start: pos.start,
                                    end: pos.end,
                                },
                            );
                        },
                    },
                }
            },
            None => match data_type {
                Some(ann) => DataType::Custom(ann.data.clone()),
                None => {
                    return Err(
                        CheckError {
                            kind: CheckErrorKind::UninferableType,
                            start: pos.start,
                            end: pos.end,
                        },
                    );
                },
            },
        };
        let ghost pre_scope = self.scope.dv();
        let idx = self.table.add_variable(
            VariableSymbol::new(var_type.data, name.data.clone(), Some(final_t.duplicate()), has_value),
        );
        self.scope.variables.push(idx);
        proof {
            assert(self.scope.dv() == (ScopeV { variables: pre_scope.variables.push(idx), ..pre_scope }));
        }
        let spelled = match final_t.spell() {
            Some(s) => s,
            None => {
                return Err(
                    CheckError {
                        kind: CheckErrorKind::UnsupportedConstruct,
                        start: pos.start,
                        end: pos.end,
                    },
                );
            },
        };
        let value_copy: Option<Box<Positioned<Node>>> = match value {
            Some(v) => Some(Box::new(clone_pnode(v))),
            None => None,
        };
        proof {
            assert(crate::node::opt_pnode_dv(value_copy) == crate::node::opt_pnode_dv(*value));
        }
        let mut out: Vec<Positioned<Node>> = Vec::new();
        out.push(
            Positioned {
                start: pos.start,
                end: pos.end,
                data: Node::VariableDefinition {
                    var_type,
                    name: clone_pstring(name),
                    data_type: Some(Positioned { start: pos.start, end: pos.end, data: spelled }),
                    value: value_copy,
                },
            },
        );
        proof {
            lemma_nodes_dv(out@);
            assert(nodes_dv(out@) =~= seq![pnode_dv(out@[0])]);
            assert(pnode_dv(out@[0]) == (Positioned {
                start: pos.start,
                end: pos.end,
                data: NodeV::VariableDefinition {
                    var_type,
                    name: pstring_dv(*name),
                    data_type: Some(Positioned { start: pos.start, end: pos.end, data: spelled@ }),
                    value: crate::node::opt_pnode_dv(*value),
                },
            }));
        }
        Ok((NodeInfo::new(Some(DataType::Void), None), out))
    }

    /// Check a return statement: legal only in a function scope; the value
    /// is unified against the declared return type.
    fn check_return(&mut self, pos: Positioned<()>, value: &Positioned<Node>) -> (r: Result<
        (NodeInfo, Vec<Positioned<Node>>),
        CheckError,
    >)
        ensures
            node_result_matches(
                *old(self),
                *final(self),
                r,
                check_return_v(old(self).st(), pos, pnode_dv(*value)),
            ),
        decreases size_pnode(pnode_dv(*value)) + 1,
    {
        let expected: DataType = match &self.scope.scope {
            ScopeType::Function(_, dt) => dt.duplicate(),
            _ => {
                return Err(
                    CheckError { kind: CheckErrorKind::InvalidContext, start: pos.start, end: pos.end },
                );
            },
        };
        let (value_info, mut value_out) = match self.check_node(value) {
            Ok(p) => p,
            Err(e) => {
                return Err(e);
            },
        };
        proof {
            lemma_nodes_dv(value_out@);
        }
        if value_out.len() != 1 {
            return Err(CheckError { kind: CheckErrorKind::InvalidContext, start: pos.start, end: pos.end });
        }
        match self.infer_and_check(&value_info, &expected) {
            Ok(_) => {},
            Err(k) => {
                return Err(CheckError { kind: k, start: pos.start, end: pos.end });
            },
        }
        let value_node = value_out.remove(0);
        let mut out: Vec<Positioned<Node>> = Vec::new();
        out.push(Positioned { start: pos.start, end: pos.end, data: Node::Return(Box::new(value_node)) });
        proof {
            lemma_nodes_dv(out@);
            assert(nodes_dv(out@) =~= seq![pnode_dv(out@[0])]);
        }
        Ok((NodeInfo::new(Some(DataType::Void), None), out))
    }

    /// Check a function call: resolve the callee, check the arguments
    /// pairwise against its parameters, and take its declared return type.
    #[verifier::loop_isolation(false)]
    fn check_function_call(
        &mut self,
        pos: Positioned<()>,
        name: &Positioned<String>,
        params: &Vec<FunctionCallParameter>,
    ) -> (r: Result<(NodeInfo, Vec<Positioned<Node>>), CheckError>)
        ensures
            node_result_matches(
                *old(self),
                *final(self),
                r,
                check_call_v(old(self).st(), pos, pstring_dv(*name), args_dv(params@)),
            ),
        decreases size_args_from(args_dv(params@), 0) + 1,
    {
        let ghost pre = *self;
        let found = self.scope.get_function(&self.table, name.data.as_str());
        let fi = match found {
            Some(fi) => fi,
            None => {
                return Err(
                    CheckError { kind: CheckErrorKind::UnresolvedSymbol, start: name.start, end: name.end },
                );
            },
        };
        proof {
            lemma_resolve_in_bounds(
                pre.scope.dv(),
                pre.table.dv().vars,
                pre.table.dv().funs,
                pre.table.dv().classes,
                name.data@,
            );
        }
        let callee_params = clone_params(&self.table.funs[fi].params);
        let ret_type = self.table.funs[fi].data_type.duplicate();
        let ghost st1 = self.st();
        let ghost cparams = params_dv(callee_params@);
        let ghost adv = args_dv(params@);
        proof {
            lemma_args_dv(params@);
            assert(st1 == clear_scope(pre.st()));
            assert(cparams == st1.table.funs[fi as int].params);
            crate::checkspec::lemma_args_cont_nil(check_args_v(st1, cparams, adv, 0, pos));
            assert(args_dv(Seq::<FunctionCallParameter>::empty()) =~= Seq::<ArgV>::empty());
        }
        let mut new_params: Vec<FunctionCallParameter> = Vec::new();
        let mut i: usize = 0;
        while i < callee_params.len()
            invariant
                i <= callee_params.len(),
                cparams == params_dv(callee_params@),
                cparams.len() == callee_params@.len(),
                adv == args_dv(params@),
                adv.len() == params@.len(),
                forall|j: int| 0 <= j < params@.len() ==> adv[j] == (ArgV {
                    value: pnode_dv(params@[j].value),
                }),
                self.src == pre.src,
                self.ast == pre.ast,
                self.index == pre.index,
                crate::checkspec::args_cont(
                    check_args_v(self.st(), cparams, adv, i as int, pos),
                    args_dv(new_params@),
                ) == check_args_v(st1, cparams, adv, 0, pos),
            decreases callee_params@.len() - i,
        {
            let ghost st_prev = self.st();
            let ghost acc_dv = args_dv(new_params@);
            if i >= params.len() {
                proof {
                    crate::checkspec::lemma_args_too_few(st_prev, cparams, adv, i as int, pos, acc_dv);
                }
                return Err(
                    CheckError { kind: CheckErrorKind::ArityMismatch, start: pos.start, end: pos.end },
                );
            }
            proof {
                lemma_args_dv_ge_helper(params@, i as int);
            }
            let (pinfo, mut pout) = match self.check_node(&params[i].value) {
                Ok(p) => p,
                Err(e) => {
                    proof {
                        crate::checkspec::lemma_args_err_node(
                            st_prev,
                            cparams,
                            adv,
                            i as int,
                            pos,
                            acc_dv,
                            e,
                        );
                    }
                    return Err(e);
                },
            };
            let ghost st_mid = self.st();
            let ghost out_view = nodes_dv(pout@);
            proof {
                lemma_nodes_dv(pout@);
            }
            if pout.len() != 1 {
                proof {
                    crate::checkspec::lemma_args_err_len(
                        st_prev,
                        cparams,
                        adv,
                        i as int,
                        pos,
                        acc_dv,
                        pinfo.dv(),
                        out_view,
                        st_mid,
                    );
                }
                return Err(
                    CheckError { kind: CheckErrorKind::InvalidContext, start: pos.start, end: pos.end },
                );
            }
            let pnode = pout.remove(0);
            let expected = DataType::Custom(callee_params[i].data_type.data.clone());
            proof {
                assert(cparams[i as int] == param_dv(callee_params@[i as int]));
                assert(expected.dv() == TypeV::Custom(cparams[i as int].data_type.data));
            }
            match self.infer_and_check(&pinfo, &expected) {
                Ok(_) => {},
                Err(k) => {
                    proof {
                        crate::checkspec::lemma_args_err_infer(
                            st_prev,
                            cparams,
                            adv,
                            i as int,
                            pos,
                            acc_dv,
                            pinfo.dv(),
                            out_view,
                            st_mid,
                            k,
                        );
                    }
                    return Err(
                        CheckError { kind: k, start: params[i].value.start, end: params[i].value.end },
                    );
                },
            }
            proof {
                let m = infer_v(st_mid.table, pinfo.dv(), expected.dv());
                crate::checkspec::lemma_args_step(
                    st_prev,
                    cparams,
                    adv,
                    i as int,
                    pos,
                    acc_dv,
                    pinfo.dv(),
                    out_view,
                    st_mid,
                    m->Ok_0.0,
                    m->Ok_0.1,
                );
                assert(self.st() == (StV { table: m->Ok_0.1, ..st_mid }));
            }
            let ghost acc_pre = new_params@;
            new_params.push(FunctionCallParameter { value: pnode });
            proof {
                crate::node::lemma_args_dv_push(acc_pre, FunctionCallParameter { value: pnode });
                assert(out_view[0] == pnode_dv(pnode));
                assert(args_dv(new_params@) =~= acc_dv + seq![ArgV { value: out_view[0] }]);
            }
            i = i + 1;
        }
        proof {
            crate::checkspec::lemma_args_done(self.st(), cparams, adv, pos, args_dv(new_params@));
        }
        if params.len() > callee_params.len() {
            return Err(CheckError { kind: CheckErrorKind::ArityMismatch, start: pos.start, end: pos.end });
        }
        let mut out: Vec<Positioned<Node>> = Vec::new();
        out.push(
            Positioned {
                start: pos.start,
                end: pos.end,
                data: Node::FunctionCall { name: clone_pstring(name), params: new_params },
            },
        );
        proof {
            lemma_nodes_dv(out@);
            assert(nodes_dv(out@) =~= seq![pnode_dv(out@[0])]);
        }
        Ok((NodeInfo::new(Some(ret_type), None), out))
    }

    /// Check a function declaration: shadowing and nesting inside a
    /// function are rejected; the record is registered before the body, so
    /// the body may call the function; the body is checked in a fresh
    /// function scope pre-populated with the parameters, then the scope is
    /// popped.
    #[verifier::loop_isolation(false)]
    fn check_function_definition(
        &mut self,
        pos: Positioned<()>,
        name: &Positioned<String>,
        return_type: &Option<Positioned<String>>,
        params: &Vec<FunctionDefinitionParameter>,
        body: &Option<Vec<Positioned<Node>>>,
        constructor: bool,
    ) -> (r: Result<(NodeInfo, Vec<Positioned<Node>>), CheckError>)
        ensures
            node_result_matches(
                *old(self),
                *final(self),
                r,
                check_fundef_v(
                    old(self).st(),
                    pos,
                    pstring_dv(*name),
                    opt_pstring_dv(*return_type),
                    params_dv(params@),
                    crate::node::opt_body_dv(*body),
                    constructor,
                ),
            ),
        decreases (match *body {
            Some(b) => size_nodes_from(nodes_dv(b@), 0),
            None => 0nat,
        }) + 1,
    {
        if self.scope.symbol_exists(&self.table, name.data.as_str()) {
            return Err(
                CheckError { kind: CheckErrorKind::DuplicateDeclaration, start: name.start, end: name.end },
            );
        }
        match &self.scope.scope {
            ScopeType::Function(_, _) => {
                return Err(
                    CheckError { kind: CheckErrorKind::InvalidContext, start: pos.start, end: pos.end },
                );
            },
            _ => {},
        }
        let data_type = match return_type {
            Some(rt) => DataType::Custom(rt.data.clone()),
            None => DataType::Void,
        };
        let function_type = if body.is_none() {
            FunctionType::ExternalFunction
        } else if constructor {
            FunctionType::Constructor
        } else {
            FunctionType::Function
        };
        let ghost pre_scope = self.scope.dv();
        let fidx = self.table.add_function(
            FunctionSymbol::new(name.data.clone(), data_type.duplicate(), function_type, clone_params(params)),
        );
        self.scope.functions.push(fidx);
        proof {
            assert(self.scope.dv() == (ScopeV { functions: pre_scope.functions.push(fidx), ..pre_scope }));
        }
        let ghost st1 = self.st();
        proof {
            assert(st1 == (StV {
                table: TableV {
                    funs: old(self).st().table.funs.push(
                        FunSymV {
                            name: name.data@,
                            data_type: data_type.dv(),
                            function_type,
                            params: params_dv(params@),
                        },
                    ),
                    ..old(self).st().table
                },
                scope: ScopeV {
                    functions: old(self).st().scope.functions.push(fidx),
                    ..old(self).st().scope
                },
                ..old(self).st()
            }));
        }
        let new_body: Option<Vec<Positioned<Node>>> = match body {
            Some(b) => {
                let ghost base = self.table.dv().vars.len();
                let mut holder = Scope::new(ScopeType::Root, None);
                core::mem::swap(&mut self.scope, &mut holder);
                let fnscope = Scope::new(
                    ScopeType::Function(name.data.clone(), data_type.duplicate()),
                    Some(Box::new(holder)),
                );
                self.scope = fnscope;
                proof {
                    assert(crate::checkspec::fresh_indices(base, 0nat) =~= Seq::<usize>::empty());
                    assert(st1.table.vars + crate::checkspec::param_records(params_dv(params@)).subrange(
                        0,
                        0,
                    ) =~= st1.table.vars);
                }
                let mut pi: usize = 0;
                while pi < params.len()
                    invariant
                        pi <= params.len(),
                        base == st1.table.vars.len(),
                        self.src == old(self).src,
                        self.ast == old(self).ast,
                        self.index == old(self).index,
                        imports_dv(self.imports@) == st1.imports,
                        self.table.dv().funs == st1.table.funs,
                        self.table.dv().classes == st1.table.classes,
                        self.table.dv().vars == st1.table.vars + crate::checkspec::param_records(
                            params_dv(params@),
                        ).subrange(0, pi as int),
                        self.scope.dv() == (ScopeV {
                            scope: ScopeTypeV::Function(name.data@, data_type.dv()),
                            parent: Some(Box::new(st1.scope)),
                            variables: crate::checkspec::fresh_indices(base, pi as nat),
                            functions: Seq::<usize>::empty(),
                            classes: Seq::<usize>::empty(),
                            selected: None,
                        }),
                    decreases params@.len() - pi,
                {
                    let ghost scope_pre = self.scope.dv();
                    let ghost vars_pre = self.table.dv().vars;
                    let pidx = self.table.add_variable(
                        VariableSymbol::new(
                            VarType::Constant,
                            params[pi].name.data.clone(),
                            Some(DataType::Custom(params[pi].data_type.data.clone())),
                            true,
                        ),
                    );
                    self.scope.variables.push(pidx);
                    proof {
                        assert(self.scope.dv() == (ScopeV {
                            variables: scope_pre.variables.push(pidx),
                            ..scope_pre
                        }));
                        assert(params_dv(params@)[pi as int] == param_dv(params@[pi as int]));
                        assert(self.table.dv().vars =~= st1.table.vars
                            + crate::checkspec::param_records(params_dv(params@)).subrange(
                            0,
                            pi + 1,
                        ));
                        assert(crate::checkspec::fresh_indices(base, (pi + 1) as nat)
                            =~= crate::checkspec::fresh_indices(base, pi as nat).push(pidx));
                    }
                    pi = pi + 1;
                }
                proof {
                    assert(crate::checkspec::param_records(params_dv(params@)).subrange(
                        0,
                        params@.len() as int,
                    ) =~= crate::checkspec::param_records(params_dv(params@)));
                }
                let ghost st2m = self.st();
                let ghost bdv = nodes_dv(b@);
                proof {
                    assert(st2m == (StV {
                        table: TableV {
                            vars: st1.table.vars + crate::checkspec::param_records(params_dv(params@)),
                            ..st1.table
                        },
                        scope: ScopeV {
                            scope: ScopeTypeV::Function(name.data@, data_type.dv()),
                            parent: Some(Box::new(st1.scope)),
                            variables: crate::checkspec::fresh_indices(
                                st1.table.vars.len(),
                                params_dv(params@).len(),
                            ),
                            functions: Seq::<usize>::empty(),
                            classes: Seq::<usize>::empty(),
                            selected: None,
                        },
                        ..st1
                    }));
                    lemma_nodes_dv(b@);
                    crate::checkspec::lemma_fold_cont_nil(check_body_v(st2m, bdv, 0));
                    assert(nodes_dv(Seq::<Positioned<Node>>::empty()) =~= Seq::<
                        Positioned<NodeV>,
                    >::empty());
                }
                let mut new_body_vec: Vec<Positioned<Node>> = Vec::new();
                let mut bi: usize = 0;
                while bi < b.len()
                    invariant
                        bi <= b@.len(),
                        bdv == nodes_dv(b@),
                        bdv.len() == b@.len(),
                        forall|j: int| 0 <= j < b@.len() ==> bdv[j] == pnode_dv(b@[j]),
                        self.src == old(self).src,
                        self.ast == old(self).ast,
                        self.index == old(self).index,
                        crate::checkspec::fold_cont(
                            check_body_v(self.st(), bdv, bi as int),
                            nodes_dv(new_body_vec@),
                        ) == check_body_v(st2m, bdv, 0),
                    decreases b@.len() - bi,
                {
                    let ghost st_prev = self.st();
                    let ghost acc_dv = nodes_dv(new_body_vec@);
                    proof {
                        lemma_size_nodes_from_ge(bdv, 0, bi as int);
                        assert((match *body {
                            Some(b2) => size_nodes_from(nodes_dv(b2@), 0),
                            None => 0nat,
                        }) == size_nodes_from(bdv, 0));
                    }
                    let (_info, mut out) = match self.check_node(&b[bi]) {
                        Ok(p) => p,
                        Err(e) => {
                            proof {
                                crate::checkspec::lemma_body_err(st_prev, bdv, bi as int, acc_dv, e);
                            }
                            return Err(e);
                        },
                    };
                    proof {
                        crate::checkspec::lemma_body_step(
                            st_prev,
                            bdv,
                            bi as int,
                            acc_dv,
                            _info.dv(),
                            nodes_dv(out@),
                            self.st(),
                        );
                    }
                    let ghost acc_pre = new_body_vec@;
                    let ghost out_pre = out@;
                    new_body_vec.append(&mut out);
                    proof {
                        lemma_nodes_dv_concat(acc_pre, out_pre);
                    }
                    bi = bi + 1;
                }
                proof {
                    crate::checkspec::lemma_body_done(self.st(), bdv, nodes_dv(new_body_vec@));
                }
                let mut cur = Scope::new(ScopeType::Root, None);
                core::mem::swap(&mut self.scope, &mut cur);
                match cur.parent {
                    Some(p) => {
                        self.scope = *p;
                    },
                    None => {
                        return Err(
                            CheckError {
                                kind: CheckErrorKind::InvalidContext,
                                start: pos.start,
                                end: pos.end,
                            },
                        );
                    },
                }
                Some(new_body_vec)
            },
            None => None,
        };
        let spelled = match data_type.spell() {
            Some(s) => s,
            None => {
                return Err(
                    CheckError {
                        kind: CheckErrorKind::UnsupportedConstruct,
                        start: pos.start,
                        end: pos.end,
                    },
                );
            },
        };
        let ghost new_body_view = crate::node::opt_body_dv(new_body);
        let mut out: Vec<Positioned<Node>> = Vec::new();
        out.push(
            Positioned {
                start: pos.start,
                end: pos.end,
                data: Node::FunctionDefinition {
                    name: clone_pstring(name),
                    return_type: Some(Positioned { start: pos.start, end: pos.end, data: spelled }),
                    params: clone_params(params),
                    body: new_body,
                    constructor,
                },
            },
        );
        proof {
            lemma_nodes_dv(out@);
            assert(nodes_dv(out@) =~= seq![pnode_dv(out@[0])]);
        }
        Ok((NodeInfo::new(Some(DataType::Void), None), out))
    }

    /// Check a class declaration: shadowing is rejected; the empty class
    /// record is registered at once, so members may refer to the class; a
    /// class scope with the implicit receiver pre-bound is pushed; each
    /// member — only variable and function definitions are legal — is
    /// checked and registered on the shared class record; the scope is
    /// popped.
    #[verifier::loop_isolation(false)]
    fn check_class_definition(
        &mut self,
        pos: Positioned<()>,
        name: &Positioned<String>,
        body: &Vec<Positioned<Node>>,
    ) -> (r: Result<(NodeInfo, Vec<Positioned<Node>>), CheckError>)
        ensures
            node_result_matches(
                *old(self),
                *final(self),
                r,
                check_classdef_v(old(self).st(), pos, pstring_dv(*name), nodes_dv(body@)),
            ),
        decreases size_nodes_from(nodes_dv(body@), 0) + 1,
    {
        if self.scope.symbol_exists(&self.table, name.data.as_str()) {
            return Err(
                CheckError { kind: CheckErrorKind::DuplicateDeclaration, start: name.start, end: name.end },
            );
        }
        let ghost pre_scope = self.scope.dv();
        let ci = self.table.add_class(ClassSymbol::new(name.data.clone()));
        self.scope.classes.push(ci);
        proof {
            assert(self.scope.dv() == (ScopeV { classes: pre_scope.classes.push(ci), ..pre_scope }));
        }
        let ghost st1 = self.st();
        let vi = self.table.add_variable(
            VariableSymbol::new(
                VarType::Constant,
                String::from_str("self"),
                Some(DataType::Custom(name.data.clone())),
                true,
            ),
        );
        let mut holder = Scope::new(ScopeType::Root, None);
        core::mem::swap(&mut self.scope, &mut holder);
        let mut class_scope = Scope::new(ScopeType::Class(name.data.clone()), Some(Box::new(holder)));
        class_scope.variables.push(vi);
        self.scope = class_scope;
        proof {
            assert(self.scope.dv().variables =~= seq![vi]);
            assert(self.st() == (StV {
                table: TableV {
                    vars: st1.table.vars.push(
                        VarSymV {
                            var_type: VarType::Constant,
                            name: "self"@,
                            data_type: Some(TypeV::Custom(name.data@)),
                            initialized: true,
                        },
                    ),
                    ..st1.table
                },
                scope: ScopeV {
                    scope: ScopeTypeV::Class(name.data@),
                    parent: Some(Box::new(st1.scope)),
                    variables: seq![vi],
                    functions: Seq::<usize>::empty(),
                    classes: Seq::<usize>::empty(),
                    selected: None,
                },
                ..st1
            }));
        }
        let ghost st2m = self.st();
        let ghost bdv = nodes_dv(body@);
        proof {
            lemma_nodes_dv(body@);
            crate::checkspec::lemma_fold_cont_nil(check_class_body_v(st2m, ci, bdv, 0));
            assert(nodes_dv(Seq::<Positioned<Node>>::empty()) =~= Seq::<Positioned<NodeV>>::empty());
        }
        let mut new_body_vec: Vec<Positioned<Node>> = Vec::new();
        let mut bi: usize = 0;
        while bi < body.len()
            invariant
                bi <= body@.len(),
                bdv == nodes_dv(body@),
                bdv.len() == body@.len(),
                forall|j: int| 0 <= j < body@.len() ==> bdv[j] == pnode_dv(body@[j]),
                self.src == old(self).src,
                self.ast == old(self).ast,
                self.index == old(self).index,
                crate::checkspec::fold_cont(
                    check_class_body_v(self.st(), ci, bdv, bi as int),
                    nodes_dv(new_body_vec@),
                ) == check_class_body_v(st2m, ci, bdv, 0),
            decreases body@.len() - bi,
        {
            let ghost st_prev = self.st();
            let ghost acc_dv = nodes_dv(new_body_vec@);
            proof {
                lemma_size_nodes_from_ge(bdv, 0, bi as int);
            }
            let is_var = match &body[bi].data {
                Node::VariableDefinition { .. } => true,
                _ => false,
            };
            let is_fun = match &body[bi].data {
                Node::FunctionDefinition { .. } => true,
                _ => false,
            };
            proof {
                assert(bdv[bi as int] == pnode_dv(body@[bi as int]));
                assert(is_var == (bdv[bi as int].data is VariableDefinition));
                assert(is_fun == (bdv[bi as int].data is FunctionDefinition));
            }
            if !is_var && !is_fun {
                proof {
                    crate::checkspec::lemma_class_other(st_prev, ci, bdv, bi as int, acc_dv);
                }
                return Err(
                    CheckError {
                        kind: CheckErrorKind::InvalidContext,
                        start: body[bi].start,
                        end: body[bi].end,
                    },
                );
            }
            let (_info, mut out) = match self.check_node(&body[bi]) {
                Ok(p) => p,
                Err(e) => {
                    proof {
                        crate::checkspec::lemma_class_err_node(st_prev, ci, bdv, bi as int, acc_dv, e);
                    }
                    return Err(e);
                },
            };
            let ghost st_mid = self.st();
            let ghost out_view = nodes_dv(out@);
            if is_var {
                if self.scope.variables.len() > 0 && ci < self.table.classes.len() {
                    let fidx = self.scope.variables[self.scope.variables.len() - 1];
                    let ghost classes_pre = self.table.dv().classes;
                    let cname = self.table.classes[ci].name.clone();
                    let mut f2 = copy_indices(&self.table.classes[ci].fields);
                    f2.push(fidx);
                    let fns2 = copy_indices(&self.table.classes[ci].functions);
                    self.table.classes.set(ci, ClassSymbol { name: cname, fields: f2, functions: fns2 });
                    proof {
                        assert(fidx == st_mid.scope.variables.last());
                        assert(self.table.dv().classes =~= classes_pre.update(
                            ci as int,
                            ClassSymV {
                                fields: classes_pre[ci as int].fields.push(fidx),
                                ..classes_pre[ci as int]
                            },
                        ));
                        assert(self.table.dv().vars =~= st_mid.table.vars);
                        assert(self.table.dv().funs =~= st_mid.table.funs);
                        assert(self.st() == crate::checkspec::register_field(st_mid, ci));
                        crate::checkspec::lemma_class_step_var(
                            st_prev,
                            ci,
                            bdv,
                            bi as int,
                            acc_dv,
                            _info.dv(),
                            out_view,
                            st_mid,
                        );
                    }
                } else {
                    proof {
                        crate::checkspec::lemma_class_err_guard(
                            st_prev,
                            ci,
                            bdv,
                            bi as int,
                            acc_dv,
                            _info.dv(),
                            out_view,
                            st_mid,
                        );
                    }
                    return Err(
                        CheckError {
                            kind: CheckErrorKind::InvalidContext,
                            start: body[bi].start,
                            end: body[bi].end,
                        },
                    );
                }
            } else {
                if self.scope.functions.len() > 0 && ci < self.table.classes.len() {
                    let midx = self.scope.functions[self.scope.functions.len() - 1];
                    let ghost classes_pre = self.table.dv().classes;
                    let cname = self.table.classes[ci].name.clone();
                    let f2 = copy_indices(&self.table.classes[ci].fields);
                    let mut fns2 = copy_indices(&self.table.classes[ci].functions);
                    fns2.push(midx);
                    self.table.classes.set(ci, ClassSymbol { name: cname, fields: f2, functions: fns2 });
                    proof {
                        assert(midx == st_mid.scope.functions.last());
                        assert(self.table.dv().classes =~= classes_pre.update(
                            ci as int,
                            ClassSymV {
                                functions: classes_pre[ci as int].functions.push(midx),
                                ..classes_pre[ci as int]
                            },
                        ));
                        assert(self.table.dv().vars =~= st_mid.table.vars);
                        assert(self.table.dv().funs =~= st_mid.table.funs);
                        assert(self.st() == crate::checkspec::register_method(st_mid, ci));
                        crate::checkspec::lemma_class_step_fun(
                            st_prev,
                            ci,
                            bdv,
                            bi as int,
                            acc_dv,
                            _info.dv(),
                            out_view,
                            st_mid,
                        );
                    }
                } else {
                    proof {
                        crate::checkspec::lemma_class_err_guard(
                            st_prev,
                            ci,
                            bdv,
                            bi as int,
                            acc_dv,
                            _info.dv(),
                            out_view,
                            st_mid,
                        );
                    }
                    return Err(
                        CheckError {
                            kind: CheckErrorKind::InvalidContext,
                            start: body[bi].start,
                            end: body[bi].end,
                        },
                    );
                }
            }
            let ghost acc_pre = new_body_vec@;
            let ghost out_pre = out@;
            new_body_vec.append(&mut out);
            proof {
                lemma_nodes_dv_concat(acc_pre, out_pre);
            }
            bi = bi + 1;
        }
        proof {
            crate::checkspec::lemma_class_done(self.st(), ci, bdv, nodes_dv(new_body_vec@));
        }
        let mut cur = Scope::new(ScopeType::Root, None);
        core::mem::swap(&mut self.scope, &mut cur);
        match cur.parent {
            Some(p) => {
                self.scope = *p;
            },
            None => {
                return Err(
                    CheckError { kind: CheckErrorKind::InvalidContext, start: pos.start, end: pos.end },
                );
            },
        }
        let mut out: Vec<Positioned<Node>> = Vec::new();
        out.push(
            Positioned {
                start: pos.start,
                end: pos.end,
                data: Node::ClassDefinition { name: clone_pstring(name), body: new_body_vec },
            },
        );
        proof {
            lemma_nodes_dv(out@);
            assert(nodes_dv(out@) =~= seq![pnode_dv(out@[0])]);
        }
        Ok((NodeInfo::new(Some(DataType::Void), None), out))
    }

    /// Check one node, dispatching on its kind.
    fn check_node(&mut self, node: &Positioned<Node>) -> (r: Result<
        (NodeInfo, Vec<Positioned<Node>>),
        CheckError,
    >)
        ensures
            node_result_matches(
                *old(self),
                *final(self),
                r,
                check_node_v(old(self).st(), pnode_dv(*node)),
            ),
        decreases size_pnode(pnode_dv(*node)),
    {
        match &node.data {
            Node::Value(v) => self.check_value(node.convert(()), v),
            Node::BinaryOperation { lhs, op, rhs } => self.check_binary_operation(
                node.convert(()),
                lhs,
                *op,
                rhs,
            ),
            Node::VariableDefinition { var_type, name, data_type, value } => {
                proof {
                    assert((match *value {
                        Some(v) => size_pnode(pnode_dv(*v)),
                        None => 0nat,
                    }) == (match crate::node::opt_pnode_dv(*value) {
                        Some(v) => size_pnode(*v),
                        None => 0nat,
                    }));
                    assert(size_node(node_dv(node.data)) == 1 + (match crate::node::opt_pnode_dv(*value) {
                        Some(v) => size_pnode(*v),
                        None => 0nat,
                    }));
                }
                self.check_variable_definition(node.convert(()), *var_type, name, data_type, value)
            },
            Node::FunctionDefinition { name, return_type, params, body, constructor } => {
                proof {
                    assert((match *body {
                        Some(b) => size_nodes_from(nodes_dv(b@), 0),
                        None => 0nat,
                    }) == (match crate::node::opt_body_dv(*body) {
                        Some(b) => size_nodes_from(b, 0),
                        None => 0nat,
                    }));
                    assert(size_node(node_dv(node.data)) == 1 + (match crate::node::opt_body_dv(*body) {
                        Some(b) => size_nodes_from(b, 0),
                        None => 0nat,
                    }));
                }
                self.check_function_definition(node.convert(()), name, return_type, params, body, *constructor)
            },
            Node::Return(v) => self.check_return(node.convert(()), v),
            Node::FunctionCall { name, params } => self.check_function_call(node.convert(()), name, params),
            Node::Import(path) => self.check_import(node.convert(()), path),
            Node::ClassDefinition { name, body } => self.check_class_definition(node.convert(()), name, body),
        }
    }

    /// Check the whole unit: every top-level node in order, then the
    /// collected units re-emitted in encounter order in front of the rest.
    /// The first failure anywhere aborts the pass with that failure.
    #[verifier::loop_isolation(false)]
    pub fn check(&mut self) -> (r: Result<Vec<Positioned<Node>>, CheckError>)
        ensures
            final(self).src == old(self).src,
            final(self).ast == old(self).ast,
            match (check_unit_v(old(self).st(), nodes_dv(old(self).ast@)), r) {
                (Ok(ok), Ok(ro)) => nodes_dv(ro@) == ok.0 && final(self).st() == ok.1,
                (Err(e1), Err(e2)) => e1 == e2,
                _ => false,
            },
    {
        let ghost st0 = self.st();
        let mut ast_local: Vec<Positioned<Node>> = Vec::new();
        core::mem::swap(&mut self.ast, &mut ast_local);
        let ghost full = nodes_dv(ast_local@);
        proof {
            lemma_nodes_dv(ast_local@);
            crate::checkspec::lemma_fold_cont_nil(check_body_v(st0, full, 0));
            assert(nodes_dv(Seq::<Positioned<Node>>::empty()) =~= Seq::<Positioned<NodeV>>::empty());
        }
        let n = ast_local.len();
        let mut acc: Vec<Positioned<Node>> = Vec::new();
        let mut i: usize = 0;
        while i < n
            invariant
                i <= n,
                n == ast_local@.len(),
                ast_local == old(self).ast,
                full == nodes_dv(ast_local@),
                full.len() == n,
                forall|j: int| 0 <= j < n ==> full[j] == pnode_dv(ast_local@[j]),
                self.src == old(self).src,
                self.ast@.len() == 0,
                crate::checkspec::fold_cont(check_body_v(self.st(), full, i as int), nodes_dv(acc@))
                    == check_body_v(st0, full, 0),
            decreases n - i,
        {
            let ghost st_prev = self.st();
            let ghost acc_dv = nodes_dv(acc@);
            let step = self.check_node(&ast_local[i]);
            match step {
                Ok(p) => {
                    let (_info, mut out) = p;
                    proof {
                        crate::checkspec::lemma_body_step(
                            st_prev,
                            full,
                            i as int,
                            acc_dv,
                            _info.dv(),
                            nodes_dv(out@),
                            self.st(),
                        );
                    }
                    let ghost acc_pre = acc@;
                    let ghost out_pre = out@;
                    acc.append(&mut out);
                    proof {
                        lemma_nodes_dv_concat(acc_pre, out_pre);
                    }
                },
                Err(e) => {
                    proof {
                        crate::checkspec::lemma_body_err(st_prev, full, i as int, acc_dv, e);
                    }
                    core::mem::swap(&mut self.ast, &mut ast_local);
                    return Err(e);
                },
            }
            i = i + 1;
        }
        proof {
            crate::checkspec::lemma_body_done(self.st(), full, nodes_dv(acc@));
        }
        let ghost stf = self.st();
        let mut result: Vec<Positioned<Node>> = Vec::new();
        let m = self.imports.len();
        let mut j: usize = 0;
        while j < m
            invariant
                j <= m,
                m == self.imports@.len(),
                self.st() == stf,
                self.src == old(self).src,
                self.ast@.len() == 0,
                result@.len() == j,
                forall|k: int| 0 <= k < j ==> pnode_dv(result@[k]) == imports_out(stf.imports)[k],
            decreases m - j,
        {
            let entry_pos = self.imports[j].0;
            let path_copy = clone_pstring(&self.imports[j].1);
            result.push(
                Positioned { start: entry_pos.start, end: entry_pos.end, data: Node::Import(path_copy) },
            );
            j = j + 1;
        }
        proof {
            lemma_nodes_dv(result@);
            assert(imports_out(stf.imports).len() == m);
            assert(nodes_dv(result@) =~= imports_out(stf.imports));
        }
        let ghost result_pre = result@;
        let ghost acc_pre2 = acc@;
        result.append(&mut acc);
        proof {
            lemma_nodes_dv_concat(result_pre, acc_pre2);
        }
        core::mem::swap(&mut self.ast, &mut ast_local);
        self.index = n;
        Ok(result)
    }
}

} // verus!
