//! The library's stated laws: what the checker guarantees, proved once and
//! for all over the mirror functions of `checkspec`. Each law is a public
//! proof function; its doc comment states the law in words.

use vstd::prelude::*;
use crate::checkspec::{
    CheckError, CheckErrorKind, InfoV, StV, check_args_v, check_assignment_v, check_body_v,
    check_call_v, check_class_body_v, check_classdef_v, check_node_v, check_unit_v, check_value_v,
    check_vardef_v, clear_scope, err_at, imports_extended, imports_out, infer2_v, infer_v,
    no_imports, register_field,
};
use crate::node::{ArgV, NodeV, ParamV, VarType};
use crate::position::Positioned;
use crate::scope::{ScopeV, chain_var, clear_override, resolve_fun, resolve_var, symbol_in_chain};
use crate::symbols::{Symbol, TableV, VarSymV, find_var_from};
use crate::types::{TypeV, compatible, numeric_alias};

verus! {

/// The name that a node declares, if it is a declaration.
pub open spec fn declared_name(n: NodeV) -> Option<Positioned<Seq<char>>> {
    match n {
        NodeV::VariableDefinition { name, .. } => Some(name),
        NodeV::FunctionDefinition { name, .. } => Some(name),
        NodeV::ClassDefinition { name, .. } => Some(name),
        _ => None,
    }
}

/// No shadowing: declaring a variable, function or class under a name that
/// already resolves to anything, anywhere in the current scope chain,
/// always fails with a duplicate-declaration error at the name — whatever
/// the declaration's shape, annotations, body or nesting depth.
pub proof fn lemma_no_shadowing(st: StV, node: Positioned<NodeV>)
    requires
        declared_name(node.data) is Some,
        symbol_in_chain(st.scope, st.table, declared_name(node.data)->0.data),
    ensures
        check_node_v(st, node) == Err::<(InfoV, Seq<Positioned<NodeV>>, StV), CheckError>(
            err_at(
                CheckErrorKind::DuplicateDeclaration,
                declared_name(node.data)->0.start,
                declared_name(node.data)->0.end,
            ),
        ),
{
}

/// Constant immutability, rejecting half: an assignment whose left side
/// resolved to a variable that is constant and already initialized fails
/// with an invalid-assignment-target error, whatever the right side was.
pub proof fn lemma_constant_immutable(
    st: StV,
    pos: Positioned<()>,
    lhs: Positioned<NodeV>,
    op: Positioned<crate::node::Operator>,
    rhs: Positioned<NodeV>,
    info_l: InfoV,
    out_l: Seq<Positioned<NodeV>>,
    st1: StV,
    info_r: InfoV,
    out_r: Seq<Positioned<NodeV>>,
    st2: StV,
    vi: usize,
)
    requires
        check_node_v(st, lhs) == Ok::<(InfoV, Seq<Positioned<NodeV>>, StV), CheckError>(
            (info_l, out_l, st1),
        ),
        check_node_v(st1, rhs) == Ok::<(InfoV, Seq<Positioned<NodeV>>, StV), CheckError>(
            (info_r, out_r, st2),
        ),
        out_l.len() == 1,
        out_r.len() == 1,
        info_l.symbol == Some(Symbol::Variable(vi)),
        vi < st2.table.vars.len(),
        st2.table.vars[vi as int].var_type == VarType::Constant,
        st2.table.vars[vi as int].initialized,
    ensures
        check_assignment_v(st, pos, lhs, op, rhs) == Err::<
            (InfoV, Seq<Positioned<NodeV>>, StV),
            CheckError,
        >(err_at(CheckErrorKind::InvalidAssignmentTarget, pos.start, pos.end)),
{
}

/// Constant immutability, permitting half: the same assignment on a
/// mutable variable is never rejected as an assignment target; it can only
/// fail further on, in type unification.
pub proof fn lemma_mutable_assignable(
    st: StV,
    pos: Positioned<()>,
    lhs: Positioned<NodeV>,
    op: Positioned<crate::node::Operator>,
    rhs: Positioned<NodeV>,
    info_l: InfoV,
    out_l: Seq<Positioned<NodeV>>,
    st1: StV,
    info_r: InfoV,
    out_r: Seq<Positioned<NodeV>>,
    st2: StV,
    vi: usize,
)
    requires
        check_node_v(st, lhs) == Ok::<(InfoV, Seq<Positioned<NodeV>>, StV), CheckError>(
            (info_l, out_l, st1),
        ),
        check_node_v(st1, rhs) == Ok::<(InfoV, Seq<Positioned<NodeV>>, StV), CheckError>(
            (info_r, out_r, st2),
        ),
        out_l.len() == 1,
        out_r.len() == 1,
        info_l.symbol == Some(Symbol::Variable(vi)),
        vi < st2.table.vars.len(),
        st2.table.vars[vi as int].var_type == VarType::Variable,
    ensures
        ({
            let marked = StV {
                table: TableV {
                    vars: st2.table.vars.update(
                        vi as int,
                        VarSymV { initialized: true, ..st2.table.vars[vi as int] },
                    ),
                    ..st2.table
                },
                ..st2
            };
            check_assignment_v(st, pos, lhs, op, rhs) == (match infer2_v(
                marked.table,
                info_l,
                info_r,
            ) {
                Ok(p) => Ok::<(InfoV, Seq<Positioned<NodeV>>, StV), CheckError>(
                    (
                        InfoV { data_type: Some(p.0), symbol: None },
                        seq![
                            Positioned {
                                start: pos.start,
                                end: pos.end,
                                data: NodeV::BinaryOperation {
                                    lhs: Box::new(out_l[0]),
                                    op,
                                    rhs: Box::new(out_r[0]),
                                },
                            },
                        ],
                        StV { table: p.1, ..marked },
                    ),
                ),
                Err(k) => Err(err_at(k, pos.start, pos.end)),
            })
        }),
{
}

/// Bidirectional inference, fixing half: an expression bound to a variable
/// that has no type yet unifies with any expected type, and fixes the
/// variable's type to it, permanently recorded in the table.
pub proof fn lemma_inference_fixes_type(t: TableV, info: InfoV, other: TypeV, vi: usize)
    requires
        info.data_type is None,
        info.symbol == Some(Symbol::Variable(vi)),
        vi < t.vars.len(),
        t.vars[vi as int].data_type is None,
    ensures
        infer_v(t, info, other) == Ok::<(TypeV, TableV), CheckErrorKind>(
            (
                other,
                TableV {
                    vars: t.vars.update(
                        vi as int,
                        VarSymV { data_type: Some(other), ..t.vars[vi as int] },
                    ),
                    ..t
                },
            ),
        ),
{
}

/// Bidirectional inference, checking half: once a variable's type is
/// fixed, using it where a compatible type is expected succeeds and where
/// an incompatible one is expected fails with a type mismatch. In
/// particular a variable fixed to the numeric type can stand wherever any
/// numeric primitive alias is expected, and never where text is expected.
pub proof fn lemma_inference_checks_type(t: TableV, info: InfoV, vi: usize, alias: Seq<char>)
    requires
        info.data_type is None,
        info.symbol == Some(Symbol::Variable(vi)),
        vi < t.vars.len(),
        t.vars[vi as int].data_type == Some(TypeV::CDecimal),
        numeric_alias(alias),
    ensures
        infer_v(t, info, TypeV::Custom(alias)) == Ok::<(TypeV, TableV), CheckErrorKind>(
            (TypeV::Custom(alias), t),
        ),
        infer_v(t, info, TypeV::CDecimal) == Ok::<(TypeV, TableV), CheckErrorKind>(
            (TypeV::CDecimal, t),
        ),
        infer_v(t, info, TypeV::CString) == Err::<(TypeV, TableV), CheckErrorKind>(
            CheckErrorKind::TypeMismatch,
        ),
{
}

/// Arity, at the level of the pairwise argument walk: a walk that ends
/// successfully consumed exactly one argument per declared parameter. Read
/// the other way round: a call with too few or too many arguments never
/// checks.
pub proof fn lemma_args_ok_exact_arity(
    st: StV,
    params: Seq<ParamV>,
    args: Seq<ArgV>,
    i: int,
    pos: Positioned<()>,
)
    requires
        0 <= i <= args.len(),
        check_args_v(st, params, args, i, pos) is Ok,
    ensures
        args.len() == params.len(),
    decreases args.len() - i,
{
    if i < params.len() {
        match check_node_v(st, args[i].value) {
            Ok(p) => {
                if p.1.len() == 1 {
                    match infer_v(p.2.table, p.0, TypeV::Custom(params[i].data_type.data)) {
                        Ok(q) => {
                            lemma_args_ok_exact_arity(
                                StV { table: q.1, ..p.2 },
                                params,
                                args,
                                i + 1,
                                pos,
                            );
                        },
                        Err(_) => {},
                    }
                }
            },
            Err(_) => {},
        }
    }
}

/// Arity, at the level of a whole call: a call that checks resolved its
/// callee, supplied exactly as many arguments as the callee declares
/// parameters, and yields the callee's declared return type.
pub proof fn lemma_call_arity(st: StV, pos: Positioned<()>, name: Positioned<Seq<char>>, args: Seq<ArgV>)
    requires
        check_call_v(st, pos, name, args) is Ok,
    ensures
        resolve_fun(st.scope, st.table.funs, name.data) is Some,
        ({
            let fi = resolve_fun(st.scope, st.table.funs, name.data)->0;
            &&& args.len() == st.table.funs[fi as int].params.len()
            &&& check_call_v(st, pos, name, args)->Ok_0.0.data_type == Some(
                st.table.funs[fi as int].data_type,
            )
        }),
{
    let fi = resolve_fun(st.scope, st.table.funs, name.data)->0;
    let st1 = clear_scope(st);
    lemma_args_ok_exact_arity(st1, st1.table.funs[fi as int].params, args, 0, pos);
}

/// The member scope built for a class holds exactly the class's current
/// fields and methods and nothing else: resolving under an installed
/// override consults that flat list alone — no local table, no parent, no
/// wider visibility.
pub proof fn lemma_member_resolution(s: ScopeV, member: ScopeV, t: Seq<VarSymV>, name: Seq<char>)
    requires
        s.selected == Some(Box::new(member)),
        member.parent is None,
    ensures
        resolve_var(s, t, name) == find_var_from(member.variables, t, name, 0),
{
}

/// Class member visibility, registration half: when a field declaration
/// inside a class body checks, the state seen by every later member holds
/// the class record with that field appended at the end of its field list
/// — appended through the shared record, so every holder of the class
/// observes it, member scopes built for later accesses included.
pub proof fn lemma_class_field_registered(st1: StV, ci: usize)
    requires
        ci < st1.table.classes.len(),
        st1.scope.variables.len() > 0,
    ensures
        ({
            let st2 = register_field(st1, ci);
            &&& st2.table.classes[ci as int].fields == st1.table.classes[ci as int].fields.push(
                st1.scope.variables.last(),
            )
            &&& st2.table.classes[ci as int].fields.last() == st1.scope.variables.last()
            &&& st2.table.classes[ci as int].functions == st1.table.classes[ci as int].functions
            &&& st2.scope == st1.scope
            &&& st2.imports == st1.imports
        }),
{
}

/// Hoisting, node half: checking one node emits no directive in place, and
/// only ever appends to the collected list — never reorders or drops what
/// was collected before.
pub proof fn lemma_node_imports(st: StV, node: Positioned<NodeV>)
    ensures
        check_node_v(st, node) matches Ok(o) ==> no_imports(o.1) && imports_extended(
            st.imports,
            o.2.imports,
        ),
    decreases crate::node::size_pnode(node),
{
    crate::checkspec::lemma_mirror_imports_node(st, node);
}

/// Hoisting, unit half: a checked unit is exactly the collected directives
/// — everything collected anywhere in the unit, in encounter order — in
/// front of the rewritten statements, which hold no directive themselves.
pub proof fn lemma_import_hoisting(st: StV, nodes: Seq<Positioned<NodeV>>)
    ensures
        check_body_v(st, nodes, 0) matches Ok(p) ==> check_unit_v(st, nodes) == Ok::<
            (Seq<Positioned<NodeV>>, StV),
            CheckError,
        >((imports_out(p.1.imports) + p.0, p.1)) && no_imports(p.0) && imports_extended(
            st.imports,
            p.1.imports,
        ),
{
    crate::checkspec::lemma_mirror_imports_body(st, nodes, 0);
}

} // verus!
