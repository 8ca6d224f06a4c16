//! The mathematical definition of the semantic checker: a pure,
//! state-threading function family over the views of the syntax tree, the
//! symbol table and the scope chain. The executable checker proves that it
//! returns exactly what these functions say, state included.

use vstd::prelude::*;
use vstd::string::StringExecFns;
use crate::node::{
    ArgV, NodeV, ParamV, ValueV, VarType, size_args_from, size_nodes_from, size_pnode,
};
use crate::position::{Position, Positioned};
use crate::scope::{ScopeTypeV, ScopeV, clear_override, resolve_class, resolve_fun, resolve_var, symbol_in_chain};
use crate::symbols::{ClassSymV, FunSymV, Symbol, TableV, VarSymV};
use crate::types::{TypeV, compatible, spell_type};

verus! {

/// The closed taxonomy of checking failures.
#[derive(Clone, Copy, PartialEq, Eq, Structural, Debug)]
pub enum CheckErrorKind {
    UnresolvedSymbol,
    DuplicateDeclaration,
    TypeMismatch,
    UninferableType,
    InvalidAssignmentTarget,
    InvalidAccessTarget,
    InvalidContext,
    ArityMismatch,
    UnsupportedConstruct,
}

/// A checking failure: its kind and the source span it points at. Checking
/// is fail-fast: the first error aborts the whole pass.
#[derive(Clone, Copy, PartialEq, Eq, Structural, Debug)]
pub struct CheckError {
    pub kind: CheckErrorKind,
    pub start: Position,
    pub end: Position,
}

/// The mathematical value of a checked expression's summary: its statically
/// known type, if any, and the symbol it is bound to, if any.
pub struct InfoV {
    pub data_type: Option<TypeV>,
    pub symbol: Option<Symbol>,
}

/// The checker's whole mutable state: the current scope (the top of the
/// chain), the symbol table, and the units collected for hoisting.
pub struct StV {
    pub scope: ScopeV,
    pub table: TableV,
    pub imports: Seq<(Positioned<()>, Positioned<Seq<char>>)>,
}

/// The result of checking one construct: its summary, the rewritten nodes
/// it contributes, and the state afterwards.
pub type CheckResV = Result<(InfoV, Seq<Positioned<NodeV>>, StV), CheckError>;

/// `st` with the override slot of its scope dropped, as every lookup leaves
/// it.
pub open spec fn clear_scope(st: StV) -> StV {
    StV { scope: clear_override(st.scope), ..st }
}

/// A failure of kind `kind` pointing at the span of `pos`.
pub open spec fn err_at(kind: CheckErrorKind, start: Position, end: Position) -> CheckError {
    CheckError { kind, start, end }
}

// ---------------------------------------------------------------------
// The inference engine.
// ---------------------------------------------------------------------

/// One-sided unification of a checked expression against an expected type:
/// an expression with a known type must be compatible with `other`; an
/// expression bound to a variable uses the variable's type, or — when the
/// variable has none yet — fixes it to `other`, permanently. The result is
/// always `other`. An expression with neither a type nor a variable binding
/// cannot be inferred.
pub open spec fn infer_v(t: TableV, info: InfoV, other: TypeV) -> Result<(TypeV, TableV), CheckErrorKind> {
    match info.data_type {
        Some(dt) => if compatible(other, dt) {
            Ok((other, t))
        } else {
            Err(CheckErrorKind::TypeMismatch)
        },
        None => match info.symbol {
            Some(Symbol::Variable(vi)) => if vi < t.vars.len() {
                match t.vars[vi as int].data_type {
                    Some(dt) => if compatible(other, dt) {
                        Ok((other, t))
                    } else {
                        Err(CheckErrorKind::TypeMismatch)
                    },
                    None => Ok(
                        (
                            other,
                            TableV {
                                vars: t.vars.update(
                                    vi as int,
                                    VarSymV { data_type: Some(other), ..t.vars[vi as int] },
                                ),
                                ..t
                            },
                        ),
                    ),
                }
            } else {
                Err(CheckErrorKind::UninferableType)
            },
            _ => Err(CheckErrorKind::UninferableType),
        },
    }
}

/// Two-sided best-effort unification: whichever side has a known type
/// drives a one-sided unification of the other; when neither has one the
/// inference fails. No constraint propagation beyond this single step.
pub open spec fn infer2_v(t: TableV, a: InfoV, b: InfoV) -> Result<(TypeV, TableV), CheckErrorKind> {
    match b.data_type {
        Some(dt) => infer_v(t, a, dt),
        None => match a.data_type {
            Some(dt) => infer_v(t, b, dt),
            None => Err(CheckErrorKind::UninferableType),
        },
    }
}

// ---------------------------------------------------------------------
// The node checkers.
// ---------------------------------------------------------------------

/// Checking a leaf expression: a numeric literal is `CDecimal` and a quoted
/// literal `CString`, with no binding; a bare name resolves first as a
/// variable, then as a class; the implicit receiver resolves the pre-bound
/// variable `self` and is a context error where none is in scope. Name
/// lookups consume the override slot.
pub open spec fn check_value_v(st: StV, value: Positioned<ValueV>) -> CheckResV {
    match value.data {
        ValueV::Decimal(s) => Ok(
            (
                InfoV { data_type: Some(TypeV::CDecimal), symbol: None },
                seq![
                    Positioned {
                        start: value.start,
                        end: value.end,
                        data: NodeV::Value(ValueV::Decimal(s)),
                    },
                ],
                st,
            ),
        ),
        ValueV::Text(s) => Ok(
            (
                InfoV { data_type: Some(TypeV::CString), symbol: None },
                seq![
                    Positioned { start: value.start, end: value.end, data: NodeV::Value(ValueV::Text(s)) },
                ],
                st,
            ),
        ),
        ValueV::VariableCall(name) => {
            let st1 = clear_scope(st);
            match resolve_var(st.scope, st.table.vars, name) {
                Some(vi) => Ok(
                    (
                        InfoV {
                            data_type: st.table.vars[vi as int].data_type,
                            symbol: Some(Symbol::Variable(vi)),
                        },
                        seq![
                            Positioned {
                                start: value.start,
                                end: value.end,
                                data: NodeV::Value(ValueV::VariableCall(name)),
                            },
                        ],
                        st1,
                    ),
                ),
                None => match resolve_class(st1.scope, st1.table.classes, name) {
                    Some(ci) => Ok(
                        (
                            InfoV {
                                data_type: Some(TypeV::Custom(name)),
                                symbol: Some(Symbol::Class(ci)),
                            },
                            seq![
                                Positioned {
                                    start: value.start,
                                    end: value.end,
                                    data: NodeV::Value(ValueV::VariableCall(name)),
                                },
                            ],
                            st1,
                        ),
                    ),
                    None => Err(err_at(CheckErrorKind::UnresolvedSymbol, value.start, value.end)),
                },
            }
        },
        ValueV::This => {
            let st1 = clear_scope(st);
            match resolve_var(st.scope, st.table.vars, "self"@) {
                Some(vi) => Ok(
                    (
                        InfoV {
                            data_type: st.table.vars[vi as int].data_type,
                            symbol: Some(Symbol::Variable(vi)),
                        },
                        seq![
                            Positioned { start: value.start, end: value.end, data: NodeV::Value(ValueV::This) },
                        ],
                        st1,
                    ),
                ),
                None => Err(err_at(CheckErrorKind::InvalidContext, value.start, value.end)),
            }
        },
    }
}

/// Recording a unit for hoisting: nothing is emitted in place; the path is
/// appended to the collected list, in encounter order.
pub open spec fn check_import_v(st: StV, pos: Positioned<()>, path: Positioned<Seq<char>>) -> CheckResV {
    Ok(
        (
            InfoV { data_type: Some(TypeV::Void), symbol: None },
            Seq::<Positioned<NodeV>>::empty(),
            StV { imports: st.imports.push((pos, path)), ..st },
        ),
    )
}

/// The member scope of a class: a parentless scope holding exactly the
/// class's current fields and methods, nothing wider.
pub open spec fn member_scope_of(c: ClassSymV) -> ScopeV {
    ScopeV {
        scope: ScopeTypeV::Class(c.name),
        parent: None,
        variables: c.fields,
        functions: c.functions,
        classes: Seq::<usize>::empty(),
        selected: None,
    }
}

/// Checking a member access `lhs.rhs`: the left side must resolve to a
/// class, or to a variable whose type names a class; that class's member
/// scope is installed as the override, so the right side sees only members
/// of the class; the result is the right side's.
pub open spec fn check_member_access_v(
    st: StV,
    pos: Positioned<()>,
    lhs: Positioned<NodeV>,
    op: Positioned<crate::node::Operator>,
    rhs: Positioned<NodeV>,
) -> CheckResV
    decreases size_pnode(lhs) + size_pnode(rhs) + 1,
{
    match check_node_v(st, lhs) {
        Err(e) => Err(e),
        Ok((lhs_info, lhs_out, st1)) => if lhs_out.len() != 1 {
            Err(err_at(CheckErrorKind::InvalidContext, pos.start, pos.end))
        } else {
            let class_and_state: Result<(usize, StV), CheckError> = match lhs_info.symbol {
                Some(Symbol::Variable(vi)) => if vi < st1.table.vars.len() {
                    match st1.table.vars[vi as int].data_type {
                        Some(TypeV::Custom(cls_name)) => {
                            let st2 = clear_scope(st1);
                            match resolve_class(st1.scope, st1.table.classes, cls_name) {
                                Some(ci) => Ok((ci, st2)),
                                None => Err(err_at(CheckErrorKind::InvalidAccessTarget, pos.start, pos.end)),
                            }
                        },
                        _ => Err(err_at(CheckErrorKind::InvalidAccessTarget, pos.start, pos.end)),
                    }
                } else {
                    Err(err_at(CheckErrorKind::InvalidAccessTarget, pos.start, pos.end))
                },
                Some(Symbol::Class(ci)) => if ci < st1.table.classes.len() {
                    Ok((ci, st1))
                } else {
                    Err(err_at(CheckErrorKind::InvalidAccessTarget, pos.start, pos.end))
                },
                _ => Err(err_at(CheckErrorKind::InvalidAccessTarget, pos.start, pos.end)),
            };
            match class_and_state {
                Err(e) => Err(e),
                Ok((ci, st2)) => {
                    let member = member_scope_of(st2.table.classes[ci as int]);
                    let st3 = StV {
                        scope: ScopeV { selected: Some(Box::new(member)), ..st2.scope },
                        ..st2
                    };
                    match check_node_v(st3, rhs) {
                        Err(e) => Err(e),
                        Ok((rhs_info, rhs_out, st4)) => if rhs_out.len() != 1 {
                            Err(err_at(CheckErrorKind::InvalidContext, pos.start, pos.end))
                        } else {
                            Ok(
                                (
                                    rhs_info,
                                    seq![
                                        Positioned {
                                            start: pos.start,
                                            end: pos.end,
                                            data: NodeV::BinaryOperation {
                                                lhs: Box::new(lhs_out[0]),
                                                op,
                                                rhs: Box::new(rhs_out[0]),
                                            },
                                        },
                                    ],
                                    st4,
                                ),
                            )
                        },
                    }
                },
            }
        },
    }
}

/// Checking an assignment `lhs = rhs`: both sides are checked
/// independently; a left side bound to a function or class is rejected, as
/// is a constant that is already initialized; the variable is marked
/// initialized; the two sides' types are unified two-sidedly; the result
/// carries the unified type and no binding.
pub open spec fn check_assignment_v(
    st: StV,
    pos: Positioned<()>,
    lhs: Positioned<NodeV>,
    op: Positioned<crate::node::Operator>,
    rhs: Positioned<NodeV>,
) -> CheckResV
    decreases size_pnode(lhs) + size_pnode(rhs) + 1,
{
    match check_node_v(st, lhs) {
        Err(e) => Err(e),
        Ok((lhs_info, lhs_out, st1)) => match check_node_v(st1, rhs) {
            Err(e) => Err(e),
            Ok((rhs_info, rhs_out, st2)) => if lhs_out.len() != 1 || rhs_out.len() != 1 {
                Err(err_at(CheckErrorKind::InvalidContext, pos.start, pos.end))
            } else {
                let marked: Result<StV, CheckError> = match lhs_info.symbol {
                    None => Ok(st2),
                    Some(Symbol::Variable(vi)) => if vi < st2.table.vars.len() {
                        if st2.table.vars[vi as int].var_type == VarType::Constant
                            && st2.table.vars[vi as int].initialized {
                            Err(err_at(CheckErrorKind::InvalidAssignmentTarget, pos.start, pos.end))
                        } else {
                            Ok(
                                StV {
                                    table: TableV {
                                        vars: st2.table.vars.update(
                                            vi as int,
                                            VarSymV { initialized: true, ..st2.table.vars[vi as int] },
                                        ),
                                        ..st2.table
                                    },
                                    ..st2
                                },
                            )
                        }
                    } else {
                        Err(err_at(CheckErrorKind::UnresolvedSymbol, pos.start, pos.end))
                    },
                    Some(_) => Err(err_at(CheckErrorKind::InvalidAssignmentTarget, pos.start, pos.end)),
                };
                match marked {
                    Err(e) => Err(e),
                    Ok(st3) => match infer2_v(st3.table, lhs_info, rhs_info) {
                        Err(k) => Err(err_at(k, pos.start, pos.end)),
                        Ok((t, tb)) => Ok(
                            (
                                InfoV { data_type: Some(t), symbol: None },
                                seq![
                                    Positioned {
                                        start: pos.start,
                                        end: pos.end,
                                        data: NodeV::BinaryOperation {
                                            lhs: Box::new(lhs_out[0]),
                                            op,
                                            rhs: Box::new(rhs_out[0]),
                                        },
                                    },
                                ],
                                StV { table: tb, ..st3 },
                            ),
                        ),
                    },
                }
            },
        },
    }
}

/// The variable records and local indices that a function's parameters
/// contribute when its body scope is entered: one constant, pre-initialized
/// variable per parameter, in order.
pub open spec fn param_records(params: Seq<ParamV>) -> Seq<VarSymV> {
    params.map_values(
        |p: ParamV| VarSymV {
            var_type: VarType::Constant,
            name: p.name.data,
            data_type: Some(TypeV::Custom(p.data_type.data)),
            initialized: true,
        },
    )
}

/// The indices `base`, `base + 1`, ... for `n` freshly appended records.
pub open spec fn fresh_indices(base: nat, n: nat) -> Seq<usize> {
    Seq::new(n, |j: int| (base + j) as usize)
}

/// Checking the statements of a body in order, accumulating their rewritten
/// nodes.
pub open spec fn check_body_v(st: StV, nodes: Seq<Positioned<NodeV>>, i: int) -> Result<
    (Seq<Positioned<NodeV>>, StV),
    CheckError,
>
    decreases size_nodes_from(nodes, i),
{
    if i < 0 || i >= nodes.len() {
        Ok((Seq::<Positioned<NodeV>>::empty(), st))
    } else {
        match check_node_v(st, nodes[i]) {
            Err(e) => Err(e),
            Ok((info, out, st1)) => match check_body_v(st1, nodes, i + 1) {
                Err(e) => Err(e),
                Ok((rest, st2)) => Ok((out + rest, st2)),
            },
        }
    }
}

/// Checking the arguments of a call pairwise against the declared
/// parameters: each argument is checked and unified against its parameter's
/// declared type; running out of arguments is an arity error, and so are
/// arguments left over once every parameter is matched.
pub open spec fn check_args_v(
    st: StV,
    params: Seq<ParamV>,
    args: Seq<ArgV>,
    i: int,
    pos: Positioned<()>,
) -> Result<(Seq<ArgV>, StV), CheckError>
    decreases size_args_from(args, i),
{
    if i < 0 {
        Err(err_at(CheckErrorKind::ArityMismatch, pos.start, pos.end))
    } else if i >= params.len() {
        if args.len() > params.len() {
            Err(err_at(CheckErrorKind::ArityMismatch, pos.start, pos.end))
        } else {
            Ok((Seq::<ArgV>::empty(), st))
        }
    } else if i >= args.len() {
        Err(err_at(CheckErrorKind::ArityMismatch, pos.start, pos.end))
    } else {
        match check_node_v(st, args[i].value) {
            Err(e) => Err(e),
            Ok((info, out, st1)) => if out.len() != 1 {
                Err(err_at(CheckErrorKind::InvalidContext, pos.start, pos.end))
            } else {
                match infer_v(st1.table, info, TypeV::Custom(params[i].data_type.data)) {
                    Err(k) => Err(err_at(k, args[i].value.start, args[i].value.end)),
                    Ok((t, tb)) => match check_args_v(StV { table: tb, ..st1 }, params, args, i + 1, pos) {
                        Err(e) => Err(e),
                        Ok((rest, st2)) => Ok((seq![ArgV { value: out[0] }] + rest, st2)),
                    },
                }
            },
        }
    }
}


/// The state after the record just declared in the class scope — always
/// the last variable — is appended to class `ci`'s field list.
pub open spec fn register_field(st1: StV, ci: usize) -> StV {
    StV {
        table: TableV {
            classes: st1.table.classes.update(
                ci as int,
                ClassSymV {
                    fields: st1.table.classes[ci as int].fields.push(st1.scope.variables.last()),
                    ..st1.table.classes[ci as int]
                },
            ),
            ..st1.table
        },
        ..st1
    }
}

/// The state after the record just declared in the class scope — always
/// the last function — is appended to class `ci`'s method list.
pub open spec fn register_method(st1: StV, ci: usize) -> StV {
    StV {
        table: TableV {
            classes: st1.table.classes.update(
                ci as int,
                ClassSymV {
                    functions: st1.table.classes[ci as int].functions.push(st1.scope.functions.last()),
                    ..st1.table.classes[ci as int]
                },
            ),
            ..st1.table
        },
        ..st1
    }
}

/// Checking the members of a class body in order: each member must be a
/// variable or function definition; the resulting record — always the one
/// just appended to the current scope — is also appended, through the
/// shared class record, to the class's field or method list, so that it is
/// visible to every later member and every later access.
pub open spec fn check_class_body_v(st: StV, ci: usize, nodes: Seq<Positioned<NodeV>>, i: int) -> Result<
    (Seq<Positioned<NodeV>>, StV),
    CheckError,
>
    decreases size_nodes_from(nodes, i),
{
    if i < 0 || i >= nodes.len() {
        Ok((Seq::<Positioned<NodeV>>::empty(), st))
    } else {
        let registered: Result<(Seq<Positioned<NodeV>>, StV), CheckError> = match nodes[i].data {
            NodeV::VariableDefinition { .. } => match check_node_v(st, nodes[i]) {
                Err(e) => Err(e),
                Ok((info, out, st1)) => if st1.scope.variables.len() > 0 && ci < st1.table.classes.len() {
                    Ok((out, register_field(st1, ci)))
                } else {
                    Err(err_at(CheckErrorKind::InvalidContext, nodes[i].start, nodes[i].end))
                },
            },
            NodeV::FunctionDefinition { .. } => match check_node_v(st, nodes[i]) {
                Err(e) => Err(e),
                Ok((info, out, st1)) => if st1.scope.functions.len() > 0 && ci < st1.table.classes.len() {
                    Ok((out, register_method(st1, ci)))
                } else {
                    Err(err_at(CheckErrorKind::InvalidContext, nodes[i].start, nodes[i].end))
                },
            },
            _ => Err(err_at(CheckErrorKind::InvalidContext, nodes[i].start, nodes[i].end)),
        };
        match registered {
            Err(e) => Err(e),
            Ok((out, st2)) => match check_class_body_v(st2, ci, nodes, i + 1) {
                Err(e) => Err(e),
                Ok((rest, st3)) => Ok((out + rest, st3)),
            },
        }
    }
}

/// Checking one node, dispatching on its kind. This is the whole walk:
/// declarations (rejecting any name already resolvable in the chain),
/// expressions, returns, calls, units to hoist, and class bodies.
pub open spec fn check_node_v(st: StV, node: Positioned<NodeV>) -> CheckResV
    decreases size_pnode(node),
{
    match node.data {
        NodeV::Value(v) => check_value_v(st, Positioned { start: node.start, end: node.end, data: v }),
        NodeV::BinaryOperation { lhs, op, rhs } => {
            let pos = Positioned { start: node.start, end: node.end, data: () };
            match op.data {
                crate::node::Operator::MemberAccess => check_member_access_v(st, pos, *lhs, op, *rhs),
                crate::node::Operator::Assignment => check_assignment_v(st, pos, *lhs, op, *rhs),
                _ => Err(err_at(CheckErrorKind::UnsupportedConstruct, node.start, node.end)),
            }
        },
        NodeV::VariableDefinition { var_type, name, data_type, value } => check_vardef_v(
            st,
            Positioned { start: node.start, end: node.end, data: () },
            var_type,
            name,
            data_type,
            value,
        ),
        NodeV::FunctionDefinition { name, return_type, params, body, constructor } => check_fundef_v(
            st,
            Positioned { start: node.start, end: node.end, data: () },
            name,
            return_type,
            params,
            body,
            constructor,
        ),
        NodeV::Return(v) => check_return_v(st, Positioned { start: node.start, end: node.end, data: () }, *v),
        NodeV::FunctionCall { name, params } => check_call_v(
            st,
            Positioned { start: node.start, end: node.end, data: () },
            name,
            params,
        ),
        NodeV::Import(path) => check_import_v(st, Positioned { start: node.start, end: node.end, data: () }, path),
        NodeV::ClassDefinition { name, body } => check_classdef_v(
            st,
            Positioned { start: node.start, end: node.end, data: () },
            name,
            body,
        ),
    }
}

/// Checking a variable declaration: a name resolvable anywhere in the chain
/// is shadowing and is rejected. The declared type is settled from the
/// annotation and the initializer — each may fix the other through the
/// inference engine, and with neither present the declaration fails. A
/// fresh record is registered in the current scope, initialized exactly
/// when an initializer is present, and the rewritten node spells the
/// settled type out.
pub open spec fn check_vardef_v(
    st: StV,
    pos: Positioned<()>,
    var_type: Positioned<VarType>,
    name: Positioned<Seq<char>>,
    data_type: Option<Positioned<Seq<char>>>,
    value: Option<Box<Positioned<NodeV>>>,
) -> CheckResV
    decreases (match value {
        Some(v) => size_pnode(*v),
        None => 0nat,
    }) + 1,
{
    if symbol_in_chain(st.scope, st.table, name.data) {
        Err(err_at(CheckErrorKind::DuplicateDeclaration, name.start, name.end))
    } else {
        let settled: Result<(TypeV, StV), CheckError> = match value {
            Some(v) => match check_node_v(st, *v) {
                Err(e) => Err(e),
                Ok((value_info, value_out, st1)) => match data_type {
                    Some(ann) => match value_info.data_type {
                        Some(vt) => if compatible(vt, TypeV::Custom(ann.data)) {
                            Ok((TypeV::Custom(ann.data), st1))
                        } else {
                            Err(err_at(CheckErrorKind::TypeMismatch, pos.start, pos.end))
                        },
                        None => match infer_v(st1.table, value_info, TypeV::Custom(ann.data)) {
                            Err(k) => Err(err_at(k, pos.start, pos.end)),
                            Ok((t, tb)) => Ok((t, StV { table: tb, ..st1 })),
                        },
                    },
                    None => match value_info.data_type {
                        Some(vt) => Ok((vt, st1)),
                        None => Err(err_at(CheckErrorKind::UninferableType, pos.start, pos.end)),
                    },
                },
            },
            None => match data_type {
                Some(ann) => Ok((TypeV::Custom(ann.data), st)),
                None => Err(err_at(CheckErrorKind::UninferableType, pos.start, pos.end)),
            },
        };
        match settled {
            Err(e) => Err(e),
            Ok((final_t, st2)) => {
                let idx = st2.table.vars.len() as usize;
                let record = VarSymV {
                    var_type: var_type.data,
                    name: name.data,
                    data_type: Some(final_t),
                    initialized: value is Some,
                };
                let st3 = StV {
                    table: TableV { vars: st2.table.vars.push(record), ..st2.table },
                    scope: ScopeV { variables: st2.scope.variables.push(idx), ..st2.scope },
                    ..st2
                };
                match spell_type(final_t) {
                    None => Err(err_at(CheckErrorKind::UnsupportedConstruct, pos.start, pos.end)),
                    Some(spelled) => Ok(
                        (
                            InfoV { data_type: Some(TypeV::Void), symbol: None },
                            seq![
                                Positioned {
                                    start: pos.start,
                                    end: pos.end,
                                    data: NodeV::VariableDefinition {
                                        var_type,
                                        name,
                                        data_type: Some(
                                            Positioned { start: pos.start, end: pos.end, data: spelled },
                                        ),
                                        value,
                                    },
                                },
                            ],
                            st3,
                        ),
                    ),
                }
            },
        }
    }
}

/// Checking a function declaration: shadowing is rejected, and so is a
/// declaration nested inside a function scope. The record — classified as
/// external, constructor or normal — is registered before the body is
/// checked, so the body may refer to the function itself. The body, if
/// any, is checked in a fresh function scope pre-populated with one
/// constant, initialized variable per parameter, and the scope is popped
/// afterwards. The rewritten node spells the return type out.
pub open spec fn check_fundef_v(
    st: StV,
    pos: Positioned<()>,
    name: Positioned<Seq<char>>,
    return_type: Option<Positioned<Seq<char>>>,
    params: Seq<ParamV>,
    body: Option<Seq<Positioned<NodeV>>>,
    constructor: bool,
) -> CheckResV
    decreases (match body {
        Some(b) => size_nodes_from(b, 0),
        None => 0nat,
    }) + 1,
{
    if symbol_in_chain(st.scope, st.table, name.data) {
        Err(err_at(CheckErrorKind::DuplicateDeclaration, name.start, name.end))
    } else if st.scope.scope is Function {
        Err(err_at(CheckErrorKind::InvalidContext, pos.start, pos.end))
    } else {
        let data_type = match return_type {
            Some(rt) => TypeV::Custom(rt.data),
            None => TypeV::Void,
        };
        let function_type = if body is None {
            crate::symbols::FunctionType::ExternalFunction
        } else if constructor {
            crate::symbols::FunctionType::Constructor
        } else {
            crate::symbols::FunctionType::Function
        };
        let fidx = st.table.funs.len() as usize;
        let record = FunSymV { name: name.data, data_type, function_type, params };
        let st1 = StV {
            table: TableV { funs: st.table.funs.push(record), ..st.table },
            scope: ScopeV { functions: st.scope.functions.push(fidx), ..st.scope },
            ..st
        };
        let checked_body: Result<(Option<Seq<Positioned<NodeV>>>, StV), CheckError> = match body {
            None => Ok((None, st1)),
            Some(b) => {
                let base = st1.table.vars.len();
                let fn_scope = ScopeV {
                    scope: ScopeTypeV::Function(name.data, data_type),
                    parent: Some(Box::new(st1.scope)),
                    variables: fresh_indices(base, params.len()),
                    functions: Seq::<usize>::empty(),
                    classes: Seq::<usize>::empty(),
                    selected: None,
                };
                let st2 = StV {
                    table: TableV { vars: st1.table.vars + param_records(params), ..st1.table },
                    scope: fn_scope,
                    ..st1
                };
                match check_body_v(st2, b, 0) {
                    Err(e) => Err(e),
                    Ok((out, st3)) => match st3.scope.parent {
                        Some(p) => Ok((Some(out), StV { scope: *p, ..st3 })),
                        None => Err(err_at(CheckErrorKind::InvalidContext, pos.start, pos.end)),
                    },
                }
            },
        };
        match checked_body {
            Err(e) => Err(e),
            Ok((new_body, st4)) => match spell_type(data_type) {
                None => Err(err_at(CheckErrorKind::UnsupportedConstruct, pos.start, pos.end)),
                Some(spelled) => Ok(
                    (
                        InfoV { data_type: Some(TypeV::Void), symbol: None },
                        seq![
                            Positioned {
                                start: pos.start,
                                end: pos.end,
                                data: NodeV::FunctionDefinition {
                                    name,
                                    return_type: Some(
                                        Positioned { start: pos.start, end: pos.end, data: spelled },
                                    ),
                                    params,
                                    body: new_body,
                                    constructor,
                                },
                            },
                        ],
                        st4,
                    ),
                ),
            },
        }
    }
}

/// Checking a return statement: legal only when the current scope is a
/// function scope; the returned expression is unified against the declared
/// return type.
pub open spec fn check_return_v(st: StV, pos: Positioned<()>, value: Positioned<NodeV>) -> CheckResV
    decreases size_pnode(value) + 1,
{
    match st.scope.scope {
        ScopeTypeV::Function(fname, data_type) => match check_node_v(st, value) {
            Err(e) => Err(e),
            Ok((value_info, value_out, st1)) => if value_out.len() != 1 {
                Err(err_at(CheckErrorKind::InvalidContext, pos.start, pos.end))
            } else {
                match infer_v(st1.table, value_info, data_type) {
                    Err(k) => Err(err_at(k, pos.start, pos.end)),
                    Ok((t, tb)) => Ok(
                        (
                            InfoV { data_type: Some(TypeV::Void), symbol: None },
                            seq![
                                Positioned {
                                    start: pos.start,
                                    end: pos.end,
                                    data: NodeV::Return(Box::new(value_out[0])),
                                },
                            ],
                            StV { table: tb, ..st1 },
                        ),
                    ),
                }
            },
        },
        _ => Err(err_at(CheckErrorKind::InvalidContext, pos.start, pos.end)),
    }
}

/// Checking a function call: the callee is resolved by name (consuming the
/// override slot), the arguments are checked pairwise against its declared
/// parameters, and the call's type is the callee's declared return type.
pub open spec fn check_call_v(st: StV, pos: Positioned<()>, name: Positioned<Seq<char>>, args: Seq<ArgV>) -> CheckResV
    decreases size_args_from(args, 0) + 1,
{
    let st1 = clear_scope(st);
    match resolve_fun(st.scope, st.table.funs, name.data) {
        None => Err(err_at(CheckErrorKind::UnresolvedSymbol, name.start, name.end)),
        Some(fi) => {
            let callee = st1.table.funs[fi as int];
            match check_args_v(st1, callee.params, args, 0, pos) {
                Err(e) => Err(e),
                Ok((new_args, st2)) => Ok(
                    (
                        InfoV { data_type: Some(callee.data_type), symbol: None },
                        seq![
                            Positioned {
                                start: pos.start,
                                end: pos.end,
                                data: NodeV::FunctionCall { name, params: new_args },
                            },
                        ],
                        st2,
                    ),
                ),
            }
        },
    }
}

/// Checking a class declaration: shadowing is rejected; an empty class
/// record is registered immediately, so the body may refer to the class; a
/// class scope is pushed with the implicit receiver `self` pre-bound as a
/// constant, initialized variable of the class's type; the members are
/// checked and registered in order; and the scope is popped.
pub open spec fn check_classdef_v(
    st: StV,
    pos: Positioned<()>,
    name: Positioned<Seq<char>>,
    body: Seq<Positioned<NodeV>>,
) -> CheckResV
    decreases size_nodes_from(body, 0) + 1,
{
    if symbol_in_chain(st.scope, st.table, name.data) {
        Err(err_at(CheckErrorKind::DuplicateDeclaration, name.start, name.end))
    } else {
        let ci = st.table.classes.len() as usize;
        let st1 = StV {
            table: TableV {
                classes: st.table.classes.push(
                    ClassSymV {
                        name: name.data,
                        fields: Seq::<usize>::empty(),
                        functions: Seq::<usize>::empty(),
                    },
                ),
                ..st.table
            },
            scope: ScopeV { classes: st.scope.classes.push(ci), ..st.scope },
            ..st
        };
        let vi = st1.table.vars.len() as usize;
        let receiver = VarSymV {
            var_type: VarType::Constant,
            name: "self"@,
            data_type: Some(TypeV::Custom(name.data)),
            initialized: true,
        };
        let class_scope = ScopeV {
            scope: ScopeTypeV::Class(name.data),
            parent: Some(Box::new(st1.scope)),
            variables: seq![vi],
            functions: Seq::<usize>::empty(),
            classes: Seq::<usize>::empty(),
            selected: None,
        };
        let st2 = StV {
            table: TableV { vars: st1.table.vars.push(receiver), ..st1.table },
            scope: class_scope,
            ..st1
        };
        match check_class_body_v(st2, ci, body, 0) {
            Err(e) => Err(e),
            Ok((new_body, st3)) => match st3.scope.parent {
                Some(p) => Ok(
                    (
                        InfoV { data_type: Some(TypeV::Void), symbol: None },
                        seq![
                            Positioned {
                                start: pos.start,
                                end: pos.end,
                                data: NodeV::ClassDefinition { name, body: new_body },
                            },
                        ],
                        StV { scope: *p, ..st3 },
                    ),
                ),
                None => Err(err_at(CheckErrorKind::InvalidContext, pos.start, pos.end)),
            },
        }
    }
}

/// The collected units turned back into nodes, in encounter order.
pub open spec fn imports_out(imps: Seq<(Positioned<()>, Positioned<Seq<char>>)>) -> Seq<Positioned<NodeV>> {
    imps.map_values(
        |p: (Positioned<()>, Positioned<Seq<char>>)| Positioned {
            start: p.0.start,
            end: p.0.end,
            data: NodeV::Import(p.1),
        },
    )
}

/// Checking a whole unit: every top-level node in order, and then the
/// collected units re-emitted, in encounter order, in front of everything
/// else.
pub open spec fn check_unit_v(st: StV, nodes: Seq<Positioned<NodeV>>) -> Result<
    (Seq<Positioned<NodeV>>, StV),
    CheckError,
> {
    match check_body_v(st, nodes, 0) {
        Err(e) => Err(e),
        Ok((out, st1)) => Ok((imports_out(st1.imports) + out, st1)),
    }
}


// ---------------------------------------------------------------------
// Fold continuations: how a partially run body or argument fold relates
// to the whole one. The executable loops maintain these as invariants.
// ---------------------------------------------------------------------

/// A body fold with `acc` already emitted in front of whatever follows.
pub open spec fn fold_cont(
    m: Result<(Seq<Positioned<NodeV>>, StV), CheckError>,
    acc: Seq<Positioned<NodeV>>,
) -> Result<(Seq<Positioned<NodeV>>, StV), CheckError> {
    match m {
        Ok(p) => Ok((acc + p.0, p.1)),
        Err(e) => Err(e),
    }
}

/// An argument fold with `acc` already emitted in front.
pub open spec fn args_cont(m: Result<(Seq<ArgV>, StV), CheckError>, acc: Seq<ArgV>) -> Result<
    (Seq<ArgV>, StV),
    CheckError,
> {
    match m {
        Ok(p) => Ok((acc + p.0, p.1)),
        Err(e) => Err(e),
    }
}

/// Nothing emitted yet: the continuation is the fold itself.
pub proof fn lemma_fold_cont_nil(m: Result<(Seq<Positioned<NodeV>>, StV), CheckError>)
    ensures
        fold_cont(m, Seq::<Positioned<NodeV>>::empty()) == m,
{
    match m {
        Ok(p) => {
            assert(Seq::<Positioned<NodeV>>::empty() + p.0 =~= p.0);
        },
        Err(_) => {},
    }
}

/// Nothing emitted yet: the continuation is the fold itself.
pub proof fn lemma_args_cont_nil(m: Result<(Seq<ArgV>, StV), CheckError>)
    ensures
        args_cont(m, Seq::<ArgV>::empty()) == m,
{
    match m {
        Ok(p) => {
            assert(Seq::<ArgV>::empty() + p.0 =~= p.0);
        },
        Err(_) => {},
    }
}

/// One successful step of a body fold moves its output from the fold into
/// the accumulator.
pub proof fn lemma_body_step(
    st_i: StV,
    nodes: Seq<Positioned<NodeV>>,
    i: int,
    acc: Seq<Positioned<NodeV>>,
    info: InfoV,
    out: Seq<Positioned<NodeV>>,
    st_next: StV,
)
    requires
        0 <= i < nodes.len(),
        check_node_v(st_i, nodes[i]) == Ok::<(InfoV, Seq<Positioned<NodeV>>, StV), CheckError>(
            (info, out, st_next),
        ),
    ensures
        fold_cont(check_body_v(st_i, nodes, i), acc) == fold_cont(
            check_body_v(st_next, nodes, i + 1),
            acc + out,
        ),
{
    let rest = check_body_v(st_next, nodes, i + 1);
    match rest {
        Ok(p) => {
            assert(acc + (out + p.0) =~= (acc + out) + p.0);
        },
        Err(_) => {},
    }
}

/// A failing step of a body fold fails the whole fold with that failure.
pub proof fn lemma_body_err(
    st_i: StV,
    nodes: Seq<Positioned<NodeV>>,
    i: int,
    acc: Seq<Positioned<NodeV>>,
    e: CheckError,
)
    requires
        0 <= i < nodes.len(),
        check_node_v(st_i, nodes[i]) == Err::<(InfoV, Seq<Positioned<NodeV>>, StV), CheckError>(e),
    ensures
        fold_cont(check_body_v(st_i, nodes, i), acc) == Err::<(Seq<Positioned<NodeV>>, StV), CheckError>(e),
{
}

/// A body fold that has run to the end yields the accumulator and the
/// final state.
pub proof fn lemma_body_done(st: StV, nodes: Seq<Positioned<NodeV>>, acc: Seq<Positioned<NodeV>>)
    ensures
        fold_cont(check_body_v(st, nodes, nodes.len() as int), acc) == Ok::<
            (Seq<Positioned<NodeV>>, StV),
            CheckError,
        >((acc, st)),
{
    assert(acc + Seq::<Positioned<NodeV>>::empty() =~= acc);
}

/// One successful step of an argument fold.
pub proof fn lemma_args_step(
    st_i: StV,
    params: Seq<ParamV>,
    args: Seq<ArgV>,
    i: int,
    pos: Positioned<()>,
    acc: Seq<ArgV>,
    info: InfoV,
    out: Seq<Positioned<NodeV>>,
    st1: StV,
    t: TypeV,
    tb: TableV,
)
    requires
        0 <= i < params.len(),
        i < args.len(),
        check_node_v(st_i, args[i].value) == Ok::<(InfoV, Seq<Positioned<NodeV>>, StV), CheckError>(
            (info, out, st1),
        ),
        out.len() == 1,
        infer_v(st1.table, info, TypeV::Custom(params[i].data_type.data)) == Ok::<
            (TypeV, TableV),
            CheckErrorKind,
        >((t, tb)),
    ensures
        args_cont(check_args_v(st_i, params, args, i, pos), acc) == args_cont(
            check_args_v(StV { table: tb, ..st1 }, params, args, i + 1, pos),
            acc + seq![ArgV { value: out[0] }],
        ),
{
    let rest = check_args_v(StV { table: tb, ..st1 }, params, args, i + 1, pos);
    match rest {
        Ok(p) => {
            assert(acc + (seq![ArgV { value: out[0] }] + p.0) =~= (acc + seq![
                ArgV { value: out[0] },
            ]) + p.0);
        },
        Err(_) => {},
    }
}

/// A failing argument expression fails the whole fold.
pub proof fn lemma_args_err_node(
    st_i: StV,
    params: Seq<ParamV>,
    args: Seq<ArgV>,
    i: int,
    pos: Positioned<()>,
    acc: Seq<ArgV>,
    e: CheckError,
)
    requires
        0 <= i < params.len(),
        i < args.len(),
        check_node_v(st_i, args[i].value) == Err::<(InfoV, Seq<Positioned<NodeV>>, StV), CheckError>(e),
    ensures
        args_cont(check_args_v(st_i, params, args, i, pos), acc) == Err::<(Seq<ArgV>, StV), CheckError>(e),
{
}

/// An argument that does not check to exactly one node fails the fold.
pub proof fn lemma_args_err_len(
    st_i: StV,
    params: Seq<ParamV>,
    args: Seq<ArgV>,
    i: int,
    pos: Positioned<()>,
    acc: Seq<ArgV>,
    info: InfoV,
    out: Seq<Positioned<NodeV>>,
    st1: StV,
)
    requires
        0 <= i < params.len(),
        i < args.len(),
        check_node_v(st_i, args[i].value) == Ok::<(InfoV, Seq<Positioned<NodeV>>, StV), CheckError>(
            (info, out, st1),
        ),
        out.len() != 1,
    ensures
        args_cont(check_args_v(st_i, params, args, i, pos), acc) == Err::<(Seq<ArgV>, StV), CheckError>(
            err_at(CheckErrorKind::InvalidContext, pos.start, pos.end),
        ),
{
}

/// An argument whose type does not unify fails the fold, pointing at the
/// argument.
pub proof fn lemma_args_err_infer(
    st_i: StV,
    params: Seq<ParamV>,
    args: Seq<ArgV>,
    i: int,
    pos: Positioned<()>,
    acc: Seq<ArgV>,
    info: InfoV,
    out: Seq<Positioned<NodeV>>,
    st1: StV,
    k: CheckErrorKind,
)
    requires
        0 <= i < params.len(),
        i < args.len(),
        check_node_v(st_i, args[i].value) == Ok::<(InfoV, Seq<Positioned<NodeV>>, StV), CheckError>(
            (info, out, st1),
        ),
        out.len() == 1,
        infer_v(st1.table, info, TypeV::Custom(params[i].data_type.data)) == Err::<
            (TypeV, TableV),
            CheckErrorKind,
        >(k),
    ensures
        args_cont(check_args_v(st_i, params, args, i, pos), acc) == Err::<(Seq<ArgV>, StV), CheckError>(
            err_at(k, args[i].value.start, args[i].value.end),
        ),
{
}

/// Running out of arguments while parameters remain is an arity error.
pub proof fn lemma_args_too_few(
    st_i: StV,
    params: Seq<ParamV>,
    args: Seq<ArgV>,
    i: int,
    pos: Positioned<()>,
    acc: Seq<ArgV>,
)
    requires
        0 <= i < params.len(),
        i >= args.len(),
    ensures
        args_cont(check_args_v(st_i, params, args, i, pos), acc) == Err::<(Seq<ArgV>, StV), CheckError>(
            err_at(CheckErrorKind::ArityMismatch, pos.start, pos.end),
        ),
{
}

/// An argument fold that has matched every parameter: leftover arguments
/// are an arity error, and otherwise the fold yields the accumulator.
pub proof fn lemma_args_done(st: StV, params: Seq<ParamV>, args: Seq<ArgV>, pos: Positioned<()>, acc: Seq<ArgV>)
    ensures
        args.len() > params.len() ==> args_cont(
            check_args_v(st, params, args, params.len() as int, pos),
            acc,
        ) == Err::<(Seq<ArgV>, StV), CheckError>(err_at(CheckErrorKind::ArityMismatch, pos.start, pos.end)),
        args.len() <= params.len() ==> args_cont(
            check_args_v(st, params, args, params.len() as int, pos),
            acc,
        ) == Ok::<(Seq<ArgV>, StV), CheckError>((acc, st)),
{
    assert(acc + Seq::<ArgV>::empty() =~= acc);
}

/// One successful step of a class body fold on a field declaration.
pub proof fn lemma_class_step_var(
    st_i: StV,
    ci: usize,
    nodes: Seq<Positioned<NodeV>>,
    i: int,
    acc: Seq<Positioned<NodeV>>,
    info: InfoV,
    out: Seq<Positioned<NodeV>>,
    st1: StV,
)
    requires
        0 <= i < nodes.len(),
        nodes[i].data is VariableDefinition,
        check_node_v(st_i, nodes[i]) == Ok::<(InfoV, Seq<Positioned<NodeV>>, StV), CheckError>(
            (info, out, st1),
        ),
        st1.scope.variables.len() > 0,
        ci < st1.table.classes.len(),
    ensures
        fold_cont(check_class_body_v(st_i, ci, nodes, i), acc) == fold_cont(
            check_class_body_v(register_field(st1, ci), ci, nodes, i + 1),
            acc + out,
        ),
{
    let rest = check_class_body_v(register_field(st1, ci), ci, nodes, i + 1);
    match rest {
        Ok(p) => {
            assert(acc + (out + p.0) =~= (acc + out) + p.0);
        },
        Err(_) => {},
    }
}

/// One successful step of a class body fold on a method declaration.
pub proof fn lemma_class_step_fun(
    st_i: StV,
    ci: usize,
    nodes: Seq<Positioned<NodeV>>,
    i: int,
    acc: Seq<Positioned<NodeV>>,
    info: InfoV,
    out: Seq<Positioned<NodeV>>,
    st1: StV,
)
    requires
        0 <= i < nodes.len(),
        nodes[i].data is FunctionDefinition,
        check_node_v(st_i, nodes[i]) == Ok::<(InfoV, Seq<Positioned<NodeV>>, StV), CheckError>(
            (info, out, st1),
        ),
        st1.scope.functions.len() > 0,
        ci < st1.table.classes.len(),
    ensures
        fold_cont(check_class_body_v(st_i, ci, nodes, i), acc) == fold_cont(
            check_class_body_v(register_method(st1, ci), ci, nodes, i + 1),
            acc + out,
        ),
{
    let rest = check_class_body_v(register_method(st1, ci), ci, nodes, i + 1);
    match rest {
        Ok(p) => {
            assert(acc + (out + p.0) =~= (acc + out) + p.0);
        },
        Err(_) => {},
    }
}

/// A failing member fails the class body fold with that failure.
pub proof fn lemma_class_err_node(
    st_i: StV,
    ci: usize,
    nodes: Seq<Positioned<NodeV>>,
    i: int,
    acc: Seq<Positioned<NodeV>>,
    e: CheckError,
)
    requires
        0 <= i < nodes.len(),
        nodes[i].data is VariableDefinition || nodes[i].data is FunctionDefinition,
        check_node_v(st_i, nodes[i]) == Err::<(InfoV, Seq<Positioned<NodeV>>, StV), CheckError>(e),
    ensures
        fold_cont(check_class_body_v(st_i, ci, nodes, i), acc) == Err::<
            (Seq<Positioned<NodeV>>, StV),
            CheckError,
        >(e),
{
}

/// A member of any other kind at class-body level is a context error.
pub proof fn lemma_class_other(
    st_i: StV,
    ci: usize,
    nodes: Seq<Positioned<NodeV>>,
    i: int,
    acc: Seq<Positioned<NodeV>>,
)
    requires
        0 <= i < nodes.len(),
        !(nodes[i].data is VariableDefinition),
        !(nodes[i].data is FunctionDefinition),
    ensures
        fold_cont(check_class_body_v(st_i, ci, nodes, i), acc) == Err::<
            (Seq<Positioned<NodeV>>, StV),
            CheckError,
        >(err_at(CheckErrorKind::InvalidContext, nodes[i].start, nodes[i].end)),
{
}

/// A member whose registration guard fails is a context error.
pub proof fn lemma_class_err_guard(
    st_i: StV,
    ci: usize,
    nodes: Seq<Positioned<NodeV>>,
    i: int,
    acc: Seq<Positioned<NodeV>>,
    info: InfoV,
    out: Seq<Positioned<NodeV>>,
    st1: StV,
)
    requires
        0 <= i < nodes.len(),
        nodes[i].data is VariableDefinition || nodes[i].data is FunctionDefinition,
        check_node_v(st_i, nodes[i]) == Ok::<(InfoV, Seq<Positioned<NodeV>>, StV), CheckError>(
            (info, out, st1),
        ),
        nodes[i].data is VariableDefinition ==> !(st1.scope.variables.len() > 0 && ci
            < st1.table.classes.len()),
        nodes[i].data is FunctionDefinition ==> !(st1.scope.functions.len() > 0 && ci
            < st1.table.classes.len()),
    ensures
        fold_cont(check_class_body_v(st_i, ci, nodes, i), acc) == Err::<
            (Seq<Positioned<NodeV>>, StV),
            CheckError,
        >(err_at(CheckErrorKind::InvalidContext, nodes[i].start, nodes[i].end)),
{
}

/// A class body fold that has run to the end yields the accumulator and
/// the final state.
pub proof fn lemma_class_done(st: StV, ci: usize, nodes: Seq<Positioned<NodeV>>, acc: Seq<Positioned<NodeV>>)
    ensures
        fold_cont(check_class_body_v(st, ci, nodes, nodes.len() as int), acc) == Ok::<
            (Seq<Positioned<NodeV>>, StV),
            CheckError,
        >((acc, st)),
{
    assert(acc + Seq::<Positioned<NodeV>>::empty() =~= acc);
}


// ---------------------------------------------------------------------
// Hoisting facts: a checked construct never emits a directive in place,
// and only ever appends to the collected list.
// ---------------------------------------------------------------------

/// Whether a node sequence holds no hoisting directives at its top level.
pub open spec fn no_imports(s: Seq<Positioned<NodeV>>) -> bool {
    forall|i: int| 0 <= i < s.len() ==> !(s[i].data is Import)
}

/// Whether `post` extends `pre` by appending at the back only, keeping
/// every earlier entry in place and in order.
pub open spec fn imports_extended(
    pre: Seq<(Positioned<()>, Positioned<Seq<char>>)>,
    post: Seq<(Positioned<()>, Positioned<Seq<char>>)>,
) -> bool {
    post.len() >= pre.len() && post.subrange(0, pre.len() as int) == pre
}

/// Extension is reflexive.
pub proof fn lemma_extend_refl(a: Seq<(Positioned<()>, Positioned<Seq<char>>)>)
    ensures
        imports_extended(a, a),
{
    assert(a.subrange(0, a.len() as int) =~= a);
}

/// Extension is transitive.
pub proof fn lemma_extend_trans(
    a: Seq<(Positioned<()>, Positioned<Seq<char>>)>,
    b: Seq<(Positioned<()>, Positioned<Seq<char>>)>,
    c: Seq<(Positioned<()>, Positioned<Seq<char>>)>,
)
    requires
        imports_extended(a, b),
        imports_extended(b, c),
    ensures
        imports_extended(a, c),
{
    assert(c.subrange(0, a.len() as int) =~= c.subrange(0, b.len() as int).subrange(
        0,
        a.len() as int,
    ));
}

/// Extension by one appended entry.
pub proof fn lemma_extend_push(
    a: Seq<(Positioned<()>, Positioned<Seq<char>>)>,
    e: (Positioned<()>, Positioned<Seq<char>>),
)
    ensures
        imports_extended(a, a.push(e)),
{
    assert(a.push(e).subrange(0, a.len() as int) =~= a);
}

/// Checking one node emits no directive at the top level of its rewritten
/// output, and only appends to the collected list.
pub proof fn lemma_mirror_imports_node(st: StV, node: Positioned<NodeV>)
    ensures
        check_node_v(st, node) matches Ok(o) ==> no_imports(o.1) && imports_extended(
            st.imports,
            o.2.imports,
        ),
    decreases size_pnode(node), 0nat,
{
    lemma_extend_refl(st.imports);
    match node.data {
        NodeV::Value(v) => {},
        NodeV::BinaryOperation { lhs, op, rhs } => {
            let pos = Positioned { start: node.start, end: node.end, data: () };
            match op.data {
                crate::node::Operator::MemberAccess => {
                    match check_node_v(st, *lhs) {
                        Ok(p) => {
                            lemma_mirror_imports_node(st, *lhs);
                            let (lhs_info, lhs_out, st1) = p;
                            if lhs_out.len() == 1 {
                                let class_and_state: Result<(usize, StV), CheckError> = match lhs_info.symbol {
                                    Some(Symbol::Variable(vi)) => if vi < st1.table.vars.len() {
                                        match st1.table.vars[vi as int].data_type {
                                            Some(TypeV::Custom(cls_name)) => {
                                                let st2 = clear_scope(st1);
                                                match resolve_class(st1.scope, st1.table.classes, cls_name) {
                                                    Some(ci) => Ok((ci, st2)),
                                                    None => Err(err_at(CheckErrorKind::InvalidAccessTarget, pos.start, pos.end)),
                                                }
                                            },
                                            _ => Err(err_at(CheckErrorKind::InvalidAccessTarget, pos.start, pos.end)),
                                        }
                                    } else {
                                        Err(err_at(CheckErrorKind::InvalidAccessTarget, pos.start, pos.end))
                                    },
                                    Some(Symbol::Class(ci)) => if ci < st1.table.classes.len() {
                                        Ok((ci, st1))
                                    } else {
                                        Err(err_at(CheckErrorKind::InvalidAccessTarget, pos.start, pos.end))
                                    },
                                    _ => Err(err_at(CheckErrorKind::InvalidAccessTarget, pos.start, pos.end)),
                                };
                                match class_and_state {
                                    Ok(cs) => {
                                        let member = member_scope_of(cs.1.table.classes[cs.0 as int]);
                                        let st3 = StV {
                                            scope: ScopeV { selected: Some(Box::new(member)), ..cs.1.scope },
                                            ..cs.1
                                        };
                                        lemma_mirror_imports_node(st3, *rhs);
                                        match check_node_v(st3, *rhs) {
                                            Ok(q) => {
                                                lemma_extend_trans(st.imports, st1.imports, q.2.imports);
                                            },
                                            Err(_) => {},
                                        }
                                    },
                                    Err(_) => {},
                                }
                            }
                        },
                        Err(_) => {},
                    }
                },
                crate::node::Operator::Assignment => {
                    match check_node_v(st, *lhs) {
                        Ok(p) => {
                            lemma_mirror_imports_node(st, *lhs);
                            match check_node_v(p.2, *rhs) {
                                Ok(q) => {
                                    lemma_mirror_imports_node(p.2, *rhs);
                                    lemma_extend_trans(st.imports, p.2.imports, q.2.imports);
                                },
                                Err(_) => {},
                            }
                        },
                        Err(_) => {},
                    }
                },
                _ => {},
            }
        },
        NodeV::VariableDefinition { var_type, name, data_type, value } => {
            match value {
                Some(v) => {
                    lemma_mirror_imports_node(st, *v);
                },
                None => {},
            }
        },
        NodeV::FunctionDefinition { name, return_type, params, body, constructor } => {
            if !symbol_in_chain(st.scope, st.table, name.data) && !(st.scope.scope is Function) {
                match body {
                    Some(b) => {
                        let data_type = match return_type {
                            Some(rt) => TypeV::Custom(rt.data),
                            None => TypeV::Void,
                        };
                        let function_type = crate::symbols::FunctionType::Function;
                        let fidx = st.table.funs.len() as usize;
                        let ft = if constructor {
                            crate::symbols::FunctionType::Constructor
                        } else {
                            crate::symbols::FunctionType::Function
                        };
                        let record = FunSymV { name: name.data, data_type, function_type: ft, params };
                        let st1 = StV {
                            table: TableV { funs: st.table.funs.push(record), ..st.table },
                            scope: ScopeV { functions: st.scope.functions.push(fidx), ..st.scope },
                            ..st
                        };
                        let base = st1.table.vars.len();
                        let fn_scope = ScopeV {
                            scope: ScopeTypeV::Function(name.data, data_type),
                            parent: Some(Box::new(st1.scope)),
                            variables: fresh_indices(base, params.len()),
                            functions: Seq::<usize>::empty(),
                            classes: Seq::<usize>::empty(),
                            selected: None,
                        };
                        let st2 = StV {
                            table: TableV { vars: st1.table.vars + param_records(params), ..st1.table },
                            scope: fn_scope,
                            ..st1
                        };
                        lemma_mirror_imports_body(st2, b, 0);
                    },
                    None => {},
                }
            }
        },
        NodeV::Return(v) => {
            match st.scope.scope {
                ScopeTypeV::Function(fname, dt) => {
                    lemma_mirror_imports_node(st, *v);
                },
                _ => {},
            }
        },
        NodeV::FunctionCall { name, params } => {
            let pos = Positioned { start: node.start, end: node.end, data: () };
            let st1 = clear_scope(st);
            match resolve_fun(st.scope, st.table.funs, name.data) {
                Some(fi) => {
                    lemma_mirror_imports_args(st1, st1.table.funs[fi as int].params, params, 0, pos);
                },
                None => {},
            }
        },
        NodeV::Import(path) => {
            lemma_extend_push(st.imports, (Positioned { start: node.start, end: node.end, data: () }, path));
        },
        NodeV::ClassDefinition { name, body } => {
            if !symbol_in_chain(st.scope, st.table, name.data) {
                let ci = st.table.classes.len() as usize;
                let st1 = StV {
                    table: TableV {
                        classes: st.table.classes.push(
                            ClassSymV {
                                name: name.data,
                                fields: Seq::<usize>::empty(),
                                functions: Seq::<usize>::empty(),
                            },
                        ),
                        ..st.table
                    },
                    scope: ScopeV { classes: st.scope.classes.push(ci), ..st.scope },
                    ..st
                };
                let vi = st1.table.vars.len() as usize;
                let receiver = VarSymV {
                    var_type: VarType::Constant,
                    name: "self"@,
                    data_type: Some(TypeV::Custom(name.data)),
                    initialized: true,
                };
                let class_scope = ScopeV {
                    scope: ScopeTypeV::Class(name.data),
                    parent: Some(Box::new(st1.scope)),
                    variables: seq![vi],
                    functions: Seq::<usize>::empty(),
                    classes: Seq::<usize>::empty(),
                    selected: None,
                };
                let st2 = StV {
                    table: TableV { vars: st1.table.vars.push(receiver), ..st1.table },
                    scope: class_scope,
                    ..st1
                };
                lemma_mirror_imports_class(st2, ci, body, 0);
            }
        },
    }
}

/// A body fold emits no directive at the top level, and only appends to
/// the collected list.
pub proof fn lemma_mirror_imports_body(st: StV, nodes: Seq<Positioned<NodeV>>, i: int)
    ensures
        check_body_v(st, nodes, i) matches Ok(p) ==> no_imports(p.0) && imports_extended(
            st.imports,
            p.1.imports,
        ),
    decreases size_nodes_from(nodes, i), 1nat,
{
    lemma_extend_refl(st.imports);
    if 0 <= i < nodes.len() {
        match check_node_v(st, nodes[i]) {
            Ok(p) => {
                lemma_mirror_imports_node(st, nodes[i]);
                match check_body_v(p.2, nodes, i + 1) {
                    Ok(q) => {
                        lemma_mirror_imports_body(p.2, nodes, i + 1);
                        lemma_extend_trans(st.imports, p.2.imports, q.1.imports);
                        assert forall|k: int| 0 <= k < (p.1 + q.0).len() implies !((p.1 + q.0)[k].data
                            is Import) by {
                            if k < p.1.len() {
                                assert((p.1 + q.0)[k] == p.1[k]);
                            } else {
                                assert((p.1 + q.0)[k] == q.0[k - p.1.len()]);
                            }
                        }
                    },
                    Err(_) => {},
                }
            },
            Err(_) => {},
        }
    }
}

/// An argument fold only appends to the collected list.
pub proof fn lemma_mirror_imports_args(
    st: StV,
    params: Seq<ParamV>,
    args: Seq<ArgV>,
    i: int,
    pos: Positioned<()>,
)
    ensures
        check_args_v(st, params, args, i, pos) matches Ok(p) ==> imports_extended(
            st.imports,
            p.1.imports,
        ),
    decreases size_args_from(args, i), 1nat,
{
    lemma_extend_refl(st.imports);
    if 0 <= i < params.len() && i < args.len() {
        match check_node_v(st, args[i].value) {
            Ok(p) => {
                lemma_mirror_imports_node(st, args[i].value);
                if p.1.len() == 1 {
                    match infer_v(p.2.table, p.0, TypeV::Custom(params[i].data_type.data)) {
                        Ok(q) => {
                            let stn = StV { table: q.1, ..p.2 };
                            lemma_mirror_imports_args(stn, params, args, i + 1, pos);
                            match check_args_v(stn, params, args, i + 1, pos) {
                                Ok(w) => {
                                    lemma_extend_trans(st.imports, stn.imports, w.1.imports);
                                },
                                Err(_) => {},
                            }
                        },
                        Err(_) => {},
                    }
                }
            },
            Err(_) => {},
        }
    }
}

/// A class body fold emits no directive at the top level, and only
/// appends to the collected list.
pub proof fn lemma_mirror_imports_class(st: StV, ci: usize, nodes: Seq<Positioned<NodeV>>, i: int)
    ensures
        check_class_body_v(st, ci, nodes, i) matches Ok(p) ==> no_imports(p.0) && imports_extended(
            st.imports,
            p.1.imports,
        ),
    decreases size_nodes_from(nodes, i), 1nat,
{
    lemma_extend_refl(st.imports);
    if 0 <= i < nodes.len() {
        if nodes[i].data is VariableDefinition || nodes[i].data is FunctionDefinition {
            match check_node_v(st, nodes[i]) {
                Ok(p) => {
                    lemma_mirror_imports_node(st, nodes[i]);
                    let registered_state: Option<StV> = if nodes[i].data is VariableDefinition {
                        if p.2.scope.variables.len() > 0 && ci < p.2.table.classes.len() {
                            Some(register_field(p.2, ci))
                        } else {
                            None
                        }
                    } else {
                        if p.2.scope.functions.len() > 0 && ci < p.2.table.classes.len() {
                            Some(register_method(p.2, ci))
                        } else {
                            None
                        }
                    };
                    match registered_state {
                        Some(st2) => {
                            lemma_mirror_imports_class(st2, ci, nodes, i + 1);
                            match check_class_body_v(st2, ci, nodes, i + 1) {
                                Ok(q) => {
                                    lemma_extend_trans(st.imports, st2.imports, q.1.imports);
                                    assert forall|k: int| 0 <= k < (p.1 + q.0).len() implies !((p.1
                                        + q.0)[k].data is Import) by {
                                        if k < p.1.len() {
                                            assert((p.1 + q.0)[k] == p.1[k]);
                                        } else {
                                            assert((p.1 + q.0)[k] == q.0[k - p.1.len()]);
                                        }
                                    }
                                },
                                Err(_) => {},
                            }
                        },
                        None => {},
                    }
                },
                Err(_) => {},
            }
        }
    }
}


/// The human-readable description of each failure kind.
pub open spec fn error_text(k: CheckErrorKind) -> Seq<char> {
    match k {
        CheckErrorKind::UnresolvedSymbol => "unresolved symbol"@,
        CheckErrorKind::DuplicateDeclaration => "duplicate declaration"@,
        CheckErrorKind::TypeMismatch => "type mismatch"@,
        CheckErrorKind::UninferableType => "the type cannot be inferred"@,
        CheckErrorKind::InvalidAssignmentTarget => "invalid assignment target"@,
        CheckErrorKind::InvalidAccessTarget => "invalid member access target"@,
        CheckErrorKind::InvalidContext => "the construct may not stand here"@,
        CheckErrorKind::ArityMismatch => "wrong number of arguments"@,
        CheckErrorKind::UnsupportedConstruct => "the construct is not supported"@,
    }
}

impl CheckError {
    /// A human-readable message for this failure.
    pub fn message(&self) -> (r: String)
        ensures
            r@ == error_text(self.kind),
    {
        match self.kind {
            CheckErrorKind::UnresolvedSymbol => String::from_str("unresolved symbol"),
            CheckErrorKind::DuplicateDeclaration => String::from_str("duplicate declaration"),
            CheckErrorKind::TypeMismatch => String::from_str("type mismatch"),
            CheckErrorKind::UninferableType => String::from_str("the type cannot be inferred"),
            CheckErrorKind::InvalidAssignmentTarget => String::from_str("invalid assignment target"),
            CheckErrorKind::InvalidAccessTarget => String::from_str("invalid member access target"),
            CheckErrorKind::InvalidContext => String::from_str("the construct may not stand here"),
            CheckErrorKind::ArityMismatch => String::from_str("wrong number of arguments"),
            CheckErrorKind::UnsupportedConstruct => String::from_str("the construct is not supported"),
        }
    }
}

} // verus!
