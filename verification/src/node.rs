//! The syntax tree produced by the parser and rewritten by the checker, and
//! its mathematical view: the same shapes with every string held as a
//! sequence of characters.

use vstd::prelude::*;
use crate::position::Positioned;

verus! {

/// A leaf expression: a numeric literal, a quoted literal, a bare name, or
/// the implicit receiver of a class method.
pub enum ValueNode {
    Decimal(String),
    Text(String),
    VariableCall(String),
    This,
}

/// The closed set of binary operators.
#[derive(Clone, Copy, PartialEq, Eq, Structural, Debug)]
pub enum Operator {
    Plus,
    Minus,
    Multiply,
    Divide,
    MemberAccess,
    Assignment,
}

/// Whether a variable may be reassigned after initialization.
#[derive(Clone, Copy, PartialEq, Eq, Structural, Debug)]
pub enum VarType {
    Constant,
    Variable,
}

/// One declared parameter of a function definition: a name and the name of
/// its type.
pub struct FunctionDefinitionParameter {
    pub name: Positioned<String>,
    pub data_type: Positioned<String>,
}

/// One supplied argument of a function call.
pub struct FunctionCallParameter {
    pub value: Positioned<Node>,
}

/// A syntax-tree node. The kinds are closed; `Import` records a unit that
/// the generated C file must pull in, and is hoisted to the front of the
/// rewritten sequence by the checker.
pub enum Node {
    Value(ValueNode),
    BinaryOperation { lhs: Box<Positioned<Node>>, op: Positioned<Operator>, rhs: Box<Positioned<Node>> },
    VariableDefinition {
        var_type: Positioned<VarType>,
        name: Positioned<String>,
        data_type: Option<Positioned<String>>,
        value: Option<Box<Positioned<Node>>>,
    },
    FunctionDefinition {
        name: Positioned<String>,
        return_type: Option<Positioned<String>>,
        params: Vec<FunctionDefinitionParameter>,
        body: Option<Vec<Positioned<Node>>>,
        constructor: bool,
    },
    Return(Box<Positioned<Node>>),
    FunctionCall { name: Positioned<String>, params: Vec<FunctionCallParameter> },
    Import(Positioned<String>),
    ClassDefinition { name: Positioned<String>, body: Vec<Positioned<Node>> },
}

/// The mathematical value of a `ValueNode`.
pub enum ValueV {
    Decimal(Seq<char>),
    Text(Seq<char>),
    VariableCall(Seq<char>),
    This,
}

/// The mathematical value of a declared parameter.
pub struct ParamV {
    pub name: Positioned<Seq<char>>,
    pub data_type: Positioned<Seq<char>>,
}

/// The mathematical value of a supplied argument.
pub struct ArgV {
    pub value: Positioned<NodeV>,
}

/// The mathematical value of a `Node`.
pub enum NodeV {
    Value(ValueV),
    BinaryOperation { lhs: Box<Positioned<NodeV>>, op: Positioned<Operator>, rhs: Box<Positioned<NodeV>> },
    VariableDefinition {
        var_type: Positioned<VarType>,
        name: Positioned<Seq<char>>,
        data_type: Option<Positioned<Seq<char>>>,
        value: Option<Box<Positioned<NodeV>>>,
    },
    FunctionDefinition {
        name: Positioned<Seq<char>>,
        return_type: Option<Positioned<Seq<char>>>,
        params: Seq<ParamV>,
        body: Option<Seq<Positioned<NodeV>>>,
        constructor: bool,
    },
    Return(Box<Positioned<NodeV>>),
    FunctionCall { name: Positioned<Seq<char>>, params: Seq<ArgV> },
    Import(Positioned<Seq<char>>),
    ClassDefinition { name: Positioned<Seq<char>>, body: Seq<Positioned<NodeV>> },
}

/// The mathematical value of a positioned string.
pub open spec fn pstring_dv(p: Positioned<String>) -> Positioned<Seq<char>> {
    Positioned { start: p.start, end: p.end, data: p.data@ }
}

/// The mathematical value of an optional positioned string.
pub open spec fn opt_pstring_dv(o: Option<Positioned<String>>) -> Option<Positioned<Seq<char>>> {
    match o {
        Some(p) => Some(pstring_dv(p)),
        None => None,
    }
}

/// The mathematical value of a leaf expression.
pub open spec fn value_dv(v: ValueNode) -> ValueV {
    match v {
        ValueNode::Decimal(s) => ValueV::Decimal(s@),
        ValueNode::Text(s) => ValueV::Text(s@),
        ValueNode::VariableCall(s) => ValueV::VariableCall(s@),
        ValueNode::This => ValueV::This,
    }
}

/// The mathematical value of a declared parameter.
pub open spec fn param_dv(p: FunctionDefinitionParameter) -> ParamV {
    ParamV { name: pstring_dv(p.name), data_type: pstring_dv(p.data_type) }
}

/// The mathematical value of a parameter list.
pub open spec fn params_dv(s: Seq<FunctionDefinitionParameter>) -> Seq<ParamV> {
    s.map_values(|p: FunctionDefinitionParameter| param_dv(p))
}


/// The mathematical value of an optional initializer.
pub open spec fn opt_pnode_dv(o: Option<Box<Positioned<Node>>>) -> Option<Box<Positioned<NodeV>>>
    decreases o,
{
    match o {
        Some(v) => Some(Box::new(pnode_dv(*v))),
        None => None,
    }
}

/// The mathematical value of an optional body.
pub open spec fn opt_body_dv(o: Option<Vec<Positioned<Node>>>) -> Option<Seq<Positioned<NodeV>>>
    decreases o,
{
    match o {
        Some(b) => Some(nodes_dv(b@)),
        None => None,
    }
}

/// The mathematical value of a syntax-tree node.
pub open spec fn node_dv(n: Node) -> NodeV
    decreases n,
{
    match n {
        Node::Value(v) => NodeV::Value(value_dv(v)),
        Node::BinaryOperation { lhs, op, rhs } => NodeV::BinaryOperation {
            lhs: Box::new(pnode_dv(*lhs)),
            op,
            rhs: Box::new(pnode_dv(*rhs)),
        },
        Node::VariableDefinition { var_type, name, data_type, value } => NodeV::VariableDefinition {
            var_type,
            name: pstring_dv(name),
            data_type: opt_pstring_dv(data_type),
            value: opt_pnode_dv(value),
        },
        Node::FunctionDefinition { name, return_type, params, body, constructor } => NodeV::FunctionDefinition {
            name: pstring_dv(name),
            return_type: opt_pstring_dv(return_type),
            params: params_dv(params@),
            body: opt_body_dv(body),
            constructor,
        },
        Node::Return(v) => NodeV::Return(Box::new(pnode_dv(*v))),
        Node::FunctionCall { name, params } => NodeV::FunctionCall {
            name: pstring_dv(name),
            params: args_dv(params@),
        },
        Node::Import(path) => NodeV::Import(pstring_dv(path)),
        Node::ClassDefinition { name, body } => NodeV::ClassDefinition {
            name: pstring_dv(name),
            body: nodes_dv(body@),
        },
    }
}

/// The mathematical value of a positioned node.
pub open spec fn pnode_dv(p: Positioned<Node>) -> Positioned<NodeV>
    decreases p,
{
    Positioned { start: p.start, end: p.end, data: node_dv(p.data) }
}

/// The mathematical value of a node sequence, element for element.
pub open spec fn nodes_dv(s: Seq<Positioned<Node>>) -> Seq<Positioned<NodeV>>
    decreases s,
{
    if s.len() == 0 {
        Seq::empty()
    } else {
        seq![pnode_dv(s[0])] + nodes_dv(s.drop_first())
    }
}

/// The mathematical value of an argument list, element for element.
pub open spec fn args_dv(s: Seq<FunctionCallParameter>) -> Seq<ArgV>
    decreases s,
{
    if s.len() == 0 {
        Seq::empty()
    } else {
        seq![ArgV { value: pnode_dv(s[0].value) }] + args_dv(s.drop_first())
    }
}

/// A node sequence's view has the same length, and views its elements one
/// for one.
pub proof fn lemma_nodes_dv(s: Seq<Positioned<Node>>)
    ensures
        nodes_dv(s).len() == s.len(),
        forall|i: int| 0 <= i < s.len() ==> nodes_dv(s)[i] == pnode_dv(s[i]),
    decreases s,
{
    if s.len() > 0 {
        lemma_nodes_dv(s.drop_first());
    }
}

/// An argument list's view has the same length, and views its elements one
/// for one.
pub proof fn lemma_args_dv(s: Seq<FunctionCallParameter>)
    ensures
        args_dv(s).len() == s.len(),
        forall|i: int| 0 <= i < s.len() ==> args_dv(s)[i] == (ArgV { value: pnode_dv(s[i].value) }),
    decreases s,
{
    if s.len() > 0 {
        lemma_args_dv(s.drop_first());
    }
}

/// Appending one node to a sequence appends its view to the sequence's view.
pub proof fn lemma_nodes_dv_push(s: Seq<Positioned<Node>>, n: Positioned<Node>)
    ensures
        nodes_dv(s.push(n)) == nodes_dv(s) + seq![pnode_dv(n)],
    decreases s,
{
    if s.len() == 0 {
        assert(s.push(n)[0] == n);
        assert(s.push(n).drop_first() =~= Seq::<Positioned<Node>>::empty());
        assert(nodes_dv(s.push(n).drop_first()) =~= Seq::<Positioned<NodeV>>::empty());
        assert(nodes_dv(s.push(n)) =~= seq![pnode_dv(n)]);
        assert(nodes_dv(s) + seq![pnode_dv(n)] =~= seq![pnode_dv(n)]);
    } else {
        assert(s.push(n).drop_first() =~= s.drop_first().push(n));
        lemma_nodes_dv_push(s.drop_first(), n);
        assert(nodes_dv(s.push(n)) =~= nodes_dv(s) + seq![pnode_dv(n)]);
    }
}

// ---------------------------------------------------------------------
// Sizes, used as termination measures for the mirror and the checker.
// ---------------------------------------------------------------------

/// The size of a positioned node.
pub open spec fn size_pnode(p: Positioned<NodeV>) -> nat
    decreases p, 0nat,
{
    1 + size_node(p.data)
}

/// The size of a node: one more than the sizes of its children together.
pub open spec fn size_node(n: NodeV) -> nat
    decreases n, 0nat,
{
    match n {
        NodeV::Value(_) => 1,
        NodeV::BinaryOperation { lhs, op, rhs } => 2 + size_pnode(*lhs) + size_pnode(*rhs),
        NodeV::VariableDefinition { var_type, name, data_type, value } => 1 + (match value {
            Some(v) => size_pnode(*v),
            None => 0,
        }),
        NodeV::FunctionDefinition { name, return_type, params, body, constructor } => 1 + (match body {
            Some(b) => size_nodes_from(b, 0),
            None => 0,
        }),
        NodeV::Return(v) => 1 + size_pnode(*v),
        NodeV::FunctionCall { name, params } => 1 + size_args_from(params, 0),
        NodeV::Import(_) => 1,
        NodeV::ClassDefinition { name, body } => 1 + size_nodes_from(body, 0),
    }
}

/// The summed size of the nodes of `s` from position `i` on.
pub open spec fn size_nodes_from(s: Seq<Positioned<NodeV>>, i: int) -> nat
    decreases s, s.len() - i,
{
    if i < 0 || i >= s.len() {
        0
    } else {
        1 + size_pnode(s[i]) + size_nodes_from(s, i + 1)
    }
}

/// The summed size of the argument expressions of `s` from position `i` on.
pub open spec fn size_args_from(s: Seq<ArgV>, i: int) -> nat
    decreases s, s.len() - i,
{
    if i < 0 || i >= s.len() {
        0
    } else {
        1 + size_pnode(s[i].value) + size_args_from(s, i + 1)
    }
}


/// Any node of a sequence weighs less than the whole tail that holds it.
pub proof fn lemma_size_nodes_from_ge(s: Seq<Positioned<NodeV>>, i: int, j: int)
    requires
        0 <= i <= j < s.len(),
    ensures
        size_nodes_from(s, i) >= 1 + size_pnode(s[j]),
    decreases j - i,
{
    if i < j {
        lemma_size_nodes_from_ge(s, i + 1, j);
    }
}

/// Any argument of a sequence weighs less than the whole tail that holds
/// it.
pub proof fn lemma_size_args_from_ge(s: Seq<ArgV>, i: int, j: int)
    requires
        0 <= i <= j < s.len(),
    ensures
        size_args_from(s, i) >= 1 + size_pnode(s[j].value),
    decreases j - i,
{
    if i < j {
        lemma_size_args_from_ge(s, i + 1, j);
    }
}

/// Two node sequences whose elements view equal have equal views.
pub proof fn lemma_nodes_dv_pointwise(a: Seq<Positioned<Node>>, b: Seq<Positioned<Node>>)
    requires
        a.len() == b.len(),
        forall|i: int| 0 <= i < a.len() ==> pnode_dv(a[i]) == pnode_dv(b[i]),
    ensures
        nodes_dv(a) == nodes_dv(b),
{
    lemma_nodes_dv(a);
    lemma_nodes_dv(b);
    assert(nodes_dv(a) =~= nodes_dv(b));
}

/// An exact copy of a positioned string.
pub fn clone_pstring(p: &Positioned<String>) -> (r: Positioned<String>)
    ensures
        pstring_dv(r) == pstring_dv(*p),
{
    Positioned { start: p.start, end: p.end, data: p.data.clone() }
}

/// An exact copy of an optional positioned string.
pub fn clone_opt_pstring(o: &Option<Positioned<String>>) -> (r: Option<Positioned<String>>)
    ensures
        opt_pstring_dv(r) == opt_pstring_dv(*o),
{
    match o {
        Some(p) => Some(clone_pstring(p)),
        None => None,
    }
}

/// An exact copy of a leaf expression.
pub fn clone_value(v: &ValueNode) -> (r: ValueNode)
    ensures
        value_dv(r) == value_dv(*v),
{
    match v {
        ValueNode::Decimal(s) => ValueNode::Decimal(s.clone()),
        ValueNode::Text(s) => ValueNode::Text(s.clone()),
        ValueNode::VariableCall(s) => ValueNode::VariableCall(s.clone()),
        ValueNode::This => ValueNode::This,
    }
}

/// An exact copy of a declared parameter.
pub fn clone_param(p: &FunctionDefinitionParameter) -> (r: FunctionDefinitionParameter)
    ensures
        param_dv(r) == param_dv(*p),
{
    FunctionDefinitionParameter { name: clone_pstring(&p.name), data_type: clone_pstring(&p.data_type) }
}

/// An exact copy of a parameter list.
pub fn clone_params(ps: &Vec<FunctionDefinitionParameter>) -> (r: Vec<FunctionDefinitionParameter>)
    ensures
        params_dv(r@) == params_dv(ps@),
{
    let n = ps.len();
    let mut out: Vec<FunctionDefinitionParameter> = Vec::new();
    let mut i: usize = 0;
    while i < n
        invariant
            n == ps.len(),
            i <= n,
            out@.len() == i,
            forall|j: int| 0 <= j < i ==> param_dv(out@[j]) == param_dv(ps@[j]),
        decreases n - i,
    {
        out.push(clone_param(&ps[i]));
        i = i + 1;
    }
    proof {
        assert(params_dv(out@) =~= params_dv(ps@));
    }
    out
}

/// An exact copy of a whole positioned subtree.
pub fn clone_pnode(p: &Positioned<Node>) -> (r: Positioned<Node>)
    ensures
        pnode_dv(r) == pnode_dv(*p),
    decreases size_pnode(pnode_dv(*p)),
{
    Positioned { start: p.start, end: p.end, data: clone_node(&p.data) }
}

/// An exact copy of a whole subtree.
pub fn clone_node(n: &Node) -> (r: Node)
    ensures
        node_dv(r) == node_dv(*n),
    decreases size_node(node_dv(*n)),
{
    match n {
        Node::Value(v) => Node::Value(clone_value(v)),
        Node::BinaryOperation { lhs, op, rhs } => Node::BinaryOperation {
            lhs: Box::new(clone_pnode(lhs)),
            op: *op,
            rhs: Box::new(clone_pnode(rhs)),
        },
        Node::VariableDefinition { var_type, name, data_type, value } => Node::VariableDefinition {
            var_type: *var_type,
            name: clone_pstring(name),
            data_type: clone_opt_pstring(data_type),
            value: match value {
                Some(v) => Some(Box::new(clone_pnode(v))),
                None => None,
            },
        },
        Node::FunctionDefinition { name, return_type, params, body, constructor } => Node::FunctionDefinition {
            name: clone_pstring(name),
            return_type: clone_opt_pstring(return_type),
            params: clone_params(params),
            body: match body {
                Some(b) => Some(clone_nodes(b)),
                None => None,
            },
            constructor: *constructor,
        },
        Node::Return(v) => Node::Return(Box::new(clone_pnode(v))),
        Node::FunctionCall { name, params } => Node::FunctionCall {
            name: clone_pstring(name),
            params: clone_args(params),
        },
        Node::Import(path) => Node::Import(clone_pstring(path)),
        Node::ClassDefinition { name, body } => Node::ClassDefinition {
            name: clone_pstring(name),
            body: clone_nodes(body),
        },
    }
}

/// An exact copy of a node sequence.
pub fn clone_nodes(ns: &Vec<Positioned<Node>>) -> (r: Vec<Positioned<Node>>)
    ensures
        nodes_dv(r@) == nodes_dv(ns@),
    decreases size_nodes_from(nodes_dv(ns@), 0),
{
    let n = ns.len();
    let mut out: Vec<Positioned<Node>> = Vec::new();
    let mut i: usize = 0;
    proof {
        lemma_nodes_dv(ns@);
    }
    while i < n
        invariant
            n == ns.len(),
            i <= n,
            out@.len() == i,
            forall|j: int| 0 <= j < i ==> pnode_dv(out@[j]) == pnode_dv(ns@[j]),
            forall|j: int| 0 <= j < n ==> nodes_dv(ns@)[j] == pnode_dv(ns@[j]),
            nodes_dv(ns@).len() == n,
        decreases n - i,
    {
        proof {
            lemma_size_nodes_from_ge(nodes_dv(ns@), 0, i as int);
        }
        out.push(clone_pnode(&ns[i]));
        i = i + 1;
    }
    proof {
        lemma_nodes_dv_pointwise(out@, ns@);
    }
    out
}

/// An exact copy of an argument list.
pub fn clone_args(args: &Vec<FunctionCallParameter>) -> (r: Vec<FunctionCallParameter>)
    ensures
        args_dv(r@) == args_dv(args@),
    decreases size_args_from(args_dv(args@), 0),
{
    let n = args.len();
    let mut out: Vec<FunctionCallParameter> = Vec::new();
    let mut i: usize = 0;
    proof {
        lemma_args_dv(args@);
    }
    while i < n
        invariant
            n == args.len(),
            i <= n,
            out@.len() == i,
            forall|j: int| 0 <= j < i ==> pnode_dv(out@[j].value) == pnode_dv(args@[j].value),
            forall|j: int| 0 <= j < n ==> args_dv(args@)[j] == (ArgV { value: pnode_dv(args@[j].value) }),
            args_dv(args@).len() == n,
        decreases n - i,
    {
        proof {
            lemma_args_dv_ge_helper(args@, i as int);
        }
        out.push(FunctionCallParameter { value: clone_pnode(&args[i].value) });
        i = i + 1;
    }
    proof {
        lemma_args_dv(out@);
        lemma_args_dv(args@);
        assert(args_dv(out@) =~= args_dv(args@));
    }
    out
}

/// The view of an argument's expression weighs less than the whole list.
pub proof fn lemma_args_dv_ge_helper(args: Seq<FunctionCallParameter>, i: int)
    requires
        0 <= i < args.len(),
    ensures
        size_args_from(args_dv(args), 0) >= 1 + size_pnode(pnode_dv(args[i].value)),
{
    lemma_args_dv(args);
    lemma_size_args_from_ge(args_dv(args), 0, i);
}


/// The view of a concatenation is the concatenation of the views.
pub proof fn lemma_nodes_dv_concat(a: Seq<Positioned<Node>>, b: Seq<Positioned<Node>>)
    ensures
        nodes_dv(a + b) == nodes_dv(a) + nodes_dv(b),
{
    lemma_nodes_dv(a);
    lemma_nodes_dv(b);
    lemma_nodes_dv(a + b);
    assert(nodes_dv(a + b) =~= nodes_dv(a) + nodes_dv(b));
}


/// Appending one argument to a list appends its view to the list's view.
pub proof fn lemma_args_dv_push(s: Seq<FunctionCallParameter>, a: FunctionCallParameter)
    ensures
        args_dv(s.push(a)) == args_dv(s) + seq![ArgV { value: pnode_dv(a.value) }],
{
    lemma_args_dv(s);
    lemma_args_dv(s.push(a));
    assert(args_dv(s.push(a)) =~= args_dv(s) + seq![ArgV { value: pnode_dv(a.value) }]);
}

} // verus!
