//! The translator: consumes the checker's annotated, rewritten tree and
//! emits C source/header text, one file per class plus one for the unit.
//! Every emitting function returns exactly the text that the mirror
//! functions below define.

use vstd::prelude::*;
use vstd::string::StringExecFns;
use crate::file::SourceFile;
use crate::node::{
    ArgV, FunctionCallParameter, FunctionDefinitionParameter, Node, NodeV, Operator, ParamV,
    ValueNode, ValueV, VarType, args_dv, lemma_args_dv, lemma_nodes_dv, node_dv, nodes_dv,
    opt_pstring_dv, param_dv, params_dv, pnode_dv, pstring_dv, size_args_from, size_node, size_nodes_from,
    size_pnode,
};
use crate::position::Positioned;
use crate::text::{chars_vec, push_char, str_eq};

verus! {

/// A translating failure: a node that cannot stand where it was found, or
/// a construct the translator does not support yet.
pub enum TranslatorError {
    UnexpectedNode(Positioned<Node>, Option<String>),
}

impl TranslatorError {
    /// A human-readable message for this failure.
    pub fn message(&self, src: &SourceFile) -> (r: String)
    {
        match self {
            TranslatorError::UnexpectedNode(node, should_be) => {
                let mut out = String::from_str("[Translator]: Unexpected node at ");
                out.append(crate::text::usize_text(node.start.line).as_str());
                push_char(&mut out, ':');
                out.append(crate::text::usize_text(node.start.column).as_str());
                out.append(" in '");
                out.append(src.name.as_str());
                push_char(&mut out, '\'');
                match should_be {
                    Some(s) => {
                        out.append(", should be '");
                        out.append(s.as_str());
                        push_char(&mut out, '\'');
                    },
                    None => {},
                }
                out
            },
        }
    }
}

/// One generated C file: its name and the text of its header and source.
pub struct CFile {
    pub name: String,
    pub header: String,
    pub src: String,
}

impl CFile {
    /// An empty file under `name`.
    pub fn new(name: String) -> (r: CFile)
        ensures
            r.name@ == name@,
            r.header@ == Seq::<char>::empty(),
            r.src@ == Seq::<char>::empty(),
    {
        CFile { name, header: String::new(), src: String::new() }
    }
}

/// The generated project: every file it will write.
pub struct CProject {
    pub files: Vec<CFile>,
}

/// The mathematical value of a generated file.
pub struct CFileV {
    pub name: Seq<char>,
    pub header: Seq<char>,
    pub src: Seq<char>,
}

impl CFile {
    /// The mathematical value of this file.
    pub open spec fn dv(self) -> CFileV {
        CFileV { name: self.name@, header: self.header@, src: self.src@ }
    }
}

/// The mathematical value of the project.
pub open spec fn files_dv(s: Seq<CFile>) -> Seq<CFileV> {
    s.map_values(|f: CFile| f.dv())
}

/// The C spelling of a type annotation: the primitive aliases map to their
/// C names, any other name stands for itself, and a missing annotation is
/// `void`.
pub open spec fn c_type_text(o: Option<Seq<char>>) -> Seq<char> {
    match o {
        None => "void"@,
        Some(s) => {
            if s == "c_byte"@ {
                "byte"@
            } else if s == "c_short"@ {
                "short"@
            } else if s == "c_int"@ {
                "int"@
            } else if s == "c_long"@ {
                "long"@
            } else if s == "c_float"@ {
                "float"@
            } else if s == "c_double"@ {
                "double"@
            } else {
                s
            }
        },
    }
}

/// The C text of a leaf expression.
pub open spec fn c_value_text(v: ValueV) -> Seq<char> {
    match v {
        ValueV::Decimal(x) => x,
        ValueV::Text(x) => seq!['"'] + x + seq!['"'],
        ValueV::VariableCall(x) => x,
        ValueV::This => "self"@,
    }
}

/// The C text of a binary operator, spaces included.
pub open spec fn c_op_text(op: Operator) -> Seq<char> {
    match op {
        Operator::Plus => " + "@,
        Operator::Minus => " - "@,
        Operator::Multiply => " * "@,
        Operator::Divide => " / "@,
        Operator::MemberAccess => "->"@,
        Operator::Assignment => " = "@,
    }
}

/// The C text of an expression or simple statement, or nothing where the
/// node may not stand at expression level.
pub open spec fn c_node_text(n: NodeV) -> Option<Seq<char>>
    decreases size_node(n), 0nat,
{
    match n {
        NodeV::Value(v) => Some(c_value_text(v)),
        NodeV::BinaryOperation { lhs, op, rhs } => {
            match (c_node_text(lhs.data), c_node_text(rhs.data)) {
                (Some(l), Some(r)) => Some(seq!['('] + l + c_op_text(op.data) + r + seq![')']),
                _ => None,
            }
        },
        NodeV::VariableDefinition { var_type, name, data_type, value } => {
            match data_type {
                None => None,
                Some(dt) => {
                    let head = c_type_text(Some(dt.data)) + seq![' '] + name.data;
                    match value {
                        None => Some(head),
                        Some(v) => match c_node_text(v.data) {
                            Some(vt) => Some(head + " = "@ + vt),
                            None => None,
                        },
                    }
                },
            }
        },
        NodeV::Return(v) => match c_node_text(v.data) {
            Some(vt) => Some("return "@ + vt),
            None => None,
        },
        NodeV::FunctionCall { name, params } => match c_args_text(params, 0) {
            Some(ats) => Some(name.data + seq!['('] + ats + seq![')']),
            None => None,
        },
        _ => None,
    }
}

/// The comma-separated C text of call arguments from position `i` on.
pub open spec fn c_args_text(args: Seq<ArgV>, i: int) -> Option<Seq<char>>
    decreases size_args_from(args, i), 1nat,
    via c_args_text_decreases
{
    if i < 0 || i >= args.len() {
        Some(Seq::<char>::empty())
    } else {
        match c_node_text(args[i].value.data) {
            None => None,
            Some(a) => match c_args_text(args, i + 1) {
                None => None,
                Some(rest) => Some(
                    (if i == 0 {
                        a
                    } else {
                        ", "@ + a
                    }) + rest,
                ),
            },
        }
    }
}

/// Termination of the argument-text walk: each argument's expression is
/// smaller than the tail that holds it.
#[via_fn]
proof fn c_args_text_decreases(args: Seq<ArgV>, i: int) {
    if 0 <= i < args.len() {
        crate::node::lemma_size_args_from_ge(args, i, i);
    }
}

/// `s` split into lines, each re-emitted indented with a tab and closed
/// with a semicolon and a line break. `started` says whether the current
/// line has already begun.
pub open spec fn indented(s: Seq<char>, i: int, started: bool) -> Seq<char>
    decreases s.len() - i,
{
    if i < 0 || i >= s.len() {
        if started {
            ";\n"@
        } else {
            Seq::<char>::empty()
        }
    } else if s[i] == '\n' {
        (if started {
            ";\n"@
        } else {
            "\t;\n"@
        }) + indented(s, i + 1, false)
    } else {
        (if started {
            Seq::<char>::empty()
        } else {
            seq!['\t']
        }) + seq![s[i]] + indented(s, i + 1, true)
    }
}

/// Append `s` re-indented as statement lines onto `out`.
#[verifier::loop_isolation(false)]
fn push_indented(out: &mut String, s: &str)
    ensures
        final(out)@ == old(out)@ + indented(s@, 0, false),
{
    let cs = chars_vec(s);
    let n = cs.len();
    let mut i: usize = 0;
    let mut started = false;
    proof {
        assert(old(out)@ + Seq::<char>::empty() =~= old(out)@);
    }
    while i < n
        invariant
            n == cs@.len(),
            cs@ == s@,
            i <= n,
            indented(s@, 0, false) == out@.skip(old(out)@.len() as int) + indented(s@, i as int, started),
            out@.len() >= old(out)@.len(),
            out@.subrange(0, old(out)@.len() as int) == old(out)@,
        decreases n - i,
    {
        let c = cs[i];
        if c == '\n' {
            if started {
                out.append(";\n");
            } else {
                out.append("\t;\n");
            }
            started = false;
        } else {
            if !started {
                push_char(out, '\t');
            }
            push_char(out, c);
            started = true;
        }
        i = i + 1;
        proof {
            assert(out@.subrange(0, old(out)@.len() as int) =~= old(out)@);
            assert(indented(s@, 0, false) =~= out@.skip(old(out)@.len() as int) + indented(
                s@,
                i as int,
                started,
            ));
        }
    }
    if started {
        out.append(";\n");
    }
    proof {
        assert(out@.subrange(0, old(out)@.len() as int) =~= old(out)@);
        assert(final(out)@ =~= old(out)@ + indented(s@, 0, false));
    }
}

/// The translator's working state: the source handle, the checked tree,
/// and the cursor over its top-level nodes.
pub struct Translator {
    pub src: SourceFile,
    pub ast: Vec<Positioned<Node>>,
    pub index: usize,
}

impl Translator {
    /// A fresh translator over the checked tree.
    pub fn new(src: SourceFile, ast: Vec<Positioned<Node>>) -> (r: Translator)
        ensures
            r.src == src,
            r.ast == ast,
            r.index == 0,
    {
        Translator { src, ast, index: 0 }
    }

    /// Hand the source handle back once translating is over.
    pub fn take(self) -> (r: SourceFile)
        ensures
            r == self.src,
    {
        self.src
    }

    /// The C spelling of a type annotation.
    pub fn translate_type(&self, data_type: &Option<Positioned<String>>) -> (r: String)
        ensures
            r@ == c_type_text(match *data_type {
                Some(p) => Some(p.data@),
                None => None,
            }),
    {
        match data_type {
            Some(dt) => {
                if str_eq(dt.data.as_str(), "c_byte") {
                    String::from_str("byte")
                } else if str_eq(dt.data.as_str(), "c_short") {
                    String::from_str("short")
                } else if str_eq(dt.data.as_str(), "c_int") {
                    String::from_str("int")
                } else if str_eq(dt.data.as_str(), "c_long") {
                    String::from_str("long")
                } else if str_eq(dt.data.as_str(), "c_float") {
                    String::from_str("float")
                } else if str_eq(dt.data.as_str(), "c_double") {
                    String::from_str("double")
                } else {
                    dt.data.clone()
                }
            },
            None => String::from_str("void"),
        }
    }

    /// The C text of a leaf expression.
    pub fn translate_value_node(&self, value: &ValueNode) -> (r: String)
        ensures
            r@ == c_value_text(crate::node::value_dv(*value)),
    {
        match value {
            ValueNode::Decimal(x) => x.clone(),
            ValueNode::Text(x) => {
                let mut out = String::new();
                push_char(&mut out, '"');
                out.append(x.as_str());
                push_char(&mut out, '"');
                proof {
                    assert(out@ =~= seq!['"'] + x@ + seq!['"']);
                }
                out
            },
            ValueNode::VariableCall(x) => x.clone(),
            ValueNode::This => String::from_str("self"),
        }
    }

    /// The C text of an expression or simple statement; a node of any
    /// other kind may not stand here.
    pub fn translate_node(&self, node: &Positioned<Node>) -> (r: Result<String, TranslatorError>)
        ensures
            match r {
                Ok(s) => c_node_text(node_dv(node.data)) == Some(s@),
                Err(_) => c_node_text(node_dv(node.data)) is None,
            },
        decreases size_node(node_dv(node.data)), 0nat,
    {
        match &node.data {
            Node::Value(v) => Ok(self.translate_value_node(v)),
            Node::BinaryOperation { lhs, op, rhs } => {
                proof {
                    assert(size_node(node_dv(node.data)) >= 2 + size_pnode(pnode_dv(**lhs))
                        + size_pnode(pnode_dv(**rhs)));
                }
                let l = match self.translate_node(lhs) {
                    Ok(l) => l,
                    Err(e) => {
                        return Err(e);
                    },
                };
                let r2 = match self.translate_node(rhs) {
                    Ok(x) => x,
                    Err(e) => {
                        return Err(e);
                    },
                };
                let mut out = String::new();
                push_char(&mut out, '(');
                out.append(l.as_str());
                match op.data {
                    Operator::Plus => out.append(" + "),
                    Operator::Minus => out.append(" - "),
                    Operator::Multiply => out.append(" * "),
                    Operator::Divide => out.append(" / "),
                    Operator::MemberAccess => out.append("->"),
                    Operator::Assignment => out.append(" = "),
                }
                out.append(r2.as_str());
                push_char(&mut out, ')');
                proof {
                    assert(out@ =~= seq!['('] + l@ + c_op_text(op.data) + r2@ + seq![')']);
                }
                Ok(out)
            },
            Node::VariableDefinition { var_type, name, data_type, value } => {
                if data_type.is_none() {
                    return Err(
                        TranslatorError::UnexpectedNode(
                            crate::node::clone_pnode(node),
                            Some(String::from_str("a resolved type")),
                        ),
                    );
                }
                let mut out = self.translate_type(data_type);
                push_char(&mut out, ' ');
                out.append(name.data.as_str());
                match value {
                    Some(v) => {
                        proof {
                            assert(crate::node::opt_pnode_dv(*value) == Some(
                                Box::new(pnode_dv(**v)),
                            ));
                            assert(size_node(node_dv(node.data)) >= 1 + size_pnode(pnode_dv(**v)));
                        }
                        let vt = match self.translate_node(v) {
                            Ok(t) => t,
                            Err(e) => {
                                return Err(e);
                            },
                        };
                        out.append(" = ");
                        out.append(vt.as_str());
                    },
                    None => {},
                }
                Ok(out)
            },
            Node::Return(v) => {
                proof {
                    assert(size_node(node_dv(node.data)) >= 1 + size_pnode(pnode_dv(**v)));
                }
                let vt = match self.translate_node(v) {
                    Ok(t) => t,
                    Err(e) => {
                        return Err(e);
                    },
                };
                let mut out = String::from_str("return ");
                out.append(vt.as_str());
                Ok(out)
            },
            Node::FunctionCall { name, params } => {
                let mut args_text = String::new();
                let ghost adv = args_dv(params@);
                proof {
                    lemma_args_dv(params@);
                }
                let n = params.len();
                let mut i: usize = 0;
                proof {
                    let m0 = c_args_text(adv, 0);
                    match m0 {
                        Some(rest) => {
                            assert(args_text@ + rest =~= rest);
                        },
                        None => {},
                    }
                }
                #[verifier::loop_isolation(false)]
                while i < n
                    invariant
                        n == params@.len(),
                        i <= n,
                        adv == args_dv(params@),
                        adv.len() == n,
                        forall|j: int| 0 <= j < n ==> adv[j] == (ArgV {
                            value: pnode_dv(params@[j].value),
                        }),
                        c_args_text(adv, 0) == (match c_args_text(adv, i as int) {
                            Some(rest) => Some(args_text@ + rest),
                            None => None::<Seq<char>>,
                        }),
                    decreases n - i,
                {
                    proof {
                        crate::node::lemma_args_dv_ge_helper(params@, i as int);
                        assert(size_node(node_dv(node.data)) == 1 + size_args_from(
                            args_dv(params@),
                            0,
                        ));
                    }
                    let at = match self.translate_node(&params[i].value) {
                        Ok(t) => t,
                        Err(e) => {
                            return Err(e);
                        },
                    };
                    let ghost acc_pre = args_text@;
                    if i != 0 {
                        args_text.append(", ");
                    }
                    args_text.append(at.as_str());
                    i = i + 1;
                    proof {
                        let mnext = c_args_text(adv, i as int);
                        match mnext {
                            Some(rest) => {
                                assert(args_text@ + rest =~= acc_pre + ((if i == 1 {
                                    at@
                                } else {
                                    ", "@ + at@
                                }) + rest));
                            },
                            None => {},
                        }
                        assert(args_text@ + Seq::<char>::empty() =~= args_text@);
                    }
                }
                let mut out = name.data.clone();
                push_char(&mut out, '(');
                out.append(args_text.as_str());
                push_char(&mut out, ')');
                proof {
                    assert(args_text@ + Seq::<char>::empty() =~= args_text@);
                    assert(out@ =~= name.data@ + seq!['('] + args_text@ + seq![')']);
                }
                Ok(out)
            },
            _ => Err(TranslatorError::UnexpectedNode(crate::node::clone_pnode(node), None)),
        }
    }
}


/// The C preprocessor directive that pulls a file in, spelled out
/// character by character.
pub open spec fn c_inclusion() -> Seq<char> {
    seq!['#', 'i', 'n', 'c', 'l', 'u', 'd', 'e']
}

/// Append the C preprocessor directive that pulls a file in.
fn push_inclusion(out: &mut String)
    ensures
        final(out)@ == old(out)@ + c_inclusion(),
{
    push_char(out, '#');
    push_char(out, 'i');
    push_char(out, 'n');
    push_char(out, 'c');
    push_char(out, 'l');
    push_char(out, 'u');
    push_char(out, 'd');
    push_char(out, 'e');
    proof {
        assert(final(out)@ =~= old(out)@ + c_inclusion());
    }
}

/// The comma-separated C text of declared parameters from position `i` on.
pub open spec fn c_param_list(params: Seq<ParamV>, i: int) -> Seq<char>
    decreases params.len() - i,
{
    if i < 0 || i >= params.len() {
        Seq::<char>::empty()
    } else {
        (if i == 0 {
            Seq::<char>::empty()
        } else {
            ", "@
        }) + c_type_text(Some(params[i].data_type.data)) + seq![' '] + params[i].name.data
            + c_param_list(params, i + 1)
    }
}

/// The C text of a body's statements from position `i` on, each indented,
/// appended onto `acc`.
pub open spec fn c_body_acc(body: Seq<Positioned<NodeV>>, i: int, acc: Seq<char>) -> Option<Seq<char>>
    decreases size_nodes_from(body, i), 1nat,
    via c_body_acc_decreases
{
    if i < 0 || i >= body.len() {
        Some(acc)
    } else {
        match c_node_text(body[i].data) {
            None => None,
            Some(t) => c_body_acc(body, i + 1, acc + indented(t, 0, false)),
        }
    }
}

/// Termination of the body-text walk.
#[via_fn]
proof fn c_body_acc_decreases(body: Seq<Positioned<NodeV>>, i: int, acc: Seq<char>) {
    if 0 <= i < body.len() {
        crate::node::lemma_size_nodes_from_ge(body, i, i);
    }
}

/// The C header line of a function: return type, name, parameters.
pub open spec fn c_fun_header(rt: Option<Seq<char>>, name: Seq<char>, params: Seq<ParamV>) -> Seq<char> {
    c_type_text(rt) + seq![' '] + name + seq!['('] + c_param_list(params, 0) + seq![')']
}

/// The view of an optional annotation.
pub open spec fn opt_ann(o: Option<Positioned<Seq<char>>>) -> Option<Seq<char>> {
    match o {
        Some(p) => Some(p.data),
        None => None,
    }
}

/// One generated file for a top-level function: its header line in the
/// header (unless it is `main`) and its definition in the source.
pub open spec fn c_root_fun(
    name: Seq<char>,
    rt: Option<Seq<char>>,
    params: Seq<ParamV>,
    body: Seq<Positioned<NodeV>>,
) -> Option<CFileV> {
    let hdr = c_fun_header(rt, name, params);
    match c_body_acc(body, 0, Seq::<char>::empty()) {
        None => None,
        Some(bt) => Some(
            CFileV {
                name: Seq::<char>::empty(),
                header: if name == "main"@ {
                    Seq::<char>::empty()
                } else {
                    hdr + ";\n"@
                },
                src: hdr + " { "@ + (if body.len() > 0 {
                    seq!['\n']
                } else {
                    Seq::<char>::empty()
                }) + bt + "}\n"@,
            },
        ),
    }
}

/// One generated file for a hoisted unit: the `.h` of a `std-` path is
/// pulled in with angle brackets, any other with quotes.
pub open spec fn c_root_import(path: Seq<char>) -> CFileV {
    CFileV {
        name: Seq::<char>::empty(),
        header: Seq::<char>::empty(),
        src: (if path.len() >= 4 && path.subrange(0, 4) == "std-"@ {
            c_inclusion() + " <"@ + path.skip(4) + ".h>"@
        } else {
            c_inclusion() + " \""@ + path + ".h\""@
        }) + seq!['\n'],
    }
}

/// The members of a class body from position `i` on, folded into the
/// struct's field lines, the file's header and the file's source. A field
/// must carry a resolved type and no default value; a method must carry a
/// body; members of any other kind are passed over.
pub open spec fn c_class_members(
    cls: Seq<char>,
    body: Seq<Positioned<NodeV>>,
    i: int,
    fields: Seq<char>,
    nfields: int,
    header: Seq<char>,
    src: Seq<char>,
) -> Option<(Seq<char>, Seq<char>, Seq<char>)>
    decreases size_nodes_from(body, i), 1nat,
    via c_class_members_decreases
{
    if i < 0 || i >= body.len() {
        Some((fields, header, src))
    } else {
        match body[i].data {
            NodeV::VariableDefinition { var_type, name, data_type, value } => {
                match data_type {
                    None => None,
                    Some(dt) => {
                        if value is Some {
                            None
                        } else {
                            let line = (if nfields == 0 {
                                seq!['\n']
                            } else {
                                Seq::<char>::empty()
                            }) + seq!['\t'] + c_type_text(Some(dt.data)) + seq![' '] + name.data
                                + ";\n"@;
                            c_class_members(cls, body, i + 1, fields + line, nfields + 1, header, src)
                        }
                    },
                }
            },
            NodeV::FunctionDefinition { name, return_type, params, body: mbody, constructor } => {
                match mbody {
                    None => None,
                    Some(mb) => {
                        let fun_header = (if constructor {
                            cls + seq!['*']
                        } else {
                            c_type_text(opt_ann(return_type))
                        }) + seq![' '] + name.data + seq!['('] + (if !constructor {
                            cls + "* self"@
                        } else {
                            Seq::<char>::empty()
                        }) + c_param_list(params, 0) + seq![')'];
                        match c_body_acc(mb, 0, Seq::<char>::empty()) {
                            None => None,
                            Some(bt) => {
                                let src2 = src + fun_header + " { "@ + (if constructor {
                                    "\n\t"@ + cls + "* self = malloc(sizeof("@ + cls + "));"@
                                } else {
                                    Seq::<char>::empty()
                                }) + (if mb.len() > 0 {
                                    seq!['\n']
                                } else {
                                    Seq::<char>::empty()
                                }) + bt + "}\n"@;
                                c_class_members(
                                    cls,
                                    body,
                                    i + 1,
                                    fields,
                                    nfields,
                                    header + fun_header + ";\n"@,
                                    src2,
                                )
                            },
                        }
                    },
                }
            },
            _ => c_class_members(cls, body, i + 1, fields, nfields, header, src),
        }
    }
}

/// Termination of the class-member walk.
#[via_fn]
proof fn c_class_members_decreases(
    cls: Seq<char>,
    body: Seq<Positioned<NodeV>>,
    i: int,
    fields: Seq<char>,
    nfields: int,
    header: Seq<char>,
    src: Seq<char>,
) {
    if 0 <= i < body.len() {
        crate::node::lemma_size_nodes_from_ge(body, i, i);
    }
}

/// One generated file for a class: the struct and method headers in the
/// header, the method definitions in the source, named after the class.
pub open spec fn c_root_class(name: Seq<char>, body: Seq<Positioned<NodeV>>) -> Option<CFileV> {
    match c_class_members(
        name,
        body,
        0,
        Seq::<char>::empty(),
        0,
        Seq::<char>::empty(),
        Seq::<char>::empty(),
    ) {
        None => None,
        Some(acc) => {
            let struct_str = "typedef struct "@ + name + "T {"@ + acc.0 + "} "@ + name + seq![';'];
            Some(CFileV { name, header: struct_str + seq!['\n'] + acc.1, src: acc.2 })
        },
    }
}

/// The file generated for one top-level node, or nothing where the node
/// cannot stand at top level.
pub open spec fn c_root(n: NodeV) -> Option<CFileV> {
    match n {
        NodeV::FunctionDefinition { name, return_type, params, body, constructor } => {
            if constructor {
                None
            } else {
                match body {
                    None => Some(
                        CFileV {
                            name: Seq::<char>::empty(),
                            header: Seq::<char>::empty(),
                            src: Seq::<char>::empty(),
                        },
                    ),
                    Some(b) => c_root_fun(name.data, opt_ann(return_type), params, b),
                }
            }
        },
        NodeV::Import(path) => Some(c_root_import(path.data)),
        NodeV::ClassDefinition { name, body } => c_root_class(name.data, body),
        _ => None,
    }
}

/// The first position in `files` from `i` on that carries `name`.
pub open spec fn find_file(files: Seq<CFileV>, name: Seq<char>, i: int) -> Option<int>
    decreases files.len() - i,
{
    if i < 0 || i >= files.len() {
        None
    } else if files[i].name == name {
        Some(i)
    } else {
        find_file(files, name, i + 1)
    }
}

/// A file merged into the project: a nameless file takes the unit's name;
/// a file whose name the project already holds has its header and source
/// appended onto the existing one; any other is added at the end.
pub open spec fn merge_file(files: Seq<CFileV>, f: CFileV, current: Seq<char>) -> Seq<CFileV> {
    let f2 = if f.name.len() == 0 {
        CFileV { name: current, ..f }
    } else {
        f
    };
    match find_file(files, f2.name, 0) {
        Some(j) => files.update(
            j,
            CFileV {
                header: files[j].header + f2.header,
                src: files[j].src + f2.src,
                ..files[j]
            },
        ),
        None => files.push(f2),
    }
}

/// Every file with both header and source text gets its own header pulled
/// in at the top of its source.
pub open spec fn post_processed(files: Seq<CFileV>) -> Seq<CFileV> {
    files.map_values(
        |f: CFileV|
            if f.header.len() > 0 && f.src.len() > 0 {
                CFileV {
                    src: c_inclusion() + " \""@ + f.name + ".h\"\n"@ + f.src,
                    ..f
                }
            } else {
                f
            },
    )
}

/// The whole translation of the top-level nodes from position `i` on,
/// folded over `files`, before post-processing.
pub open spec fn translate_acc(
    roots: Seq<Positioned<NodeV>>,
    i: int,
    files: Seq<CFileV>,
    current: Seq<char>,
) -> Option<Seq<CFileV>>
    decreases roots.len() - i,
{
    if i < 0 || i >= roots.len() {
        Some(files)
    } else {
        match c_root(roots[i].data) {
            None => None,
            Some(f) => translate_acc(roots, i + 1, merge_file(files, f, current), current),
        }
    }
}


impl CProject {
    /// An empty project.
    pub fn new() -> (r: CProject)
        ensures
            files_dv(r.files@) == Seq::<CFileV>::empty(),
    {
        let r = CProject { files: Vec::new() };
        proof {
            assert(files_dv(r.files@) =~= Seq::<CFileV>::empty());
        }
        r
    }

    /// Merge one generated file into the project.
    #[verifier::loop_isolation(false)]
    pub fn merge(&mut self, file: CFile, current: String)
        ensures
            files_dv(final(self).files@) == merge_file(files_dv(old(self).files@), file.dv(), current@),
    {
        let ghost pre = files_dv(self.files@);
        let f2: CFile = if file.name.as_str().is_empty() {
            CFile { name: current, header: file.header, src: file.src }
        } else {
            file
        };
        let n = self.files.len();
        let mut i: usize = 0;
        while i < n
            invariant
                n == self.files@.len(),
                i <= n,
                self.files@ == old(self).files@,
                find_file(pre, f2.dv().name, 0) == find_file(pre, f2.dv().name, i as int),
            decreases n - i,
        {
            if str_eq(self.files[i].name.as_str(), f2.name.as_str()) {
                let mut header = self.files[i].header.clone();
                header.append(f2.header.as_str());
                let mut src = self.files[i].src.clone();
                src.append(f2.src.as_str());
                let name = self.files[i].name.clone();
                self.files.set(i, CFile { name, header, src });
                proof {
                    assert(files_dv(self.files@) =~= pre.update(
                        i as int,
                        CFileV {
                            header: pre[i as int].header + f2.dv().header,
                            src: pre[i as int].src + f2.dv().src,
                            ..pre[i as int]
                        },
                    ));
                }
                return ;
            }
            i = i + 1;
        }
        self.files.push(f2);
        proof {
            assert(files_dv(self.files@) =~= pre.push(f2.dv()));
        }
    }

    /// Pull each file's own header in at the top of its source, wherever
    /// both sides have text.
    #[verifier::loop_isolation(false)]
    pub fn post_process(&mut self)
        ensures
            files_dv(final(self).files@) == post_processed(files_dv(old(self).files@)),
    {
        let ghost pre = files_dv(self.files@);
        let n = self.files.len();
        let mut i: usize = 0;
        while i < n
            invariant
                n == self.files@.len(),
                self.files@.len() == old(self).files@.len(),
                i <= n,
                forall|j: int| 0 <= j < i ==> files_dv(self.files@)[j] == post_processed(pre)[j],
                forall|j: int| i <= j < n ==> files_dv(self.files@)[j] == pre[j],
            decreases n - i,
        {
            if !self.files[i].header.as_str().is_empty() && !self.files[i].src.as_str().is_empty() {
                let mut src = String::new();
                push_inclusion(&mut src);
                src.append(" \"");
                src.append(self.files[i].name.as_str());
                src.append(".h\"\n");
                src.append(self.files[i].src.as_str());
                let name = self.files[i].name.clone();
                let header = self.files[i].header.clone();
                self.files.set(i, CFile { name, header, src });
                proof {
                    assert(files_dv(self.files@)[i as int].src =~= c_inclusion() + " \""@
                        + pre[i as int].name + ".h\"\n"@ + pre[i as int].src);
                }
            }
            i = i + 1;
        }
        proof {
            assert(files_dv(self.files@) =~= post_processed(pre));
        }
    }
}

impl Translator {
    /// Append the comma-separated C text of declared parameters.
    #[verifier::loop_isolation(false)]
    fn push_param_list(&self, out: &mut String, params: &Vec<FunctionDefinitionParameter>)
        ensures
            final(out)@ == old(out)@ + c_param_list(params_dv(params@), 0),
    {
        let ghost pdv = params_dv(params@);
        let n = params.len();
        let mut i: usize = 0;
        proof {
            let m0 = c_param_list(pdv, 0);
            assert(old(out)@ + (Seq::<char>::empty() + m0) =~= old(out)@ + m0);
        }
        while i < n
            invariant
                n == params@.len(),
                i <= n,
                pdv == params_dv(params@),
                pdv.len() == n,
                old(out)@ + c_param_list(pdv, 0) == out@ + c_param_list(pdv, i as int),
            decreases n - i,
        {
            proof {
                assert(pdv[i as int] == param_dv(params@[i as int]));
            }
            let ghost out_pre = out@;
            if i != 0 {
                out.append(", ");
            }
            let ann: Option<Positioned<String>> = Some(crate::node::clone_pstring(&params[i].data_type));
            let t = self.translate_type(&ann);
            out.append(t.as_str());
            push_char(out, ' ');
            out.append(params[i].name.data.as_str());
            i = i + 1;
            proof {
                let rest = c_param_list(pdv, i as int);
                assert(out@ + rest =~= out_pre + ((if i == 1 {
                    Seq::<char>::empty()
                } else {
                    ", "@
                }) + c_type_text(Some(pdv[i - 1].data_type.data)) + seq![' '] + pdv[i - 1].name.data
                    + rest));
            }
        }
        proof {
            assert(out@ + Seq::<char>::empty() =~= out@);
        }
    }

    /// Append the indented C text of a body's statements; a statement that
    /// cannot stand here is the returned failure.
    #[verifier::loop_isolation(false)]
    fn push_body(&self, out: &mut String, body: &Vec<Positioned<Node>>) -> (r: Result<(), TranslatorError>)
        ensures
            match r {
                Ok(_) => ({
                    let m = c_body_acc(nodes_dv(body@), 0, Seq::<char>::empty());
                    m is Some && final(out)@ == old(out)@ + m->0
                }),
                Err(_) => c_body_acc(nodes_dv(body@), 0, Seq::<char>::empty()) is None,
            },
    {
        let ghost bdv = nodes_dv(body@);
        proof {
            lemma_nodes_dv(body@);
        }
        let n = body.len();
        let mut i: usize = 0;
        while i < n
            invariant
                n == body@.len(),
                i <= n,
                bdv == nodes_dv(body@),
                bdv.len() == n,
                forall|j: int| 0 <= j < n ==> bdv[j] == pnode_dv(body@[j]),
                out@.len() >= old(out)@.len(),
                out@.subrange(0, old(out)@.len() as int) == old(out)@,
                c_body_acc(bdv, 0, Seq::<char>::empty()) == c_body_acc(
                    bdv,
                    i as int,
                    out@.skip(old(out)@.len() as int),
                ),
            decreases n - i,
        {
            let t = match self.translate_node(&body[i]) {
                Ok(t) => t,
                Err(e) => {
                    return Err(e);
                },
            };
            let ghost out_pre = out@;
            push_indented(out, t.as_str());
            i = i + 1;
            proof {
                assert(out@.subrange(0, old(out)@.len() as int) =~= old(out)@);
                assert(out@.skip(old(out)@.len() as int) =~= out_pre.skip(old(out)@.len() as int)
                    + indented(t@, 0, false));
                assert(c_body_acc(bdv, 0, Seq::<char>::empty()) == c_body_acc(
                    bdv,
                    i as int,
                    out@.skip(old(out)@.len() as int),
                ));
            }
        }
        proof {
            assert(out@ =~= out@.subrange(0, old(out)@.len() as int) + out@.skip(
                old(out)@.len() as int,
            ));
        }
        Ok(())
    }

    /// The generated file for one top-level node: a function yields its
    /// header line and definition, a hoisted unit its directive, a class
    /// its struct and methods; a node of any other kind cannot stand at
    /// top level.
    /// The generated file for one top-level function: its header line in
    /// the header (unless it is `main`) and its definition in the source.
    #[verifier::rlimit(100)]
    #[verifier::spinoff_prover]
    #[verifier::loop_isolation(false)]
    fn translate_root_fun(
        &self,
        root: &Positioned<Node>,
        name: &Positioned<String>,
        return_type: &Option<Positioned<String>>,
        params: &Vec<FunctionDefinitionParameter>,
        body: &Option<Vec<Positioned<Node>>>,
        constructor: bool,
    ) -> (r: Result<CFile, TranslatorError>)
        requires
            node_dv(root.data) == (NodeV::FunctionDefinition {
                name: pstring_dv(*name),
                return_type: opt_pstring_dv(*return_type),
                params: params_dv(params@),
                body: crate::node::opt_body_dv(*body),
                constructor,
            }),
        ensures
            match r {
                Ok(f) => c_root(node_dv(root.data)) == Some(f.dv()),
                Err(_) => c_root(node_dv(root.data)) is None,
            },
    {
        if constructor {
            return Err(
                TranslatorError::UnexpectedNode(
                    crate::node::clone_pnode(root),
                    Some(String::from_str("no constructor at top level")),
                ),
            );
        }
        let b = match body {
            Some(b) => b,
            None => {
                return Ok(CFile::new(String::new()));
            },
        };
        let mut hdr = self.translate_type(return_type);
        push_char(&mut hdr, ' ');
        hdr.append(name.data.as_str());
        push_char(&mut hdr, '(');
        self.push_param_list(&mut hdr, params);
        push_char(&mut hdr, ')');
        proof {
            assert(hdr@ =~= c_fun_header(
                opt_ann(opt_pstring_dv(*return_type)),
                name.data@,
                params_dv(params@),
            ));
        }
        let mut src = hdr.clone();
        src.append(" { ");
        if b.len() > 0 {
            push_char(&mut src, '\n');
        }
        let ghost src_mid = src@;
        match self.push_body(&mut src, b) {
            Ok(_) => {},
            Err(e) => {
                return Err(e);
            },
        }
        src.append("}\n");
        proof {
            lemma_nodes_dv(b@);
            assert(crate::node::opt_body_dv(*body) == Some(nodes_dv(b@)));
            assert(src@ =~= hdr@ + " { "@ + (if nodes_dv(b@).len() > 0 {
                seq!['\n']
            } else {
                Seq::<char>::empty()
            }) + c_body_acc(nodes_dv(b@), 0, Seq::<char>::empty())->0 + "}\n"@);
            assert(c_body_acc(nodes_dv(b@), 0, Seq::<char>::empty()) is Some);
            assert(c_root_fun(
                name.data@,
                opt_ann(opt_pstring_dv(*return_type)),
                params_dv(params@),
                nodes_dv(b@),
            ) matches Some(fv) && fv.src == src@);
        }
        let header = if !str_eq(name.data.as_str(), "main") {
            let mut h = hdr.clone();
            h.append(";\n");
            h
        } else {
            String::new()
        };
        let out = CFile { name: String::new(), header, src };
        proof {
            assert(out.dv().src =~= hdr@ + " { "@ + (if nodes_dv(b@).len() > 0 {
                seq!['\n']
            } else {
                Seq::<char>::empty()
            }) + c_body_acc(nodes_dv(b@), 0, Seq::<char>::empty())->0 + "}\n"@);
            assert(c_body_acc(nodes_dv(b@), 0, Seq::<char>::empty()) is Some);
            assert(c_root_fun(
                name.data@,
                opt_ann(opt_pstring_dv(*return_type)),
                params_dv(params@),
                nodes_dv(b@),
            ) matches Some(fv) && fv.src == src@);
        }
        Ok(out)
    }

    /// The generated file for one top-level class: the struct and method
    /// headers in the header, the method definitions in the source.
    #[verifier::rlimit(100)]
    #[verifier::spinoff_prover]
    #[verifier::loop_isolation(false)]
    fn translate_root_class(
        &self,
        root: &Positioned<Node>,
        name: &Positioned<String>,
        body: &Vec<Positioned<Node>>,
    ) -> (r: Result<CFile, TranslatorError>)
        requires
            node_dv(root.data) == (NodeV::ClassDefinition {
                name: pstring_dv(*name),
                body: nodes_dv(body@),
            }),
        ensures
            match r {
                Ok(f) => c_root(node_dv(root.data)) == Some(f.dv()),
                Err(_) => c_root(node_dv(root.data)) is None,
            },
    {
        let cls = &name.data;
        let ghost clsv = name.data@;
        let ghost bdv = nodes_dv(body@);
        proof {
            lemma_nodes_dv(body@);
        }
        let mut fields = String::new();
        let mut nfields: usize = 0;
        let mut header = String::new();
        let mut src = String::new();
        let n = body.len();
        let mut i: usize = 0;
        while i < n
            invariant
                n == body@.len(),
                i <= n,
                bdv == nodes_dv(body@),
                bdv.len() == n,
                forall|j: int| 0 <= j < n ==> bdv[j] == pnode_dv(body@[j]),
                clsv == name.data@,
                c_class_members(
                    clsv,
                    bdv,
                    0,
                    Seq::<char>::empty(),
                    0,
                    Seq::<char>::empty(),
                    Seq::<char>::empty(),
                ) == c_class_members(
                    clsv,
                    bdv,
                    i as int,
                    fields@,
                    nfields as int,
                    header@,
                    src@,
                ),
                nfields <= i,
            decreases n - i,
        {
            match &body[i].data {
                Node::VariableDefinition { var_type, name: fname, data_type, value } => {
                    proof {
                        assert(bdv[i as int].data == NodeV::VariableDefinition {
                            var_type: *var_type,
                            name: pstring_dv(*fname),
                            data_type: opt_pstring_dv(*data_type),
                            value: crate::node::opt_pnode_dv(*value),
                        });
                    }
                    let dt = match data_type {
                        Some(dt) => dt,
                        None => {
                            return Err(
                                TranslatorError::UnexpectedNode(
                                    crate::node::clone_pnode(&body[i]),
                                    Some(String::from_str("a resolved type")),
                                ),
                            );
                        },
                    };
                    if value.is_some() {
                        return Err(
                            TranslatorError::UnexpectedNode(
                                crate::node::clone_pnode(&body[i]),
                                Some(String::from_str("no default value")),
                            ),
                        );
                    }
                    let ghost fields_pre = fields@;
                    if nfields == 0 {
                        push_char(&mut fields, '\n');
                    }
                    push_char(&mut fields, '\t');
                    let ann: Option<Positioned<String>> = Some(crate::node::clone_pstring(dt));
                    let t = self.translate_type(&ann);
                    fields.append(t.as_str());
                    push_char(&mut fields, ' ');
                    fields.append(fname.data.as_str());
                    fields.append(";\n");
                    nfields = nfields + 1;
                    proof {
                        assert(fields@ =~= fields_pre + ((if nfields == 1 {
                            seq!['\n']
                        } else {
                            Seq::<char>::empty()
                        }) + seq!['\t'] + c_type_text(Some(pstring_dv(*dt).data)) + seq![' ']
                            + fname.data@ + ";\n"@));
                    }
                },
                Node::FunctionDefinition {
                    name: mname,
                    return_type,
                    params,
                    body: mbody,
                    constructor,
                } => {
                    proof {
                        assert(bdv[i as int].data == NodeV::FunctionDefinition {
                            name: pstring_dv(*mname),
                            return_type: opt_pstring_dv(*return_type),
                            params: params_dv(params@),
                            body: crate::node::opt_body_dv(*mbody),
                            constructor: *constructor,
                        });
                    }
                    let mb = match mbody {
                        Some(mb) => mb,
                        None => {
                            return Err(
                                TranslatorError::UnexpectedNode(
                                    crate::node::clone_pnode(&body[i]),
                                    Some(String::from_str("a method body")),
                                ),
                            );
                        },
                    };
                    let mut fun_header = if *constructor {
                        let mut h = cls.clone();
                        push_char(&mut h, '*');
                        h
                    } else {
                        self.translate_type(return_type)
                    };
                    push_char(&mut fun_header, ' ');
                    fun_header.append(mname.data.as_str());
                    push_char(&mut fun_header, '(');
                    if !*constructor {
                        fun_header.append(cls.as_str());
                        fun_header.append("* self");
                    }
                    self.push_param_list(&mut fun_header, params);
                    push_char(&mut fun_header, ')');
                    header.append(fun_header.as_str());
                    header.append(";\n");
                    let ghost src_pre = src@;
                    src.append(fun_header.as_str());
                    src.append(" { ");
                    if *constructor {
                        src.append("\n\t");
                        src.append(cls.as_str());
                        src.append("* self = malloc(sizeof(");
                        src.append(cls.as_str());
                        src.append("));");
                    }
                    if mb.len() > 0 {
                        push_char(&mut src, '\n');
                    }
                    let ghost src_mid = src@;
                    match self.push_body(&mut src, mb) {
                        Ok(_) => {},
                        Err(e) => {
                            return Err(e);
                        },
                    }
                    src.append("}\n");
                    proof {
                        let fh = (if *constructor {
                            clsv + seq!['*']
                        } else {
                            c_type_text(opt_ann(opt_pstring_dv(*return_type)))
                        }) + seq![' '] + mname.data@ + seq!['('] + (if !*constructor {
                            clsv + "* self"@
                        } else {
                            Seq::<char>::empty()
                        }) + c_param_list(params_dv(params@), 0) + seq![')'];
                        assert(fun_header@ =~= fh);
                        lemma_nodes_dv(mb@);
                        let bt = c_body_acc(nodes_dv(mb@), 0, Seq::<char>::empty())->0;
                        assert(src@ =~= src_pre + fh + " { "@ + (if *constructor {
                            "\n\t"@ + clsv + "* self = malloc(sizeof("@ + clsv + "));"@
                        } else {
                            Seq::<char>::empty()
                        }) + (if nodes_dv(mb@).len() > 0 {
                            seq!['\n']
                        } else {
                            Seq::<char>::empty()
                        }) + bt + "}\n"@);
                    }
                },
                _ => {},
            }
            i = i + 1;
        }
        proof {
            assert(c_class_members(clsv, bdv, n as int, fields@, nfields as int, header@, src@)
                == Some((fields@, header@, src@)));
        }
        let mut out_header = String::from_str("typedef struct ");
        out_header.append(cls.as_str());
        out_header.append("T {");
        out_header.append(fields.as_str());
        out_header.append("} ");
        out_header.append(cls.as_str());
        push_char(&mut out_header, ';');
        push_char(&mut out_header, '\n');
        out_header.append(header.as_str());
        proof {
            assert(out_header@ =~= "typedef struct "@ + clsv + "T {"@ + fields@ + "} "@ + clsv
                + seq![';'] + seq!['\n'] + header@);
            assert(c_root_class(clsv, bdv) matches Some(fv) && fv.name == clsv && fv.header
                == out_header@ && fv.src == src@);
        }
        Ok(CFile { name: cls.clone(), header: out_header, src })
    }

    /// The generated file for one top-level node: a function yields its
    /// header line and definition, a hoisted unit its directive, a class
    /// its struct and methods; a node of any other kind cannot stand at
    /// top level.
    #[verifier::rlimit(100)]
    #[verifier::spinoff_prover]
    #[verifier::loop_isolation(false)]
    pub fn translate_root(&self, root: &Positioned<Node>) -> (r: Result<CFile, TranslatorError>)
        ensures
            match r {
                Ok(f) => c_root(node_dv(root.data)) == Some(f.dv()),
                Err(_) => c_root(node_dv(root.data)) is None,
            },
    {
        match &root.data {
            Node::FunctionDefinition { name, return_type, params, body, constructor } => {
                proof {
                    assert(node_dv(root.data) == (NodeV::FunctionDefinition {
                        name: pstring_dv(*name),
                        return_type: opt_pstring_dv(*return_type),
                        params: params_dv(params@),
                        body: crate::node::opt_body_dv(*body),
                        constructor: *constructor,
                    }));
                }
                self.translate_root_fun(root, name, return_type, params, body, *constructor)
            },
            Node::Import(path) => {
                let pc = chars_vec(path.data.as_str());
                proof {
                    reveal_strlit("std-");
                }
                let mut src = String::new();
                push_inclusion(&mut src);
                let std_prefix = pc.len() >= 4 && pc[0] == 's' && pc[1] == 't' && pc[2] == 'd'
                    && pc[3] == '-';
                if std_prefix {
                    src.append(" <");
                    let m = pc.len();
                    let mut j: usize = 4;
                    let ghost mid = src@;
                    while j < m
                        invariant
                            m == pc@.len(),
                            4 <= j <= m,
                            pc@ == path.data@,
                            src@ == mid + path.data@.subrange(4, j as int),
                        decreases m - j,
                    {
                        push_char(&mut src, pc[j]);
                        j = j + 1;
                        proof {
                            assert(src@ =~= mid + path.data@.subrange(4, j as int));
                        }
                    }
                    src.append(".h>");
                    proof {
                        assert(path.data@.subrange(4, path.data@.len() as int) =~= path.data@.skip(4));
                        assert(pc@.subrange(0, 4) =~= "std-"@);
                        assert(path.data@.len() >= 4 && path.data@.subrange(0, 4) == "std-"@);
                        assert(src@ =~= c_inclusion() + " <"@ + path.data@.skip(4) + ".h>"@);
                    }
                } else {
                    src.append(" \"");
                    src.append(path.data.as_str());
                    src.append(".h\"");
                    proof {
                        if path.data@.len() >= 4 {
                            assert(path.data@.subrange(0, 4) =~= pc@.subrange(0, 4));
                            if path.data@.subrange(0, 4) == "std-"@ {
                                assert("std-"@ =~= seq!['s', 't', 'd', '-']);
                                assert(pc@.subrange(0, 4)[0] == pc@[0]);
                                assert(pc@.subrange(0, 4)[1] == pc@[1]);
                                assert(pc@.subrange(0, 4)[2] == pc@[2]);
                                assert(pc@.subrange(0, 4)[3] == pc@[3]);
                                assert(false);
                            }
                        }
                        assert(!(path.data@.len() >= 4 && path.data@.subrange(0, 4) == "std-"@));
                        assert(src@ =~= c_inclusion() + " \""@ + path.data@ + ".h\""@);
                    }
                }
                let ghost src_b = src@;
                push_char(&mut src, '\n');
                proof {
                    assert(src@ =~= src_b + seq!['\n']);
                    assert(node_dv(root.data) == NodeV::Import(pstring_dv(*path)));
                    assert(c_root_import(path.data@) == (CFileV {
                        name: Seq::<char>::empty(),
                        header: Seq::<char>::empty(),
                        src: src@,
                    }));
                }
                Ok(CFile { name: String::new(), header: String::new(), src })
            },
            Node::ClassDefinition { name, body } => {
                proof {
                    assert(node_dv(root.data) == (NodeV::ClassDefinition {
                        name: pstring_dv(*name),
                        body: nodes_dv(body@),
                    }));
                }
                self.translate_root_class(root, name, body)
            },
            _ => Err(TranslatorError::UnexpectedNode(crate::node::clone_pnode(root), None)),
        }
    }
    /// Translate the whole checked unit into a project: one file per
    /// top-level node, merged by name and post-processed. The first node
    /// that cannot be translated aborts with that failure.
    #[verifier::loop_isolation(false)]
    pub fn translate(&mut self) -> (r: Result<CProject, TranslatorError>)
        ensures
            final(self).src == old(self).src,
            final(self).ast == old(self).ast,
            match (translate_acc(
                nodes_dv(old(self).ast@),
                0,
                Seq::<CFileV>::empty(),
                old(self).src.name@,
            ), r) {
                (Some(files), Ok(p)) => files_dv(p.files@) == post_processed(files),
                (None, Err(_)) => true,
                _ => false,
            },
    {
        let mut ast_local: Vec<Positioned<Node>> = Vec::new();
        core::mem::swap(&mut self.ast, &mut ast_local);
        let ghost full = nodes_dv(ast_local@);
        proof {
            lemma_nodes_dv(ast_local@);
        }
        let mut project = CProject::new();
        let n = ast_local.len();
        let mut i: usize = 0;
        while i < n
            invariant
                n == ast_local@.len(),
                i <= n,
                ast_local == old(self).ast,
                full == nodes_dv(ast_local@),
                full.len() == n,
                forall|j: int| 0 <= j < n ==> full[j] == pnode_dv(ast_local@[j]),
                self.src == old(self).src,
                translate_acc(full, 0, Seq::<CFileV>::empty(), old(self).src.name@) == translate_acc(
                    full,
                    i as int,
                    files_dv(project.files@),
                    old(self).src.name@,
                ),
            decreases n - i,
        {
            let file = match self.translate_root(&ast_local[i]) {
                Ok(f) => f,
                Err(e) => {
                    core::mem::swap(&mut self.ast, &mut ast_local);
                    return Err(e);
                },
            };
            project.merge(file, self.src.name.clone());
            i = i + 1;
        }
        project.post_process();
        core::mem::swap(&mut self.ast, &mut ast_local);
        self.index = n;
        Ok(project)
    }
}

} // verus!
