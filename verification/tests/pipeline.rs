//! End-to-end and component tests: the lexer, the parser, the semantic
//! checker (scoping, inference, arity, hoisting, classes) and the
//! translator, driven through the library's public interface.

use apla::checker::{Checker, NodeInfo};
use apla::checkspec::CheckErrorKind;
use apla::file::SourceFile;
use apla::lexer::{Lexer, LexerError};
use apla::node::{
    FunctionCallParameter, FunctionDefinitionParameter, Node, Operator, ValueNode, VarType,
};
use apla::parser::Parser;
use apla::position::{Position, Positioned};
use apla::symbols::{Symbol, VariableSymbol};
use apla::token::{Keyword, Token};
use apla::translator::Translator;
use apla::types::DataType;

fn pos() -> Position {
    Position { index: 0, column: 0, column_index: 0, line: 1 }
}

fn sp<T>(data: T) -> Positioned<T> {
    Positioned { start: pos(), end: pos(), data }
}

fn src(name: &str, text: &str) -> SourceFile {
    SourceFile::new(String::from(name), String::from(text))
}

fn var_decl(mutable: bool, name: &str, ann: Option<&str>, value: Option<Node>) -> Positioned<Node> {
    sp(Node::VariableDefinition {
        var_type: sp(if mutable { VarType::Variable } else { VarType::Constant }),
        name: sp(String::from(name)),
        data_type: ann.map(|a| sp(String::from(a))),
        value: value.map(|v| Box::new(sp(v))),
    })
}

fn decimal(text: &str) -> Node {
    Node::Value(ValueNode::Decimal(String::from(text)))
}

fn name_ref(text: &str) -> Node {
    Node::Value(ValueNode::VariableCall(String::from(text)))
}

fn assign(lhs: Node, rhs: Node) -> Positioned<Node> {
    sp(Node::BinaryOperation {
        lhs: Box::new(sp(lhs)),
        op: sp(Operator::Assignment),
        rhs: Box::new(sp(rhs)),
    })
}

fn access(lhs: Node, rhs: Node) -> Positioned<Node> {
    sp(Node::BinaryOperation {
        lhs: Box::new(sp(lhs)),
        op: sp(Operator::MemberAccess),
        rhs: Box::new(sp(rhs)),
    })
}

fn external_fn(name: &str, params: Vec<(&str, &str)>, ret: Option<&str>) -> Positioned<Node> {
    sp(Node::FunctionDefinition {
        name: sp(String::from(name)),
        return_type: ret.map(|r| sp(String::from(r))),
        params: params
            .into_iter()
            .map(|(n, t)| FunctionDefinitionParameter {
                name: sp(String::from(n)),
                data_type: sp(String::from(t)),
            })
            .collect(),
        body: None,
        constructor: false,
    })
}

fn call(name: &str, args: Vec<Node>) -> Positioned<Node> {
    sp(Node::FunctionCall {
        name: sp(String::from(name)),
        params: args
            .into_iter()
            .map(|a| FunctionCallParameter { value: sp(a) })
            .collect(),
    })
}

fn check(ast: Vec<Positioned<Node>>) -> Result<Vec<Positioned<Node>>, apla::checkspec::CheckError> {
    let mut checker = Checker::new(src("unit", ""), ast);
    checker.check()
}


fn kind_of(r: Result<Vec<Positioned<Node>>, apla::checkspec::CheckError>) -> CheckErrorKind {
    match r {
        Err(e) => e.kind,
        Ok(_) => panic!("expected the checker to fail"),
    }
}

fn lexed(mut lexer: Lexer) -> (SourceFile, Vec<Positioned<Token>>) {
    let tokens = match lexer.tokenize() {
        Ok(t) => t,
        Err(_) => panic!("expected the lexer to succeed"),
    };
    (lexer.take(), tokens)
}

fn parsed(src_file: SourceFile, tokens: Vec<Positioned<Token>>) -> (SourceFile, Vec<Positioned<Node>>) {
    let mut parser = Parser::new(src_file, tokens);
    let ast = match parser.parse() {
        Ok(a) => a,
        Err(_) => panic!("expected the parser to succeed"),
    };
    (parser.take(), ast)
}

// ----- no shadowing -----

#[test]
fn shadowing_variable_rejected() {
    let r = check(vec![
        var_decl(true, "x", None, Some(decimal("5"))),
        var_decl(true, "x", None, Some(decimal("6"))),
    ]);
    assert_eq!(kind_of(r), CheckErrorKind::DuplicateDeclaration);
}

#[test]
fn shadowing_variable_by_class_rejected() {
    let r = check(vec![
        var_decl(true, "x", None, Some(decimal("5"))),
        sp(Node::ClassDefinition { name: sp(String::from("x")), body: vec![] }),
    ]);
    assert_eq!(kind_of(r), CheckErrorKind::DuplicateDeclaration);
}

#[test]
fn shadowing_function_by_variable_rejected() {
    let r = check(vec![
        external_fn("f", vec![], None),
        var_decl(true, "f", None, Some(decimal("5"))),
    ]);
    assert_eq!(kind_of(r), CheckErrorKind::DuplicateDeclaration);
}

#[test]
fn distinct_names_accepted() {
    let r = check(vec![
        var_decl(true, "x", None, Some(decimal("5"))),
        var_decl(true, "y", None, Some(decimal("6"))),
    ]);
    assert!(r.is_ok());
}

// ----- constant immutability -----

#[test]
fn constant_reassignment_rejected() {
    let r = check(vec![
        var_decl(false, "x", None, Some(decimal("5"))),
        assign(name_ref("x"), decimal("6")),
    ]);
    assert_eq!(kind_of(r), CheckErrorKind::InvalidAssignmentTarget);
}

#[test]
fn mutable_reassignment_accepted() {
    let r = check(vec![
        var_decl(true, "x", None, Some(decimal("5"))),
        assign(name_ref("x"), decimal("6")),
    ]);
    assert!(r.is_ok());
}

#[test]
fn uninitialized_constant_assignment_accepted_once() {
    let r = check(vec![
        var_decl(false, "x", Some("c_int"), None),
        assign(name_ref("x"), decimal("6")),
    ]);
    assert!(r.is_ok());
    let r2 = check(vec![
        var_decl(false, "x", Some("c_int"), None),
        assign(name_ref("x"), decimal("6")),
        assign(name_ref("x"), decimal("7")),
    ]);
    assert_eq!(kind_of(r2), CheckErrorKind::InvalidAssignmentTarget);
}

// ----- one-shot override -----

#[test]
fn override_does_not_leak_past_one_lookup() {
    // After `a.f`, a bare `f` in the enclosing scope must not see the
    // class's member scope.
    let class_c = sp(Node::ClassDefinition {
        name: sp(String::from("C")),
        body: vec![var_decl(true, "f", Some("c_int"), None)],
    });
    let ok = check(vec![
        apla::node::clone_pnode(&class_c),
        var_decl(true, "a", Some("C"), None),
        access(name_ref("a"), name_ref("f")),
    ]);
    assert!(ok.is_ok());
    let class_c2 = sp(Node::ClassDefinition {
        name: sp(String::from("C")),
        body: vec![var_decl(true, "f", Some("c_int"), None)],
    });
    let leak = check(vec![
        class_c2,
        var_decl(true, "a", Some("C"), None),
        access(name_ref("a"), name_ref("f")),
        sp(name_ref("f")),
    ]);
    assert_eq!(kind_of(leak), CheckErrorKind::UnresolvedSymbol);
}

// ----- bidirectional inference -----

#[test]
fn inference_fixes_unset_variable_type() {
    let mut checker = Checker::new(src("unit", ""), vec![]);
    checker.table.vars.push(VariableSymbol::new(
        VarType::Variable,
        String::from("x"),
        None,
        false,
    ));
    let info = NodeInfo::new(None, Some(Symbol::Variable(0)));
    let r = checker.infer_and_check(&info, &DataType::CDecimal);
    assert!(matches!(r, Ok(DataType::CDecimal)));
    assert!(matches!(checker.table.vars[0].data_type, Some(DataType::CDecimal)));
}

#[test]
fn inferred_numeric_variable_fits_numeric_alias_not_text() {
    let ok = check(vec![
        var_decl(true, "x", None, Some(decimal("5"))),
        external_fn("g", vec![("p", "c_int")], None),
        call("g", vec![name_ref("x")]),
    ]);
    assert!(ok.is_ok());
    let bad = check(vec![
        var_decl(true, "x", None, Some(decimal("5"))),
        external_fn("h", vec![("p", "c_string")], None),
        call("h", vec![name_ref("x")]),
    ]);
    assert_eq!(kind_of(bad), CheckErrorKind::TypeMismatch);
}

#[test]
fn uninferable_declaration_rejected() {
    let r = check(vec![var_decl(true, "x", None, None)]);
    assert_eq!(kind_of(r), CheckErrorKind::UninferableType);
}

// ----- arity -----

#[test]
fn call_arity_too_few_too_many_exact() {
    let two = |extra: Vec<Node>| {
        check(vec![
            external_fn("f", vec![("a", "c_int"), ("b", "c_int")], Some("c_int")),
            call("f", extra),
        ])
    };
    let too_few = two(vec![decimal("1")]);
    assert_eq!(kind_of(too_few), CheckErrorKind::ArityMismatch);
    let too_many = two(vec![decimal("1"), decimal("2"), decimal("3")]);
    assert_eq!(kind_of(too_many), CheckErrorKind::ArityMismatch);
    let exact = two(vec![decimal("1"), decimal("2")]);
    assert!(exact.is_ok());
}

#[test]
fn unknown_callee_rejected() {
    let r = check(vec![call("nowhere", vec![])]);
    assert_eq!(kind_of(r), CheckErrorKind::UnresolvedSymbol);
}

// ----- hoisting -----

#[test]
fn unit_directives_hoisted_in_order() {
    let r = check(vec![
        var_decl(true, "a", None, Some(decimal("1"))),
        sp(Node::Import(sp(String::from("x")))),
        var_decl(true, "b", None, Some(decimal("2"))),
        sp(Node::Import(sp(String::from("y")))),
    ]);
    let r = match r {
        Ok(out) => out,
        Err(_) => panic!("expected the checker to succeed"),
    };
    assert_eq!(r.len(), 4);
    match &r[0].data {
        Node::Import(p) => assert_eq!(p.data, "x"),
        _ => panic!("first node must be the first directive"),
    }
    match &r[1].data {
        Node::Import(p) => assert_eq!(p.data, "y"),
        _ => panic!("second node must be the second directive"),
    }
    match &r[2].data {
        Node::VariableDefinition { name, .. } => assert_eq!(name.data, "a"),
        _ => panic!("third node must be the first statement"),
    }
    match &r[3].data {
        Node::VariableDefinition { name, .. } => assert_eq!(name.data, "b"),
        _ => panic!("fourth node must be the second statement"),
    }
}

// ----- classes and member visibility -----

fn method(name: &str, ret: Option<&str>, body: Vec<Positioned<Node>>) -> Positioned<Node> {
    sp(Node::FunctionDefinition {
        name: sp(String::from(name)),
        return_type: ret.map(|r| sp(String::from(r))),
        params: vec![],
        body: Some(body),
        constructor: false,
    })
}

#[test]
fn method_sees_field_declared_before_it() {
    let r = check(vec![sp(Node::ClassDefinition {
        name: sp(String::from("C")),
        body: vec![
            var_decl(true, "f", Some("c_int"), None),
            method(
                "m",
                Some("c_int"),
                vec![sp(Node::Return(Box::new(access(
                    Node::Value(ValueNode::This),
                    name_ref("f"),
                ))))],
            ),
        ],
    })]);
    assert!(r.is_ok());
}

#[test]
fn method_cannot_see_field_declared_after_it() {
    let r = check(vec![sp(Node::ClassDefinition {
        name: sp(String::from("C")),
        body: vec![
            method(
                "m",
                Some("c_int"),
                vec![sp(Node::Return(Box::new(access(
                    Node::Value(ValueNode::This),
                    name_ref("f"),
                ))))],
            ),
            var_decl(true, "f", Some("c_int"), None),
        ],
    })]);
    assert_eq!(kind_of(r), CheckErrorKind::UnresolvedSymbol);
}

#[test]
fn receiver_outside_class_rejected() {
    let r = check(vec![sp(Node::Value(ValueNode::This))]);
    assert_eq!(kind_of(r), CheckErrorKind::InvalidContext);
}

#[test]
fn class_body_statement_rejected() {
    let r = check(vec![sp(Node::ClassDefinition {
        name: sp(String::from("C")),
        body: vec![sp(decimal("1"))],
    })]);
    assert_eq!(kind_of(r), CheckErrorKind::InvalidContext);
}

// ----- remaining error kinds -----

#[test]
fn arithmetic_reserved() {
    let r = check(vec![sp(Node::BinaryOperation {
        lhs: Box::new(sp(decimal("1"))),
        op: sp(Operator::Plus),
        rhs: Box::new(sp(decimal("2"))),
    })]);
    assert_eq!(kind_of(r), CheckErrorKind::UnsupportedConstruct);
}

#[test]
fn return_outside_function_rejected() {
    let r = check(vec![sp(Node::Return(Box::new(sp(decimal("1")))))]);
    assert_eq!(kind_of(r), CheckErrorKind::InvalidContext);
}

#[test]
fn nested_function_rejected() {
    let r = check(vec![sp(Node::FunctionDefinition {
        name: sp(String::from("outer")),
        return_type: None,
        params: vec![],
        body: Some(vec![sp(Node::FunctionDefinition {
            name: sp(String::from("inner")),
            return_type: None,
            params: vec![],
            body: Some(vec![]),
            constructor: false,
        })]),
        constructor: false,
    })]);
    assert_eq!(kind_of(r), CheckErrorKind::InvalidContext);
}

#[test]
fn member_access_on_number_rejected() {
    let r = check(vec![access(decimal("1"), name_ref("f"))]);
    assert_eq!(kind_of(r), CheckErrorKind::InvalidAccessTarget);
}

#[test]
fn assignment_to_class_rejected() {
    let r = check(vec![
        sp(Node::ClassDefinition { name: sp(String::from("C")), body: vec![] }),
        assign(name_ref("C"), decimal("1")),
    ]);
    assert_eq!(kind_of(r), CheckErrorKind::InvalidAssignmentTarget);
}

#[test]
fn text_typed_declaration_unsupported() {
    let r = check(vec![var_decl(
        true,
        "s",
        None,
        Some(Node::Value(ValueNode::Text(String::from("hi")))),
    )]);
    assert_eq!(kind_of(r), CheckErrorKind::UnsupportedConstruct);
}

// ----- the lexer -----

#[test]
fn tokenize_declaration() {
    let lexer = Lexer::new(src("unit", "var x = 5\n"));
    let (_s, tokens) = lexed(lexer);
    assert_eq!(tokens.len(), 5);
    assert!(tokens[0].data.same_as(&Token::Keyword(Keyword::Var)));
    assert!(tokens[1].data.same_as(&Token::Identifier(String::from("x"))));
    assert!(tokens[2].data.same_as(&Token::Equal));
    assert!(tokens[3].data.same_as(&Token::Decimal(String::from("5"))));
    assert!(tokens[4].data.same_as(&Token::NewLine));
}

#[test]
fn tokenize_arrow_spaces_and_comment() {
    let lexer = Lexer::new(src("unit", "fn f() =>\n    5 # note\n"));
    let (_s, tokens) = lexed(lexer);
    assert!(tokens[0].data.same_as(&Token::Keyword(Keyword::Fn)));
    assert!(tokens[1].data.same_as(&Token::Identifier(String::from("f"))));
    assert!(tokens[2].data.same_as(&Token::LeftParenthesis));
    assert!(tokens[3].data.same_as(&Token::RightParenthesis));
    assert!(tokens[4].data.same_as(&Token::RightDoubleArrow));
    assert!(tokens[5].data.same_as(&Token::NewLine));
    assert!(tokens[6].data.same_as(&Token::Tab));
    assert!(tokens[7].data.same_as(&Token::Decimal(String::from("5"))));
}

#[test]
fn tokenize_unterminated_string_fails() {
    let mut lexer = Lexer::new(src("unit", "\"abc"));
    assert!(matches!(lexer.tokenize(), Err(LexerError::UnexpectedEOF)));
}

#[test]
fn tokenize_bad_character_fails() {
    let mut lexer = Lexer::new(src("unit", "@"));
    assert!(matches!(lexer.tokenize(), Err(LexerError::UnexpectedChar(_))));
}

// ----- the parser -----

#[test]
fn parse_variable_declaration() {
    let (sf, tokens) = lexed(Lexer::new(src("unit", "var x: c_int = 5\n")));
    let (_sf, ast) = parsed(sf, tokens);
    assert_eq!(ast.len(), 1);
    match &ast[0].data {
        Node::VariableDefinition { var_type, name, data_type, value } => {
            assert!(matches!(var_type.data, VarType::Variable));
            assert_eq!(name.data, "x");
            assert_eq!(data_type.as_ref().unwrap().data, "c_int");
            match &value.as_ref().unwrap().data {
                Node::Value(ValueNode::Decimal(d)) => assert_eq!(d, "5"),
                _ => panic!("initializer must be the literal"),
            }
        },
        _ => panic!("must parse to a variable declaration"),
    }
}

#[test]
fn parse_call_and_member_access() {
    let (sf, tokens) = lexed(Lexer::new(src("unit", "f(a.b, 2)\n")));
    let (_sf, ast) = parsed(sf, tokens);
    assert_eq!(ast.len(), 1);
    match &ast[0].data {
        Node::FunctionCall { name, params } => {
            assert_eq!(name.data, "f");
            assert_eq!(params.len(), 2);
            match &params[0].value.data {
                Node::BinaryOperation { op, .. } => {
                    assert!(matches!(op.data, Operator::MemberAccess))
                },
                _ => panic!("first argument must be the access"),
            }
        },
        _ => panic!("must parse to a call"),
    }
}

#[test]
fn parse_rejects_stray_comma() {
    let (sf, tokens) = lexed(Lexer::new(src("unit", ",\n")));
    let mut parser = Parser::new(sf, tokens);
    assert!(parser.parse().is_err());
}

// ----- the translator and the whole pipeline -----

fn pipeline(name: &str, text: &str) -> apla::translator::CProject {
    let (sf, tokens) = lexed(Lexer::new(src(name, text)));
    let (sf2, ast) = parsed(sf, tokens);
    let mut checker = Checker::new(sf2, ast);
    let checked = match checker.check() {
        Ok(c) => c,
        Err(_) => panic!("expected the checker to succeed"),
    };
    let mut translator = Translator::new(checker.take(), checked);
    match translator.translate() {
        Ok(p) => p,
        Err(_) => panic!("expected the translator to succeed"),
    }
}

#[test]
fn pipeline_main_calls_library_function() {
    let project = pipeline(
        "prog",
        "import \"std-stdio\"\nexternal fn emit(n: c_int)\nfn main() =>\n\temit(42)\n",
    );
    assert_eq!(project.files.len(), 1);
    let file = &project.files[0];
    assert_eq!(file.name, "prog");
    assert_eq!(file.header, "");
    assert_eq!(file.src, "#include <stdio.h>\nvoid main() { \n\temit(42);\n}\n");
}

#[test]
fn pipeline_function_with_header_gets_own_inclusion() {
    let project = pipeline("unit", "fn five(): c_int =>\n\treturn 5\n");
    assert_eq!(project.files.len(), 1);
    let file = &project.files[0];
    assert_eq!(file.name, "unit");
    assert_eq!(file.header, "int five();\n");
    assert_eq!(
        file.src,
        "#include \"unit.h\"\nint five() { \n\treturn 5;\n}\n"
    );
}

#[test]
fn pipeline_class_emits_struct_and_methods() {
    let project = pipeline(
        "unit",
        "class Point\n\tvar x: c_int\n\tfn getx(): c_int =>\n\t\treturn self.x\n",
    );
    assert_eq!(project.files.len(), 1);
    let file = &project.files[0];
    assert_eq!(file.name, "Point");
    assert_eq!(
        file.header,
        "typedef struct PointT {\n\tint x;\n} Point;\nint getx(Point* self);\n"
    );
    assert_eq!(
        file.src,
        "#include \"Point.h\"\nint getx(Point* self) { \n\treturn (self->x);\n}\n"
    );
}

#[test]
fn translate_rejects_statement_at_top_level() {
    let mut translator = Translator::new(src("unit", ""), vec![sp(decimal("1"))]);
    assert!(translator.translate().is_err());
}

// ----- small pieces -----

#[test]
fn type_compatibility_is_a_closed_whitelist() {
    let checker = Checker::new(src("unit", ""), vec![]);
    let c_int = DataType::Custom(String::from("c_int"));
    let c_string = DataType::Custom(String::from("c_string"));
    let person = DataType::Custom(String::from("Person"));
    assert!(checker.check_data_type(&DataType::CDecimal, &c_int));
    assert!(checker.check_data_type(&c_int, &DataType::CDecimal));
    assert!(checker.check_data_type(&DataType::CString, &c_string));
    assert!(checker.check_data_type(&c_string, &DataType::CString));
    assert!(checker.check_data_type(&person, &person));
    assert!(!checker.check_data_type(&DataType::CDecimal, &c_string));
    assert!(!checker.check_data_type(&person, &DataType::CDecimal));
    assert!(!checker.check_data_type(&DataType::Void, &DataType::CDecimal));
}

#[test]
fn keyword_table_round_trip() {
    assert!(matches!(Keyword::from_string("fn"), Some(Keyword::Fn)));
    assert!(matches!(Keyword::from_string("import"), Some(Keyword::Import)));
    assert!(matches!(Keyword::from_string("self"), Some(Keyword::This)));
    assert!(Keyword::from_string("banana").is_none());
    assert_eq!(Keyword::Class.spelling(), "class");
}

#[test]
fn decimal_rendering() {
    assert_eq!(apla::text::usize_text(0), "0");
    assert_eq!(apla::text::usize_text(7), "7");
    assert_eq!(apla::text::usize_text(12345), "12345");
}

#[test]
fn position_advance_counts_lines_and_columns() {
    let mut p = Position { index: 0, column: 0, column_index: 0, line: 1 };
    p.advance('a');
    assert_eq!((p.index, p.column, p.line), (1, 1, 1));
    p.advance('\t');
    assert_eq!((p.index, p.column, p.line), (2, 5, 1));
    p.advance('\n');
    assert_eq!((p.index, p.column, p.line), (3, 0, 2));
    assert_eq!(p.to_text(), "2:0");
}

#[test]
fn lexer_error_message_text() {
    let e = LexerError::UnexpectedEOF;
    assert_eq!(e.message(&src("unit", "")), "[Lexer]: Unexpected EOF.");
}

#[test]
fn arrow_message_marks_span() {
    let span: Positioned<()> = Positioned {
        start: Position { index: 4, column: 4, column_index: 4, line: 1 },
        end: Position { index: 5, column: 5, column_index: 5, line: 1 },
        data: (),
    };
    let m = span.arrow_message("var x = 5");
    assert_eq!(m, "var x = 5\n    ^");
}
