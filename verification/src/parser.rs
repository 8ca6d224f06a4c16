//! The parser: recursive-descent, precedence-climbing construction of the
//! syntax tree from the token sequence. It is a collaborator of the core
//! checker; its promise here is that it terminates on every input, never
//! touches the tokens or the source it was given, always moves forward
//! through them, and fails only with its two declared errors.

use vstd::prelude::*;
use vstd::string::StringExecFns;
use crate::file::SourceFile;
use crate::node::{
    FunctionCallParameter, FunctionDefinitionParameter, Node, Operator, ValueNode, VarType,
};
use crate::position::{Position, Positioned};
use crate::text::push_char;
use crate::token::{Keyword, Token};

verus! {

/// A parsing failure: the tokens ended too early, or the token under the
/// cursor is not one that may stand here. Each case may carry a note of
/// what was expected instead.
pub enum ParserError {
    UnexpectedEOF(Option<String>),
    UnexpectedToken(Positioned<Token>, Option<String>),
}

impl ParserError {
    /// A human-readable message for this failure.
    pub fn message(&self, src: &SourceFile) -> (r: String)
    {
        match self {
            ParserError::UnexpectedEOF(should_be) => {
                let mut out = String::from_str("[Parser]: Unexpected EOF in '");
                out.append(src.name.as_str());
                push_char(&mut out, '\'');
                match should_be {
                    Some(s) => {
                        out.append(", should be '");
                        out.append(s.as_str());
                        push_char(&mut out, '\'');
                    },
                    None => {},
                }
                out
            },
            ParserError::UnexpectedToken(token, should_be) => {
                let mut out = String::from_str("[Parser]: Unexpected token '");
                out.append(token.data.to_text().as_str());
                out.append("' at ");
                out.append(crate::text::usize_text(token.start.line).as_str());
                push_char(&mut out, ':');
                out.append(crate::text::usize_text(token.start.column).as_str());
                out.append(" in '");
                out.append(src.name.as_str());
                push_char(&mut out, '\'');
                match should_be {
                    Some(s) => {
                        out.append(", should be '");
                        out.append(s.as_str());
                        push_char(&mut out, '\'');
                    },
                    None => {},
                }
                out
            },
        }
    }
}

/// The parser's working state: the source, the tokens, and the cursor,
/// which never leaves the token sequence.
pub struct Parser {
    pub src: SourceFile,
    pub tokens: Vec<Positioned<Token>>,
    pub index: usize,
}

/// The cursor stays inside the token sequence.
pub open spec fn parser_wf(p: Parser) -> bool {
    p.index <= p.tokens@.len()
}

/// What every parsing step promises: the tokens and the source are
/// untouched, the cursor stays inside them and never moves backwards, and
/// a successful parse consumed at least one token.
pub open spec fn parse_frame(pre: Parser, post: Parser) -> bool {
    &&& parser_wf(post)
    &&& post.tokens == pre.tokens
    &&& post.src == pre.src
    &&& post.index >= pre.index
}

impl Parser {
    /// A fresh parser over `tokens`, with the cursor at the first token.
    pub fn new(src: SourceFile, tokens: Vec<Positioned<Token>>) -> (r: Parser)
        ensures
            parser_wf(r),
            r.src == src,
            r.tokens == tokens,
            r.index == 0,
    {
        Parser { src, tokens, index: 0 }
    }

    /// Hand the source handle back once parsing is over.
    pub fn take(self) -> (r: SourceFile)
        ensures
            r == self.src,
    {
        self.src
    }

    /// The token under the cursor, if any, copied out.
    fn current(&self) -> (r: Option<Positioned<Token>>)
        requires
            parser_wf(*self),
        ensures
            match r {
                Some(t) => self.index < self.tokens@.len() && t.start == self.tokens@[self.index as int].start
                    && t.end == self.tokens@[self.index as int].end && t.data.dv()
                    == self.tokens@[self.index as int].data.dv(),
                None => self.index >= self.tokens@.len(),
            },
    {
        if self.index < self.tokens.len() {
            let t = &self.tokens[self.index];
            Some(Positioned { start: t.start, end: t.end, data: t.data.duplicate() })
        } else {
            None
        }
    }

    /// The token `x` places past the cursor, if any, copied out.
    fn peek(&self, x: usize) -> (r: Option<Positioned<Token>>)
        requires
            parser_wf(*self),
        ensures
            match r {
                Some(t) => self.index + x < self.tokens@.len() && t.data.dv()
                    == self.tokens@[self.index + x].data.dv(),
                None => self.index + x >= self.tokens@.len(),
            },
    {
        let rem = self.tokens.len() - self.index;
        if x < rem {
            let t = &self.tokens[self.index + x];
            Some(Positioned { start: t.start, end: t.end, data: t.data.duplicate() })
        } else {
            None
        }
    }

    /// Step the cursor over one token; at the end it stays put.
    fn advance(&mut self)
        requires
            parser_wf(*old(self)),
        ensures
            parse_frame(*old(self), *final(self)),
            old(self).index < old(self).tokens@.len() ==> final(self).index == old(self).index + 1,
            old(self).index >= old(self).tokens@.len() ==> final(self).index == old(self).index,
    {
        if self.index < self.tokens.len() {
            self.index = self.index + 1;
        }
    }

    /// Step the cursor over `x` tokens, stopping at the end.
    fn advance_x(&mut self, x: usize)
        requires
            parser_wf(*old(self)),
        ensures
            parse_frame(*old(self), *final(self)),
            old(self).index + x <= old(self).tokens@.len() ==> final(self).index == old(self).index
                + x,
    {
        if x <= self.tokens.len() && self.index <= self.tokens.len() - x {
            self.index = self.index + x;
        } else {
            self.index = self.tokens.len();
        }
    }

    /// The token under the cursor; when `token` is given, it must carry
    /// the same value. The cursor does not move.
    fn expect_current(&self, token: Option<Token>, should_be: Option<String>) -> (r: Result<
        Positioned<Token>,
        ParserError,
    >)
        requires
            parser_wf(*self),
        ensures
            r is Ok ==> self.index < self.tokens@.len(),
            r matches Ok(t) ==> t.data.dv() == self.tokens@[self.index as int].data.dv(),
    {
        match self.current() {
            Some(current) => match token {
                Some(token) => {
                    if current.data.same_as(&token) {
                        Ok(current)
                    } else {
                        Err(ParserError::UnexpectedToken(current, should_be))
                    }
                },
                None => Ok(current),
            },
            None => Err(ParserError::UnexpectedEOF(should_be)),
        }
    }

    /// A statement must end here: either a line break or the end of the
    /// tokens.
    fn expect_end_of_statement(&self) -> (r: Result<(), ParserError>)
        requires
            parser_wf(*self),
    {
        match self.current() {
            Some(current) => {
                if current.data.same_as(&Token::NewLine) {
                    Ok(())
                } else {
                    Err(
                        ParserError::UnexpectedToken(
                            current,
                            Some(String::from_str("NewLine or EOF")),
                        ),
                    )
                }
            },
            None => Ok(()),
        }
    }

    /// The token under the cursor must be an identifier; its text is
    /// returned with its span.
    fn expect_identifier(&self) -> (r: Result<Positioned<String>, ParserError>)
        requires
            parser_wf(*self),
        ensures
            r is Ok ==> self.index < self.tokens@.len(),
    {
        match self.current() {
            Some(current) => match &current.data {
                Token::Identifier(id) => Ok(
                    Positioned { start: current.start, end: current.end, data: id.clone() },
                ),
                _ => Err(ParserError::UnexpectedToken(current, Some(String::from_str("Identifier")))),
            },
            None => Err(ParserError::UnexpectedEOF(Some(String::from_str("Identifier")))),
        }
    }

    /// The token under the cursor must be a quoted literal; its text is
    /// returned with its span.
    fn expect_string(&self) -> (r: Result<Positioned<String>, ParserError>)
        requires
            parser_wf(*self),
        ensures
            r is Ok ==> self.index < self.tokens@.len(),
    {
        match self.current() {
            Some(current) => match &current.data {
                Token::Text(id) => Ok(
                    Positioned { start: current.start, end: current.end, data: id.clone() },
                ),
                _ => Err(ParserError::UnexpectedToken(current, Some(String::from_str("String")))),
            },
            None => Err(ParserError::UnexpectedEOF(Some(String::from_str("Identifier")))),
        }
    }

    /// Parse a leaf expression: a literal, a name or call, or the implicit
    /// receiver.
    fn parse_expr0(&mut self) -> (r: Result<Positioned<Node>, ParserError>)
        requires
            parser_wf(*old(self)),
        ensures
            parse_frame(*old(self), *final(self)),
            r is Ok ==> old(self).index < old(self).tokens@.len(),
        decreases old(self).tokens@.len() - old(self).index, 1int,
    {
        let current = self.current();
        match current {
            Some(current) => match &current.data {
                Token::Decimal(value) => Ok(
                    current.convert(Node::Value(ValueNode::Decimal(value.clone()))),
                ),
                Token::Text(value) => Ok(current.convert(Node::Value(ValueNode::Text(value.clone())))),
                Token::Identifier(id) => {
                    let name = Positioned { start: current.start, end: current.end, data: id.clone() };
                    self.handle_identifier(name)
                },
                Token::Keyword(Keyword::This) => Ok(current.convert(Node::Value(ValueNode::This))),
                _ => Err(ParserError::UnexpectedToken(current, Some(String::from_str("expr0")))),
            },
            None => Err(ParserError::UnexpectedEOF(Some(String::from_str("expr0")))),
        }
    }

    /// A bare name is a variable reference; a name followed by an opening
    /// parenthesis is a call, whose arguments are parsed in turn.
    fn handle_identifier(&mut self, identifier: Positioned<String>) -> (r: Result<
        Positioned<Node>,
        ParserError,
    >)
        requires
            parser_wf(*old(self)),
        ensures
            parse_frame(*old(self), *final(self)),
        decreases old(self).tokens@.len() - old(self).index, 0int,
    {
        let next = self.peek(1);
        let is_call = match &next {
            Some(t) => t.data.same_as(&Token::LeftParenthesis),
            None => false,
        };
        if !is_call {
            let name = identifier.data.clone();
            return Ok(identifier.convert(Node::Value(ValueNode::VariableCall(name))));
        }
        self.advance_x(2);
        let mut current = match self.expect_current(None, Some(String::from_str(")"))) {
            Ok(c) => c,
            Err(e) => {
                return Err(e);
            },
        };
        let mut params: Vec<FunctionCallParameter> = Vec::new();
        #[verifier::loop_isolation(false)]
        while !current.data.same_as(&Token::RightParenthesis)
            invariant
                parse_frame(*old(self), *self),
                self.index > old(self).index,
                self.index < self.tokens@.len(),
                current.data.dv() == self.tokens@[self.index as int].data.dv(),
            decreases self.tokens@.len() - self.index,
        {
            if params.len() != 0 {
                match self.expect_current(Some(Token::Comma), Some(String::from_str(","))) {
                    Ok(_) => {},
                    Err(e) => {
                        return Err(e);
                    },
                }
                self.advance();
            }
            let value = match self.parse_expr() {
                Ok(v) => v,
                Err(e) => {
                    return Err(e);
                },
            };
            params.push(FunctionCallParameter { value });
            current = match self.expect_current(None, Some(String::from_str(")"))) {
                Ok(c) => c,
                Err(e) => {
                    return Err(e);
                },
            };
        }
        let end = current.end;
        let start = identifier.start;
        Ok(Positioned::new(Node::FunctionCall { name: identifier, params }, start, end))
    }

    /// Parse member accesses, which bind tightest.
    fn parse_expr1(&mut self) -> (r: Result<Positioned<Node>, ParserError>)
        requires
            parser_wf(*old(self)),
        ensures
            parse_frame(*old(self), *final(self)),
            r is Ok ==> final(self).index > old(self).index,
        decreases old(self).tokens@.len() - old(self).index, 2int,
    {
        let mut left = match self.parse_expr0() {
            Ok(l) => l,
            Err(e) => {
                return Err(e);
            },
        };
        #[verifier::loop_isolation(false)]
        loop
            invariant
                parse_frame(*old(self), *self),
            decreases self.tokens@.len() - self.index,
        {
            self.advance();
            let current = match self.current() {
                Some(c) => c,
                None => {
                    break;
                },
            };
            let op = match &current.data {
                Token::Dot => current.convert(Operator::MemberAccess),
                _ => {
                    break;
                },
            };
            self.advance();
            let right = match self.parse_expr0() {
                Ok(x) => x,
                Err(e) => {
                    return Err(e);
                },
            };
            let start = left.start;
            let end = right.end;
            left = Positioned::new(
                Node::BinaryOperation { lhs: Box::new(left), op, rhs: Box::new(right) },
                start,
                end,
            );
        }
        Ok(left)
    }

    /// Parse products and quotients.
    fn parse_expr2(&mut self) -> (r: Result<Positioned<Node>, ParserError>)
        requires
            parser_wf(*old(self)),
        ensures
            parse_frame(*old(self), *final(self)),
            r is Ok ==> final(self).index > old(self).index,
        decreases old(self).tokens@.len() - old(self).index, 3int,
    {
        let mut left = match self.parse_expr1() {
            Ok(l) => l,
            Err(e) => {
                return Err(e);
            },
        };
        #[verifier::loop_isolation(false)]
        loop
            invariant
                parse_frame(*old(self), *self),
                self.index > old(self).index,
            decreases self.tokens@.len() - self.index,
        {
            let current = match self.current() {
                Some(c) => c,
                None => {
                    break;
                },
            };
            let op = match &current.data {
                Token::Star => current.convert(Operator::Multiply),
                Token::Slash => current.convert(Operator::Divide),
                _ => {
                    break;
                },
            };
            self.advance();
            let right = match self.parse_expr1() {
                Ok(x) => x,
                Err(e) => {
                    return Err(e);
                },
            };
            let start = left.start;
            let end = right.end;
            left = Positioned::new(
                Node::BinaryOperation { lhs: Box::new(left), op, rhs: Box::new(right) },
                start,
                end,
            );
        }
        Ok(left)
    }

    /// Parse sums and differences.
    fn parse_expr3(&mut self) -> (r: Result<Positioned<Node>, ParserError>)
        requires
            parser_wf(*old(self)),
        ensures
            parse_frame(*old(self), *final(self)),
            r is Ok ==> final(self).index > old(self).index,
        decreases old(self).tokens@.len() - old(self).index, 4int,
    {
        let mut left = match self.parse_expr2() {
            Ok(l) => l,
            Err(e) => {
                return Err(e);
            },
        };
        #[verifier::loop_isolation(false)]
        loop
            invariant
                parse_frame(*old(self), *self),
                self.index > old(self).index,
            decreases self.tokens@.len() - self.index,
        {
            let current = match self.current() {
                Some(c) => c,
                None => {
                    break;
                },
            };
            let op = match &current.data {
                Token::Plus => current.convert(Operator::Plus),
                Token::Dash => current.convert(Operator::Minus),
                _ => {
                    break;
                },
            };
            self.advance();
            let right = match self.parse_expr2() {
                Ok(x) => x,
                Err(e) => {
                    return Err(e);
                },
            };
            let start = left.start;
            let end = right.end;
            left = Positioned::new(
                Node::BinaryOperation { lhs: Box::new(left), op, rhs: Box::new(right) },
                start,
                end,
            );
        }
        Ok(left)
    }

    /// Parse assignments, which bind loosest.
    fn parse_expr4(&mut self) -> (r: Result<Positioned<Node>, ParserError>)
        requires
            parser_wf(*old(self)),
        ensures
            parse_frame(*old(self), *final(self)),
            r is Ok ==> final(self).index > old(self).index,
        decreases old(self).tokens@.len() - old(self).index, 5int,
    {
        let mut left = match self.parse_expr3() {
            Ok(l) => l,
            Err(e) => {
                return Err(e);
            },
        };
        #[verifier::loop_isolation(false)]
        loop
            invariant
                parse_frame(*old(self), *self),
                self.index > old(self).index,
            decreases self.tokens@.len() - self.index,
        {
            let current = match self.current() {
                Some(c) => c,
                None => {
                    break;
                },
            };
            let op = match &current.data {
                Token::Equal => current.convert(Operator::Assignment),
                _ => {
                    break;
                },
            };
            self.advance();
            let right = match self.parse_expr3() {
                Ok(x) => x,
                Err(e) => {
                    return Err(e);
                },
            };
            let start = left.start;
            let end = right.end;
            left = Positioned::new(
                Node::BinaryOperation { lhs: Box::new(left), op, rhs: Box::new(right) },
                start,
                end,
            );
        }
        Ok(left)
    }

    /// Parse one whole expression.
    fn parse_expr(&mut self) -> (r: Result<Positioned<Node>, ParserError>)
        requires
            parser_wf(*old(self)),
        ensures
            parse_frame(*old(self), *final(self)),
            r is Ok ==> final(self).index > old(self).index,
        decreases old(self).tokens@.len() - old(self).index, 6int,
    {
        self.parse_expr4()
    }

    /// Parse a variable declaration after its `const` or `var` keyword: a
    /// name, an optional type annotation, an optional initializer.
    fn parse_variable_definition(&mut self, var_type: Positioned<VarType>) -> (r: Result<
        Positioned<Node>,
        ParserError,
    >)
        requires
            parser_wf(*old(self)),
        ensures
            parse_frame(*old(self), *final(self)),
            r is Ok ==> final(self).index > old(self).index,
        decreases old(self).tokens@.len() - old(self).index, 7int,
    {
        self.advance();
        let name = match self.expect_identifier() {
            Ok(n) => n,
            Err(e) => {
                return Err(e);
            },
        };
        self.advance();
        let mut end = name.end;

        let mut data_type: Option<Positioned<String>> = None;
        let has_colon = match self.current() {
            Some(current) => current.data.same_as(&Token::Colon),
            None => false,
        };
        if has_colon {
            self.advance();
            let dt = match self.expect_identifier() {
                Ok(d) => d,
                Err(e) => {
                    return Err(e);
                },
            };
            self.advance();
            end = dt.end;
            data_type = Some(dt);
        }

        let mut value: Option<Box<Positioned<Node>>> = None;
        let has_equal = match self.current() {
            Some(current) => current.data.same_as(&Token::Equal),
            None => false,
        };
        if has_equal {
            self.advance();
            let v = match self.parse_expr() {
                Ok(v) => v,
                Err(e) => {
                    return Err(e);
                },
            };
            end = v.end;
            value = Some(Box::new(v));
        }

        let start = var_type.start;
        Ok(Positioned::new(Node::VariableDefinition { var_type, name, data_type, value }, start, end))
    }

    /// Parse a function declaration after its introducing keyword: name,
    /// parenthesized parameters, optional return type, and — unless the
    /// function is declared to be linked from outside — an arrow and an
    /// indented body.
    fn parse_function_definition(&mut self, start: Position, external_decl: bool, constructor: bool) -> (r:
        Result<Positioned<Node>, ParserError>)
        requires
            parser_wf(*old(self)),
        ensures
            parse_frame(*old(self), *final(self)),
            r is Ok ==> final(self).index > old(self).index,
        decreases old(self).tokens@.len() - old(self).index, 7int,
    {
        self.advance();
        let name = match self.expect_identifier() {
            Ok(n) => n,
            Err(e) => {
                return Err(e);
            },
        };
        self.advance();

        match self.expect_current(Some(Token::LeftParenthesis), Some(String::from_str("("))) {
            Ok(_) => {},
            Err(e) => {
                return Err(e);
            },
        }
        self.advance();
        let mut params: Vec<FunctionDefinitionParameter> = Vec::new();
        let mut current = match self.expect_current(None, Some(String::from_str(")"))) {
            Ok(c) => c,
            Err(e) => {
                return Err(e);
            },
        };
        #[verifier::loop_isolation(false)]
        while !current.data.same_as(&Token::RightParenthesis)
            invariant
                parse_frame(*old(self), *self),
                self.index > old(self).index,
                self.index < self.tokens@.len(),
                current.data.dv() == self.tokens@[self.index as int].data.dv(),
            decreases self.tokens@.len() - self.index,
        {
            if params.len() != 0 {
                match self.expect_current(Some(Token::Comma), Some(String::from_str(","))) {
                    Ok(_) => {},
                    Err(e) => {
                        return Err(e);
                    },
                }
                self.advance();
            }
            let pname = match self.expect_identifier() {
                Ok(n) => n,
                Err(e) => {
                    return Err(e);
                },
            };
            self.advance();
            match self.expect_current(Some(Token::Colon), Some(String::from_str(":"))) {
                Ok(_) => {},
                Err(e) => {
                    return Err(e);
                },
            }
            self.advance();
            let pdata_type = match self.expect_identifier() {
                Ok(d) => d,
                Err(e) => {
                    return Err(e);
                },
            };
            params.push(FunctionDefinitionParameter { name: pname, data_type: pdata_type });
            self.advance();
            current = match self.expect_current(None, Some(String::from_str(")"))) {
                Ok(c) => c,
                Err(e) => {
                    return Err(e);
                },
            };
        }
        let mut end = current.end;
        self.advance();

        let mut data_type: Option<Positioned<String>> = None;
        if !constructor {
            let has_colon = match self.current() {
                Some(current) => current.data.same_as(&Token::Colon),
                None => false,
            };
            if has_colon {
                self.advance();
                let dt = match self.expect_identifier() {
                    Ok(d) => d,
                    Err(e) => {
                        return Err(e);
                    },
                };
                self.advance();
                end = dt.end;
                data_type = Some(dt);
            }
        }

        let body: Option<Vec<Positioned<Node>>> = if !external_decl {
            let mut body: Vec<Positioned<Node>> = Vec::new();
            match self.expect_current(Some(Token::RightDoubleArrow), Some(String::from_str("=>"))) {
                Ok(_) => {},
                Err(e) => {
                    return Err(e);
                },
            }
            self.advance();
            let mut current_opt = self.current();
            #[verifier::loop_isolation(false)]
            loop
                invariant
                    parse_frame(*old(self), *self),
                    self.index > old(self).index,
                    match current_opt {
                        Some(t) => self.index < self.tokens@.len() && t.data.dv()
                            == self.tokens@[self.index as int].data.dv(),
                        None => self.index >= self.tokens@.len(),
                    },
                decreases self.tokens@.len() - self.index,
            {
                let current = match &current_opt {
                    Some(c) => c,
                    None => {
                        break;
                    },
                };
                if current.data.same_as(&Token::NewLine) {
                    self.advance();
                    current_opt = self.current();
                    continue;
                }
                if !current.data.same_as(&Token::Tab) {
                    break;
                }
                self.advance();
                let node = match self.parse_current() {
                    Ok(n) => n,
                    Err(e) => {
                        return Err(e);
                    },
                };
                end = node.end;
                body.push(node);
                current_opt = self.current();
            }
            Some(body)
        } else {
            None
        };

        Ok(
            Positioned::new(
                Node::FunctionDefinition { name, return_type: data_type, params, body, constructor },
                start,
                end,
            ),
        )
    }

    /// Parse a return statement after its keyword.
    fn parse_return(&mut self, start: Position) -> (r: Result<Positioned<Node>, ParserError>)
        requires
            parser_wf(*old(self)),
        ensures
            parse_frame(*old(self), *final(self)),
            r is Ok ==> final(self).index > old(self).index,
        decreases old(self).tokens@.len() - old(self).index, 7int,
    {
        self.advance();
        let expr = match self.parse_expr() {
            Ok(x) => x,
            Err(e) => {
                return Err(e);
            },
        };
        let end = expr.end;
        Ok(Positioned::new(Node::Return(Box::new(expr)), start, end))
    }

    /// Parse a hoisting directive after its keyword: a quoted path.
    fn parse_import(&mut self, start: Position) -> (r: Result<Positioned<Node>, ParserError>)
        requires
            parser_wf(*old(self)),
        ensures
            parse_frame(*old(self), *final(self)),
            r is Ok ==> final(self).index > old(self).index,
        decreases old(self).tokens@.len() - old(self).index, 7int,
    {
        self.advance();
        let path = match self.expect_string() {
            Ok(p) => p,
            Err(e) => {
                return Err(e);
            },
        };
        let end = path.end;
        self.advance();
        Ok(Positioned::new(Node::Import(path), start, end))
    }

    /// Parse a class declaration after its keyword: a name and an indented
    /// body of members.
    fn parse_class_definition(&mut self, start: Position) -> (r: Result<Positioned<Node>, ParserError>)
        requires
            parser_wf(*old(self)),
        ensures
            parse_frame(*old(self), *final(self)),
            r is Ok ==> final(self).index > old(self).index,
        decreases old(self).tokens@.len() - old(self).index, 7int,
    {
        self.advance();
        let name = match self.expect_identifier() {
            Ok(n) => n,
            Err(e) => {
                return Err(e);
            },
        };
        self.advance();

        let mut body: Vec<Positioned<Node>> = Vec::new();
        let mut end = name.end;

        let mut current_opt = self.current();
        #[verifier::loop_isolation(false)]
        loop
            invariant
                parse_frame(*old(self), *self),
                self.index > old(self).index,
                match current_opt {
                    Some(t) => self.index < self.tokens@.len() && t.data.dv()
                        == self.tokens@[self.index as int].data.dv(),
                    None => self.index >= self.tokens@.len(),
                },
            decreases self.tokens@.len() - self.index,
        {
            let current = match &current_opt {
                Some(c) => c,
                None => {
                    break;
                },
            };
            if current.data.same_as(&Token::NewLine) {
                self.advance();
                current_opt = self.current();
                continue;
            }
            if !current.data.same_as(&Token::Tab) {
                break;
            }
            self.advance();
            let node = match self.parse_current() {
                Ok(n) => n,
                Err(e) => {
                    return Err(e);
                },
            };
            end = node.end;
            body.push(node);
            current_opt = self.current();
        }

        Ok(Positioned::new(Node::ClassDefinition { name, body }, start, end))
    }

    /// Dispatch on a keyword at statement position.
    fn handle_keyword(&mut self, keyword: Positioned<Keyword>) -> (r: Result<Positioned<Node>, ParserError>)
        requires
            parser_wf(*old(self)),
        ensures
            parse_frame(*old(self), *final(self)),
            r is Ok ==> final(self).index > old(self).index,
        decreases old(self).tokens@.len() - old(self).index, 8int,
    {
        match keyword.data {
            Keyword::Fn => self.parse_function_definition(keyword.start, false, false),
            Keyword::Const => {
                let res = match self.parse_variable_definition(keyword.convert(VarType::Constant)) {
                    Ok(n) => n,
                    Err(e) => {
                        return Err(e);
                    },
                };
                match self.expect_end_of_statement() {
                    Ok(_) => {},
                    Err(e) => {
                        return Err(e);
                    },
                }
                self.advance();
                Ok(res)
            },
            Keyword::Var => {
                let res = match self.parse_variable_definition(keyword.convert(VarType::Variable)) {
                    Ok(n) => n,
                    Err(e) => {
                        return Err(e);
                    },
                };
                match self.expect_end_of_statement() {
                    Ok(_) => {},
                    Err(e) => {
                        return Err(e);
                    },
                }
                self.advance();
                Ok(res)
            },
            Keyword::Return => {
                let res = match self.parse_return(keyword.start) {
                    Ok(n) => n,
                    Err(e) => {
                        return Err(e);
                    },
                };
                match self.expect_end_of_statement() {
                    Ok(_) => {},
                    Err(e) => {
                        return Err(e);
                    },
                }
                self.advance();
                Ok(res)
            },
            Keyword::External => {
                let start = keyword.start;
                self.advance();
                match self.expect_current(
                    Some(Token::Keyword(Keyword::Fn)),
                    Some(String::from_str("fn")),
                ) {
                    Ok(_) => {},
                    Err(e) => {
                        return Err(e);
                    },
                }
                self.parse_function_definition(start, true, false)
            },
            Keyword::Import => {
                let res = match self.parse_import(keyword.start) {
                    Ok(n) => n,
                    Err(e) => {
                        return Err(e);
                    },
                };
                match self.expect_end_of_statement() {
                    Ok(_) => {},
                    Err(e) => {
                        return Err(e);
                    },
                }
                self.advance();
                Ok(res)
            },
            Keyword::Class => self.parse_class_definition(keyword.start),
            Keyword::This => self.parse_expr(),
            Keyword::New => self.parse_function_definition(keyword.start, false, true),
        }
    }

    /// Parse one statement at the cursor.
    fn parse_current(&mut self) -> (r: Result<Positioned<Node>, ParserError>)
        requires
            parser_wf(*old(self)),
        ensures
            parse_frame(*old(self), *final(self)),
            r is Ok ==> final(self).index > old(self).index,
        decreases old(self).tokens@.len() - old(self).index, 9int,
    {
        let current = self.current();
        match current {
            Some(current) => match &current.data {
                Token::Decimal(_) | Token::Text(_) | Token::Identifier(_) => {
                    let res = match self.parse_expr() {
                        Ok(n) => n,
                        Err(e) => {
                            return Err(e);
                        },
                    };
                    match self.expect_end_of_statement() {
                        Ok(_) => {},
                        Err(e) => {
                            return Err(e);
                        },
                    }
                    self.advance();
                    Ok(res)
                },
                Token::Keyword(keyword) => {
                    let k = *keyword;
                    self.handle_keyword(current.convert(k))
                },
                Token::NewLine | Token::Tab => {
                    self.advance();
                    self.parse_current()
                },
                _ => Err(ParserError::UnexpectedToken(current, None)),
            },
            None => Err(ParserError::UnexpectedEOF(None)),
        }
    }

    /// Parse the whole token sequence into the top-level node sequence.
    /// The tokens and the source are untouched; parsing terminates on
    /// every input and stops at the first failure.
    #[verifier::loop_isolation(false)]
    pub fn parse(&mut self) -> (r: Result<Vec<Positioned<Node>>, ParserError>)
        requires
            parser_wf(*old(self)),
        ensures
            parser_wf(*final(self)),
            final(self).tokens == old(self).tokens,
            final(self).src == old(self).src,
    {
        let mut ast: Vec<Positioned<Node>> = Vec::new();

        loop
            invariant
                parse_frame(*old(self), *self),
            decreases self.tokens@.len() - self.index,
        {
            if self.index >= self.tokens.len() {
                break;
            }
            let skip = match self.current() {
                Some(t) => t.data.same_as(&Token::NewLine) || t.data.same_as(&Token::Tab),
                None => false,
            };
            if skip {
                self.advance();
                continue;
            }
            match self.parse_current() {
                Ok(node) => {
                    ast.push(node);
                },
                Err(e) => {
                    return Err(e);
                },
            }
        }

        Ok(ast)
    }
}

} // verus!
