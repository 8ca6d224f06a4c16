//! The tokens that the lexer produces and the parser consumes.

use vstd::prelude::*;
use vstd::string::StringExecFns;
use crate::text::{push_char, str_eq};

verus! {

/// The language's reserved words.
#[derive(Clone, Copy, PartialEq, Eq, Structural, Debug)]
pub enum Keyword {
    Fn,
    Const,
    Var,
    Return,
    External,
    Import,
    Class,
    This,
    New,
}

/// The keyword that `s` spells, if any.
pub open spec fn keyword_of(s: Seq<char>) -> Option<Keyword> {
    if s == "fn"@ {
        Some(Keyword::Fn)
    } else if s == "const"@ {
        Some(Keyword::Const)
    } else if s == "var"@ {
        Some(Keyword::Var)
    } else if s == "return"@ {
        Some(Keyword::Return)
    } else if s == "external"@ {
        Some(Keyword::External)
    } else if s == "import"@ {
        Some(Keyword::Import)
    } else if s == "class"@ {
        Some(Keyword::Class)
    } else if s == "self"@ {
        Some(Keyword::This)
    } else if s == "new"@ {
        Some(Keyword::New)
    } else {
        None
    }
}

/// How a keyword is spelled in source text.
pub open spec fn keyword_text(k: Keyword) -> Seq<char> {
    match k {
        Keyword::Fn => "fn"@,
        Keyword::Const => "const"@,
        Keyword::Var => "var"@,
        Keyword::Return => "return"@,
        Keyword::External => "external"@,
        Keyword::Import => "import"@,
        Keyword::Class => "class"@,
        Keyword::This => "self"@,
        Keyword::New => "new"@,
    }
}

impl Keyword {
    /// The keyword that `text` spells, if any.
    pub fn from_string(text: &str) -> (r: Option<Keyword>)
        ensures
            r == keyword_of(text@),
    {
        if str_eq(text, "fn") {
            Some(Keyword::Fn)
        } else if str_eq(text, "const") {
            Some(Keyword::Const)
        } else if str_eq(text, "var") {
            Some(Keyword::Var)
        } else if str_eq(text, "return") {
            Some(Keyword::Return)
        } else if str_eq(text, "external") {
            Some(Keyword::External)
        } else if str_eq(text, "import") {
            Some(Keyword::Import)
        } else if str_eq(text, "class") {
            Some(Keyword::Class)
        } else if str_eq(text, "self") {
            Some(Keyword::This)
        } else if str_eq(text, "new") {
            Some(Keyword::New)
        } else {
            None
        }
    }

    /// This keyword's source spelling.
    pub fn spelling(&self) -> (r: String)
        ensures
            r@ == keyword_text(*self),
    {
        match self {
            Keyword::Fn => String::from_str("fn"),
            Keyword::Const => String::from_str("const"),
            Keyword::Var => String::from_str("var"),
            Keyword::Return => String::from_str("return"),
            Keyword::External => String::from_str("external"),
            Keyword::Import => String::from_str("import"),
            Keyword::Class => String::from_str("class"),
            Keyword::This => String::from_str("self"),
            Keyword::New => String::from_str("new"),
        }
    }
}

/// One token of source text.
pub enum Token {
    Decimal(String),
    Text(String),
    Identifier(String),
    Keyword(Keyword),
    Plus,
    Dash,
    Star,
    Slash,
    Equal,
    Colon,
    Comma,
    Dot,
    LeftParenthesis,
    RightParenthesis,
    RightDoubleArrow,
    NewLine,
    Tab,
}

/// The mathematical value of a token.
pub enum TokenV {
    Decimal(Seq<char>),
    Text(Seq<char>),
    Identifier(Seq<char>),
    Keyword(Keyword),
    Plus,
    Dash,
    Star,
    Slash,
    Equal,
    Colon,
    Comma,
    Dot,
    LeftParenthesis,
    RightParenthesis,
    RightDoubleArrow,
    NewLine,
    Tab,
}

impl Token {
    /// The mathematical value of this token.
    pub open spec fn dv(self) -> TokenV {
        match self {
            Token::Decimal(s) => TokenV::Decimal(s@),
            Token::Text(s) => TokenV::Text(s@),
            Token::Identifier(s) => TokenV::Identifier(s@),
            Token::Keyword(k) => TokenV::Keyword(k),
            Token::Plus => TokenV::Plus,
            Token::Dash => TokenV::Dash,
            Token::Star => TokenV::Star,
            Token::Slash => TokenV::Slash,
            Token::Equal => TokenV::Equal,
            Token::Colon => TokenV::Colon,
            Token::Comma => TokenV::Comma,
            Token::Dot => TokenV::Dot,
            Token::LeftParenthesis => TokenV::LeftParenthesis,
            Token::RightParenthesis => TokenV::RightParenthesis,
            Token::RightDoubleArrow => TokenV::RightDoubleArrow,
            Token::NewLine => TokenV::NewLine,
            Token::Tab => TokenV::Tab,
        }
    }

    /// An exact copy of this token.
    pub fn duplicate(&self) -> (r: Token)
        ensures
            r.dv() == self.dv(),
    {
        match self {
            Token::Decimal(s) => Token::Decimal(s.clone()),
            Token::Text(s) => Token::Text(s.clone()),
            Token::Identifier(s) => Token::Identifier(s.clone()),
            Token::Keyword(k) => Token::Keyword(*k),
            Token::Plus => Token::Plus,
            Token::Dash => Token::Dash,
            Token::Star => Token::Star,
            Token::Slash => Token::Slash,
            Token::Equal => Token::Equal,
            Token::Colon => Token::Colon,
            Token::Comma => Token::Comma,
            Token::Dot => Token::Dot,
            Token::LeftParenthesis => Token::LeftParenthesis,
            Token::RightParenthesis => Token::RightParenthesis,
            Token::RightDoubleArrow => Token::RightDoubleArrow,
            Token::NewLine => Token::NewLine,
            Token::Tab => Token::Tab,
        }
    }

    /// Whether two tokens carry the same value.
    pub fn same_as(&self, other: &Token) -> (r: bool)
        ensures
            r == (self.dv() == other.dv()),
    {
        match (self, other) {
            (Token::Decimal(a), Token::Decimal(b)) => str_eq(a.as_str(), b.as_str()),
            (Token::Text(a), Token::Text(b)) => str_eq(a.as_str(), b.as_str()),
            (Token::Identifier(a), Token::Identifier(b)) => str_eq(a.as_str(), b.as_str()),
            (Token::Keyword(a), Token::Keyword(b)) => a == b,
            (Token::Plus, Token::Plus) => true,
            (Token::Dash, Token::Dash) => true,
            (Token::Star, Token::Star) => true,
            (Token::Slash, Token::Slash) => true,
            (Token::Equal, Token::Equal) => true,
            (Token::Colon, Token::Colon) => true,
            (Token::Comma, Token::Comma) => true,
            (Token::Dot, Token::Dot) => true,
            (Token::LeftParenthesis, Token::LeftParenthesis) => true,
            (Token::RightParenthesis, Token::RightParenthesis) => true,
            (Token::RightDoubleArrow, Token::RightDoubleArrow) => true,
            (Token::NewLine, Token::NewLine) => true,
            (Token::Tab, Token::Tab) => true,
            _ => false,
        }
    }

    /// A readable rendering of this token, as diagnostics quote it.
    pub fn to_text(&self) -> (r: String)
        ensures
            r@ == token_text(self.dv()),
    {
        match self {
            Token::Decimal(s) => s.clone(),
            Token::Text(s) => {
                let mut out = String::new();
                push_char(&mut out, '"');
                out.append(s.as_str());
                push_char(&mut out, '"');
                out
            },
            Token::Identifier(s) => s.clone(),
            Token::Keyword(k) => {
                let mut out = String::from_str("Keyword(");
                out.append(k.spelling().as_str());
                push_char(&mut out, ')');
                out
            },
            Token::Plus => String::from_str("+"),
            Token::Dash => String::from_str("-"),
            Token::Star => String::from_str("*"),
            Token::Slash => String::from_str("/"),
            Token::Equal => String::from_str("="),
            Token::Colon => String::from_str(":"),
            Token::Comma => String::from_str(","),
            Token::Dot => String::from_str("."),
            Token::LeftParenthesis => String::from_str("("),
            Token::RightParenthesis => String::from_str(")"),
            Token::RightDoubleArrow => String::from_str("=>"),
            Token::NewLine => String::from_str("NewLine"),
            Token::Tab => String::from_str("Tab"),
        }
    }
}

/// How a token is rendered when diagnostics quote it.
pub open spec fn token_text(t: TokenV) -> Seq<char> {
    match t {
        TokenV::Decimal(s) => s,
        TokenV::Text(s) => seq!['"'] + s + seq!['"'],
        TokenV::Identifier(s) => s,
        TokenV::Keyword(k) => "Keyword("@ + keyword_text(k) + seq![')'],
        TokenV::Plus => "+"@,
        TokenV::Dash => "-"@,
        TokenV::Star => "*"@,
        TokenV::Slash => "/"@,
        TokenV::Equal => "="@,
        TokenV::Colon => ":"@,
        TokenV::Comma => ","@,
        TokenV::Dot => "."@,
        TokenV::LeftParenthesis => "("@,
        TokenV::RightParenthesis => ")"@,
        TokenV::RightDoubleArrow => "=>"@,
        TokenV::NewLine => "NewLine"@,
        TokenV::Tab => "Tab"@,
    }
}

} // verus!
