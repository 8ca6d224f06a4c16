//! The lexer: turns raw source text into a flat sequence of positioned
//! tokens. It is a collaborator of the core checker; its promise here is
//! that it never fails except on the two declared errors, never touches
//! the source it was given, and consumes the whole text when it succeeds.

use vstd::prelude::*;
use vstd::string::StringExecFns;
use crate::file::SourceFile;
use crate::position::{Position, Positioned};
use crate::text::{chars_vec, push_char};
use crate::token::{Keyword, Token};

verus! {

/// A lexing failure: the text ended inside a quoted literal, or a
/// character no token may start with.
pub enum LexerError {
    UnexpectedEOF,
    UnexpectedChar(Positioned<char>),
}

impl LexerError {
    /// A human-readable message for this failure.
    pub fn message(&self, src: &SourceFile) -> (r: String)
        ensures
            self is UnexpectedEOF ==> r@ == "[Lexer]: Unexpected EOF."@,
    {
        match self {
            LexerError::UnexpectedEOF => String::from_str("[Lexer]: Unexpected EOF."),
            LexerError::UnexpectedChar(chr) => {
                let mut out = String::from_str("[Lexer]: Unexpected char '");
                push_char(&mut out, chr.data);
                out.append("' at ");
                out.append(crate::text::usize_text(chr.start.line).as_str());
                push_char(&mut out, ':');
                out.append(crate::text::usize_text(chr.start.column).as_str());
                out.append(" in ");
                out.append(src.name.as_str());
                out
            },
        }
    }
}

/// Whether `c` is a decimal digit.
pub open spec fn is_digit(c: char) -> bool {
    48 <= c as u32 <= 57
}

/// Whether `c` is an ASCII letter.
pub open spec fn is_letter(c: char) -> bool {
    (65 <= c as u32 <= 90) || (97 <= c as u32 <= 122)
}

/// The lexer's working state: the source, its characters, and the cursor.
pub struct Lexer {
    pub src: SourceFile,
    pub chars: Vec<char>,
    pub pos: Position,
}

/// The cursor stays inside the text and its counters stay small enough
/// that stepping can never overflow.
pub open spec fn lexer_wf(l: Lexer) -> bool {
    &&& l.pos.index <= l.chars@.len()
    &&& l.pos.column <= 4 * l.pos.index
    &&& l.pos.column_index <= l.pos.index
    &&& l.pos.line <= l.pos.index + 1
    &&& 8 * l.chars@.len() <= usize::MAX
}

impl Lexer {
    /// A fresh lexer over `src`, with the cursor at the very first
    /// character.
    pub fn new(src: SourceFile) -> (r: Lexer)
        requires
            8 * src.src@.len() <= usize::MAX,
        ensures
            lexer_wf(r),
            r.src == src,
            r.chars@ == src.src@,
            r.pos == Position::start(),
    {
        let chars = chars_vec(src.src.as_str());
        Lexer { src, chars, pos: Position { index: 0, column: 0, column_index: 0, line: 1 } }
    }

    /// The character under the cursor, or the sentinel at the end.
    fn current(&self) -> (r: char)
        ensures
            r == (if self.pos.index < self.chars@.len() {
                self.chars@[self.pos.index as int]
            } else {
                '\0'
            }),
    {
        if self.pos.index < self.chars.len() {
            self.chars[self.pos.index]
        } else {
            '\0'
        }
    }

    /// The character `x` places past the cursor, or the sentinel.
    fn peek(&self, x: usize) -> (r: char)
        requires
            self.pos.index + x <= usize::MAX,
        ensures
            r == (if self.pos.index + x < self.chars@.len() {
                self.chars@[self.pos.index + x]
            } else {
                '\0'
            }),
    {
        if self.pos.index + x < self.chars.len() {
            self.chars[self.pos.index + x]
        } else {
            '\0'
        }
    }

    /// Step the cursor over the character under it; at the end of the text
    /// the cursor stays put.
    fn advance(&mut self)
        requires
            lexer_wf(*old(self)),
        ensures
            lexer_wf(*final(self)),
            final(self).src == old(self).src,
            final(self).chars == old(self).chars,
            old(self).pos.index < old(self).chars@.len() ==> final(self).pos == old(
                self,
            ).pos.advanced(old(self).chars@[old(self).pos.index as int]),
            old(self).pos.index >= old(self).chars@.len() ==> final(self).pos == old(self).pos,
            final(self).pos.index >= old(self).pos.index,
    {
        if self.pos.index < self.chars.len() {
            let c = self.chars[self.pos.index];
            self.pos.advance(c);
        }
    }

    /// A single-character token spanning the character under the cursor.
    fn make_single<T>(&self, data: T) -> (r: Positioned<T>)
        requires
            lexer_wf(*self),
        ensures
            r.start == self.pos,
            r.data == data,
    {
        let start = self.pos;
        let mut end = self.pos;
        end.advance(self.current());
        Positioned::new(data, start, end)
    }

    /// Scan a run of decimal digits into a numeric token.
    #[verifier::loop_isolation(false)]
    fn make_number(&mut self) -> (r: Positioned<Token>)
        requires
            lexer_wf(*old(self)),
        ensures
            lexer_wf(*final(self)),
            final(self).src == old(self).src,
            final(self).chars == old(self).chars,
            final(self).pos.index >= old(self).pos.index,
            (old(self).pos.index < old(self).chars@.len() && is_digit(
                old(self).chars@[old(self).pos.index as int],
            )) ==> final(self).pos.index > old(self).pos.index,
            r.data.dv() matches crate::token::TokenV::Decimal(s) && s == old(self).chars@.subrange(
                old(self).pos.index as int,
                final(self).pos.index as int,
            ),
    {
        let mut buf = String::new();
        let start = self.pos;
        let ghost i0 = self.pos.index as int;
        proof {
            assert(buf@ =~= self.chars@.subrange(i0, i0));
        }
        while self.pos.index < self.chars.len() && (self.chars[self.pos.index] as u32) >= 48 && (
        self.chars[self.pos.index] as u32) <= 57
            invariant
                lexer_wf(*self),
                self.src == old(self).src,
                self.chars == old(self).chars,
                self.pos.index >= old(self).pos.index,
                buf@ == self.chars@.subrange(i0, self.pos.index as int),
            decreases self.chars@.len() - self.pos.index,
        {
            let c = self.chars[self.pos.index];
            push_char(&mut buf, c);
            self.advance();
            proof {
                assert(buf@ =~= self.chars@.subrange(i0, self.pos.index as int));
            }
        }
        let end = self.pos;
        Positioned::new(Token::Decimal(buf), start, end)
    }

    /// Scan an identifier — a letter followed by letters, digits and
    /// underscores — or a keyword token.
    #[verifier::loop_isolation(false)]
    fn make_identifier(&mut self) -> (r: Positioned<Token>)
        requires
            lexer_wf(*old(self)),
        ensures
            lexer_wf(*final(self)),
            final(self).src == old(self).src,
            final(self).chars == old(self).chars,
            final(self).pos.index >= old(self).pos.index,
            (old(self).pos.index < old(self).chars@.len() && is_letter(
                old(self).chars@[old(self).pos.index as int],
            )) ==> final(self).pos.index > old(self).pos.index,
            ({
                let word = old(self).chars@.subrange(
                    old(self).pos.index as int,
                    final(self).pos.index as int,
                );
                match crate::token::keyword_of(word) {
                    Some(k) => r.data.dv() == crate::token::TokenV::Keyword(k),
                    None => r.data.dv() == crate::token::TokenV::Identifier(word),
                }
            }),
    {
        let mut buf = String::new();
        let start = self.pos;
        let ghost i0 = self.pos.index as int;
        proof {
            assert(buf@ =~= self.chars@.subrange(i0, i0));
        }
        while self.pos.index < self.chars.len() && (((self.chars[self.pos.index] as u32) >= 65 && (
        self.chars[self.pos.index] as u32) <= 90) || ((self.chars[self.pos.index] as u32) >= 97 && (
        self.chars[self.pos.index] as u32) <= 122) || ((self.chars[self.pos.index] as u32) >= 48 && (
        self.chars[self.pos.index] as u32) <= 57) || self.chars[self.pos.index] == '_')
            invariant
                lexer_wf(*self),
                self.src == old(self).src,
                self.chars == old(self).chars,
                self.pos.index >= old(self).pos.index,
                buf@ == self.chars@.subrange(i0, self.pos.index as int),
            decreases self.chars@.len() - self.pos.index,
        {
            let c = self.chars[self.pos.index];
            push_char(&mut buf, c);
            self.advance();
            proof {
                assert(buf@ =~= self.chars@.subrange(i0, self.pos.index as int));
            }
        }
        let end = self.pos;
        let token = match Keyword::from_string(buf.as_str()) {
            Some(keyword) => Token::Keyword(keyword),
            None => Token::Identifier(buf),
        };
        Positioned::new(token, start, end)
    }

    /// Scan a quoted literal; the text ending before the closing quote is
    /// an error.
    #[verifier::loop_isolation(false)]
    fn make_string(&mut self) -> (r: Result<Positioned<Token>, LexerError>)
        requires
            lexer_wf(*old(self)),
        ensures
            lexer_wf(*final(self)),
            final(self).src == old(self).src,
            final(self).chars == old(self).chars,
            final(self).pos.index >= old(self).pos.index,
            r is Ok ==> final(self).pos.index > old(self).pos.index,
            r matches Ok(t) ==> t.data.dv() is Text,
    {
        let mut buf = String::new();
        let start = self.pos;
        self.advance();
        loop
            invariant
                lexer_wf(*self),
                self.src == old(self).src,
                self.chars == old(self).chars,
                self.pos.index >= old(self).pos.index,
            decreases self.chars@.len() - self.pos.index,
        {
            let c = self.current();
            if c == '"' {
                break;
            }
            if self.pos.index >= self.chars.len() {
                return Err(LexerError::UnexpectedEOF);
            }
            push_char(&mut buf, c);
            self.advance();
        }
        self.advance();
        let end = self.pos;
        if end.index > start.index {
            Ok(Positioned::new(Token::Text(buf), start, end))
        } else {
            Err(LexerError::UnexpectedEOF)
        }
    }

    /// Turn the whole text into tokens. On success the entire input has
    /// been consumed; the source handle is never touched.
    pub fn tokenize(&mut self) -> (r: Result<Vec<Positioned<Token>>, LexerError>)
        requires
            lexer_wf(*old(self)),
        ensures
            lexer_wf(*final(self)),
            final(self).src == old(self).src,
            final(self).chars == old(self).chars,
            r is Ok ==> final(self).pos.index == final(self).chars@.len(),
    {
        let mut tokens: Vec<Positioned<Token>> = Vec::new();
        loop
            invariant_except_break
                lexer_wf(*self),
                self.src == old(self).src,
                self.chars == old(self).chars,
            ensures
                lexer_wf(*self),
                self.src == old(self).src,
                self.chars == old(self).chars,
                self.pos.index == self.chars@.len(),
            decreases self.chars@.len() - self.pos.index,
        {
            let mut current = self.current();
            let ghost it0 = self.pos.index;

            let mut space_count: usize = 0;
            let mut space_start = self.pos;
            while current == ' '
                invariant
                    lexer_wf(*self),
                    self.src == old(self).src,
                    self.chars == old(self).chars,
                    self.pos.index >= it0,
                    space_count <= 3,
                    current == (if self.pos.index < self.chars@.len() {
                        self.chars@[self.pos.index as int]
                    } else {
                        '\0'
                    }),
                decreases self.chars@.len() - self.pos.index,
            {
                space_count = space_count + 1;
                if space_count == 1 {
                    space_start = self.pos;
                } else if space_count == 4 {
                    space_count = 0;
                    let mut end = self.pos;
                    end.advance(' ');
                    tokens.push(Positioned::new(Token::Tab, space_start, end));
                    space_start = self.pos;
                }
                self.advance();
                current = self.current();
            }

            let u = current as u32;
            if 48 <= u && u <= 57 {
                let t = self.make_number();
                tokens.push(t);
                continue;
            }
            if (65 <= u && u <= 90) || (97 <= u && u <= 122) {
                let t = self.make_identifier();
                tokens.push(t);
                continue;
            }
            if current == '"' {
                match self.make_string() {
                    Ok(t) => {
                        tokens.push(t);
                        continue;
                    },
                    Err(e) => {
                        return Err(e);
                    },
                }
            }
            match current {
                '+' => tokens.push(self.make_single(Token::Plus)),
                '-' => tokens.push(self.make_single(Token::Dash)),
                '*' => tokens.push(self.make_single(Token::Star)),
                '/' => tokens.push(self.make_single(Token::Slash)),
                '(' => tokens.push(self.make_single(Token::LeftParenthesis)),
                ')' => tokens.push(self.make_single(Token::RightParenthesis)),
                ':' => tokens.push(self.make_single(Token::Colon)),
                ',' => tokens.push(self.make_single(Token::Comma)),
                '.' => tokens.push(self.make_single(Token::Dot)),
                '\n' => {
                    let start = self.pos;
                    let mut end = self.pos;
                    end.advance(' ');
                    tokens.push(Positioned::new(Token::NewLine, start, end));
                },
                '\t' => tokens.push(self.make_single(Token::Tab)),
                '=' => {
                    if self.peek(1) == '>' {
                        let start = self.pos;
                        self.advance();
                        let mut end = self.pos;
                        end.advance(self.current());
                        tokens.push(Positioned::new(Token::RightDoubleArrow, start, end));
                    } else {
                        tokens.push(self.make_single(Token::Equal));
                    }
                },
                '#' => {
                    while current != '\n' && current != '\0'
                        invariant
                            lexer_wf(*self),
                            self.src == old(self).src,
                            self.chars == old(self).chars,
                            self.pos.index >= it0,
                            current == (if self.pos.index < self.chars@.len() {
                                self.chars@[self.pos.index as int]
                            } else {
                                '\0'
                            }),
                        decreases self.chars@.len() - self.pos.index,
                    {
                        self.advance();
                        current = self.current();
                    }
                    if current == '\0' && self.pos.index >= self.chars.len() {
                        break;
                    }
                },
                '\0' => {
                    if self.pos.index >= self.chars.len() {
                        break;
                    } else {
                        return Err(LexerError::UnexpectedChar(self.make_single(current)));
                    }
                },
                _ => {
                    return Err(LexerError::UnexpectedChar(self.make_single(current)));
                },
            }
            self.advance();
        }
        Ok(tokens)
    }

    /// Hand the source handle back once lexing is over.
    pub fn take(self) -> (r: SourceFile)
        ensures
            r == self.src,
    {
        self.src
    }
}

} // verus!
