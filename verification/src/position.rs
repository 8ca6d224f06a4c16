//! Source positions and position-tagged values, used by every stage for
//! diagnostics.

use vstd::prelude::*;
use crate::text::{dec_str, push_char, usize_text};

verus! {

/// A cursor into a source text: `index` counts characters from the start of
/// the text, `line` counts lines from 1, `column` counts display columns on
/// the current line (a tab is four columns wide) and `column_index` counts
/// characters on the current line.
#[derive(Clone, Copy, PartialEq, Eq, Structural, Debug)]
pub struct Position {
    pub index: usize,
    pub column: usize,
    pub column_index: usize,
    pub line: usize,
}

impl Default for Position {
    /// The position of the very first character of a text.
    fn default() -> (r: Self)
        ensures
            r == Position::start(),
    {
        Position { index: 0, column: 0, column_index: 0, line: 1 }
    }
}

impl Position {
    /// The position of the very first character of a text.
    pub open spec fn start() -> Position {
        Position { index: 0, column: 0, column_index: 0, line: 1 }
    }

    /// The position one step past `self`, where the step consumed `chr`.
    pub open spec fn advanced(self, chr: char) -> Position {
        if chr == '\n' {
            Position {
                index: (self.index + 1) as usize,
                column: 0,
                column_index: 0,
                line: (self.line + 1) as usize,
            }
        } else if chr == '\t' {
            Position {
                index: (self.index + 1) as usize,
                column: (self.column + 4) as usize,
                column_index: (self.column_index + 1) as usize,
                line: self.line,
            }
        } else {
            Position {
                index: (self.index + 1) as usize,
                column: (self.column + 1) as usize,
                column_index: (self.column_index + 1) as usize,
                line: self.line,
            }
        }
    }

    /// Move the cursor one character forward, consuming `chr`.
    pub fn advance(&mut self, chr: char)
        requires
            old(self).index < usize::MAX,
            old(self).column + 4 <= usize::MAX,
            old(self).column_index < usize::MAX,
            old(self).line < usize::MAX,
        ensures
            *final(self) == old(self).advanced(chr),
    {
        if chr == '\n' {
            self.line = self.line + 1;
            self.column = 0;
            self.column_index = 0;
        } else if chr == '\t' {
            self.column = self.column + 4;
            self.column_index = self.column_index + 1;
        } else {
            self.column = self.column + 1;
            self.column_index = self.column_index + 1;
        }
        self.index = self.index + 1;
    }
}

/// A value of any kind together with the source span it came from.
#[derive(Clone, Copy)]
pub struct Positioned<T> {
    pub start: Position,
    pub end: Position,
    pub data: T,
}

impl<T> Positioned<T> {
    /// Tag `data` with the span `start..end`.
    pub fn new(data: T, start: Position, end: Position) -> (r: Positioned<T>)
        ensures
            r.start == start,
            r.end == end,
            r.data == data,
    {
        Positioned { start, end, data }
    }

    /// Keep the span of `self` but replace the carried value by `data`.
    pub fn convert<U>(&self, data: U) -> (r: Positioned<U>)
        ensures
            r.start == self.start,
            r.end == self.end,
            r.data == data,
    {
        Positioned { start: self.start, end: self.end, data }
    }
}


impl Position {
    /// The `line:column` rendering of this position, as diagnostics quote
    /// it.
    pub fn to_text(&self) -> (r: String)
        ensures
            r@ == dec_str(self.line as nat) + seq![':'] + dec_str(self.column as nat),
    {
        let mut out = usize_text(self.line);
        push_char(&mut out, ':');
        out.append(usize_text(self.column).as_str());
        out
    }
}

impl Positioned<()> {
    /// A caret-annotated excerpt of `src` for this span: each source line
    /// the span touches, followed by a line of carets under the spanned
    /// columns. Tabs are widened to four spaces, as the position counters
    /// count them. A span that reaches outside the text yields as much of
    /// the excerpt as exists.
    pub fn arrow_message(&self, src: &str) -> (r: String)
    {
        let chars = crate::text::chars_vec(src);
        let n = chars.len();
        let mut out = String::new();

        // Find the start of the line `self.start.line` (1-based).
        let mut line_no: usize = 1;
        let mut i: usize = 0;
        while i < n && line_no < self.start.line
            invariant
                n == chars@.len(),
                i <= n,
                line_no >= 1,
            decreases n - i,
        {
            if chars[i] == '\n' {
                if line_no < usize::MAX {
                    line_no = line_no + 1;
                }
            }
            i = i + 1;
        }

        // Render each line the span touches, with its caret line.
        let mut current_line: usize = line_no;
        while i < n && current_line <= self.end.line
            invariant
                n == chars@.len(),
                i <= n,
            decreases n - i,
        {
            // Copy one line, widening tabs, and measure its width.
            let ghost i0 = i;
            let mut width: usize = 0;
            let line_start_col: usize = if current_line == self.start.line {
                self.start.column
            } else {
                0
            };
            while i < n && chars[i] != '\n'
                invariant
                    n == chars@.len(),
                    i0 <= i <= n,
                decreases n - i,
            {
                if chars[i] == '\t' {
                    out.append("    ");
                    if width <= usize::MAX - 4 {
                        width = width + 4;
                    }
                } else {
                    push_char(&mut out, chars[i]);
                    if width < usize::MAX {
                        width = width + 1;
                    }
                }
                i = i + 1;
            }
            push_char(&mut out, '\n');

            // The caret line: spaces up to the span, carets across it.
            let caret_end: usize = if current_line == self.end.line {
                if self.end.column < width {
                    self.end.column
                } else {
                    width
                }
            } else {
                width
            };
            let mut col: usize = 0;
            while col < caret_end
                invariant
                    col <= caret_end,
                decreases caret_end - col,
            {
                if col < line_start_col {
                    push_char(&mut out, ' ');
                } else {
                    push_char(&mut out, '^');
                }
                col = col + 1;
            }
            if i >= n {
                break;
            }
            i = i + 1;  // step over the line break
            if current_line >= self.end.line {
                break;
            }
            if current_line < usize::MAX {
                current_line = current_line + 1;
            }
            if current_line <= self.end.line && i < n {
                push_char(&mut out, '\n');
            }
        }
        out
    }
}

} // verus!
