//! The lexical scanner: turns source text into the token sequence the
//! parser consumes.
//!
//! `next_token_spec` is the mathematical statement of the scanner: given the
//! text and a cursor it says which token kind comes next, the exact literal
//! text it carries, and where the cursor lands. `Lexer::next_token` is
//! proved to return exactly that token. Line and column numbers are carried
//! for diagnostics but are not part of the scanner's contract.

use vstd::prelude::*;
use vstd::string::StrSliceExecFns;
use vstd::string::StringExecFns;

use crate::token::{Token, TokenType};

verus! {

/// Whitespace skipped between tokens.
pub open spec fn is_ws(c: char) -> bool {
    c == ' ' || c == '\t' || c == '\r' || c == '\n'
}

/// Characters that may start or continue an identifier.
pub open spec fn is_letter_char(c: char) -> bool {
    ('a' <= c && c <= 'z') || ('A' <= c && c <= 'Z') || c == '_'
}

/// Characters the scanner reads as part of a number. The dot counts as a
/// digit here, so a run of digits may carry a decimal point.
pub open spec fn is_digit_char(c: char) -> bool {
    ('0' <= c && c <= '9') || c == '.'
}

/// Hexadecimal digits.
pub open spec fn is_hex_char(c: char) -> bool {
    ('0' <= c && c <= '9') || ('A' <= c && c <= 'F') || ('a' <= c && c <= 'f')
}

/// The first cursor at or after `i` that does not sit on whitespace.
pub open spec fn skip_ws(s: Seq<char>, i: int) -> int
    decreases s.len() - i,
{
    if 0 <= i < s.len() && is_ws(s[i]) {
        skip_ws(s, i + 1)
    } else {
        i
    }
}

/// The first cursor at or after `i` that does not sit on a digit.
pub open spec fn scan_digits(s: Seq<char>, i: int) -> int
    decreases s.len() - i,
{
    if 0 <= i < s.len() && is_digit_char(s[i]) {
        scan_digits(s, i + 1)
    } else {
        i
    }
}

/// The first cursor at or after `i` that does not sit on an identifier
/// character.
pub open spec fn scan_ident(s: Seq<char>, i: int) -> int
    decreases s.len() - i,
{
    if 0 <= i < s.len() && (is_letter_char(s[i]) || is_digit_char(s[i])) {
        scan_ident(s, i + 1)
    } else {
        i
    }
}

/// The first cursor at or after `i` that does not sit on a hexadecimal
/// digit.
pub open spec fn scan_hex(s: Seq<char>, i: int) -> int
    decreases s.len() - i,
{
    if 0 <= i < s.len() && is_hex_char(s[i]) {
        scan_hex(s, i + 1)
    } else {
        i
    }
}

/// The first cursor at or after `i` that ends a line comment: a carriage
/// return, a line feed, or the end of the text.
pub open spec fn scan_comment(s: Seq<char>, i: int) -> int
    decreases s.len() - i,
{
    if 0 <= i < s.len() && s[i] != '\n' && s[i] != '\r' {
        scan_comment(s, i + 1)
    } else {
        i
    }
}

/// The position of the closing quote of a string literal scanned from `i`:
/// the first quote not preceded by a backslash, or the end of the text.
pub open spec fn scan_string(s: Seq<char>, i: int) -> int
    decreases s.len() - i,
{
    if 0 <= i < s.len() {
        if s[i] == '"' && s[i - 1] != '\\' {
            i
        } else {
            scan_string(s, i + 1)
        }
    } else {
        if i < 0 {
            i
        } else {
            s.len() as int
        }
    }
}

/// The token kind a scanned word denotes: a keyword's kind, or `ILLEGAL`
/// for a word that is no keyword (the scanner then labels it an
/// identifier).
pub open spec fn keyword_kind(w: Seq<char>) -> TokenType {
    if w == "bool"@ {
        TokenType::T_Bool
    } else if w == "break"@ {
        TokenType::T_Break
    } else if w == "char"@ {
        TokenType::T_Char
    } else if w == "continue"@ {
        TokenType::T_Continue
    } else if w == "else"@ {
        TokenType::T_Else
    } else if w == "false"@ {
        TokenType::T_False
    } else if w == "for"@ {
        TokenType::T_For
    } else if w == "if"@ {
        TokenType::T_If
    } else if w == "int"@ {
        TokenType::T_Int
    } else if w == "print"@ {
        TokenType::T_Print
    } else if w == "return"@ {
        TokenType::T_Return
    } else if w == "true"@ {
        TokenType::T_True
    } else if w == "semicolon"@ {
        TokenType::T_Semicolon
    } else {
        TokenType::ILLEGAL
    }
}

/// The smaller of two cursors.
pub open spec fn min_int(a: int, b: int) -> int {
    if a < b {
        a
    } else {
        b
    }
}

/// What the scanner produces at cursor `i0` of text `s`: the token kind,
/// the literal it carries, and the cursor after it. Whitespace before the
/// token is skipped; at the end of the text the scanner yields the
/// end-of-input token forever.
pub open spec fn next_token_spec(s: Seq<char>, i0: int) -> (TokenType, Seq<char>, int) {
    let i = skip_ws(s, i0);
    if i >= s.len() {
        (TokenType::End, Seq::empty(), s.len() as int)
    } else {
        let c = s[i];
        if c == '=' {
            if i + 1 < s.len() && s[i + 1] == '=' {
                (TokenType::T_ROp_E, s.subrange(i, i + 2), i + 2)
            } else {
                (TokenType::T_Assign, s.subrange(i, i + 1), i + 1)
            }
        } else if c == '+' {
            if i + 1 < s.len() && is_digit_char(s[i + 1]) {
                let j = scan_digits(s, i + 1);
                (TokenType::T_Decimal, s.subrange(i, j), j)
            } else {
                (TokenType::T_AOp_PL, s.subrange(i, i + 1), i + 1)
            }
        } else if c == '-' {
            if i + 1 < s.len() && is_digit_char(s[i + 1]) {
                let j = scan_digits(s, i + 1);
                (TokenType::T_Decimal, s.subrange(i, j), j)
            } else {
                (TokenType::T_AOp_MN, s.subrange(i, i + 1), i + 1)
            }
        } else if c == '(' {
            (TokenType::T_LP, s.subrange(i, i + 1), i + 1)
        } else if c == ')' {
            (TokenType::T_RP, s.subrange(i, i + 1), i + 1)
        } else if c == '*' {
            (TokenType::T_AOp_ML, s.subrange(i, i + 1), i + 1)
        } else if c == '%' {
            (TokenType::T_AOp_RM, s.subrange(i, i + 1), i + 1)
        } else if c == '/' {
            if i + 1 < s.len() && s[i + 1] == '/' {
                let j = scan_comment(s, i);
                (TokenType::T_Comment, s.subrange(i, j), min_int(j + 1, s.len() as int))
            } else {
                (TokenType::T_AOp_DV, s.subrange(i, i + 1), i + 1)
            }
        } else if c == '!' {
            if i + 1 < s.len() && s[i + 1] == '=' {
                (TokenType::T_ROp_NE, s.subrange(i, i + 2), i + 2)
            } else {
                (TokenType::T_LOp_NOT, s.subrange(i, i + 1), i + 1)
            }
        } else if c == '<' {
            if i + 1 < s.len() && s[i + 1] == '=' {
                (TokenType::T_ROp_LE, s.subrange(i, i + 2), i + 2)
            } else {
                (TokenType::T_ROp_L, s.subrange(i, i + 1), i + 1)
            }
        } else if c == '>' {
            if i + 1 < s.len() && s[i + 1] == '=' {
                (TokenType::T_ROp_GE, s.subrange(i, i + 2), i + 2)
            } else {
                (TokenType::T_ROp_G, s.subrange(i, i + 1), i + 1)
            }
        } else if c == ',' {
            (TokenType::T_Comma, s.subrange(i, i + 1), i + 1)
        } else if c == ';' {
            (TokenType::T_Semicolon, s.subrange(i, i + 1), i + 1)
        } else if c == '{' {
            (TokenType::T_LC, s.subrange(i, i + 1), i + 1)
        } else if c == '}' {
            (TokenType::T_RC, s.subrange(i, i + 1), i + 1)
        } else if c == '[' {
            (TokenType::T_LB, s.subrange(i, i + 1), i + 1)
        } else if c == ']' {
            (TokenType::T_RB, s.subrange(i, i + 1), i + 1)
        } else if c == '&' {
            if i + 1 < s.len() && s[i + 1] == '&' {
                (TokenType::T_LOp_AND, s.subrange(i, i + 2), i + 2)
            } else {
                (TokenType::ILLEGAL, s.subrange(i, i + 1), i + 1)
            }
        } else if c == '|' {
            if i + 1 < s.len() && s[i + 1] == '|' {
                (TokenType::T_LOp_OR, s.subrange(i, i + 2), i + 2)
            } else {
                (TokenType::ILLEGAL, s.subrange(i, i + 1), i + 1)
            }
        } else if c == '"' {
            let j = scan_string(s, i + 1);
            if j < s.len() {
                (TokenType::T_String, s.subrange(i, j + 1), j + 1)
            } else {
                (TokenType::T_String, s.subrange(i, s.len() as int) + "\""@, s.len() as int)
            }
        } else if c == '\'' {
            let p2 = if i + 1 < s.len() && s[i + 1] == '\\' {
                i + 2
            } else {
                i + 1
            };
            let stop = min_int(p2 + 2, s.len() as int);
            (TokenType::T_Character, s.subrange(i, stop), min_int(p2 + 2, s.len() as int))
        } else if c == '0' {
            if i + 1 < s.len() && (s[i + 1] == 'x' || s[i + 1] == 'X') {
                let j = scan_hex(s, i + 2);
                (TokenType::T_Hexadecimal, s.subrange(i, j), j)
            } else {
                let j = scan_digits(s, i);
                (TokenType::T_Decimal, s.subrange(i, j), j)
            }
        } else if '1' <= c && c <= '9' {
            let j = scan_digits(s, i);
            (TokenType::T_Decimal, s.subrange(i, j), j)
        } else if is_letter_char(c) {
            let j = scan_ident(s, i);
            let w = s.subrange(i, j);
            if keyword_kind(w) == TokenType::ILLEGAL {
                (TokenType::T_Id, w, j)
            } else {
                (keyword_kind(w), w, j)
            }
        } else if is_digit_char(c) {
            let j = scan_digits(s, i);
            (TokenType::T_Int, s.subrange(i, j), min_int(j + 1, s.len() as int))
        } else {
            (TokenType::ILLEGAL, s.subrange(i, i + 1), i + 1)
        }
    }
}

/// The scanner over a source text: the text, a cursor into it (as a
/// character index), and the line and column carried into the tokens for
/// diagnostics.
pub struct Lexer {
    input: String,
    length: usize,
    pos: usize,
    line: usize,
    column: usize,
}

impl Lexer {
    /// The text being scanned.
    pub closed spec fn text(&self) -> Seq<char> {
        self.input@
    }

    /// The cursor: the index of the next character to scan.
    pub closed spec fn cursor(&self) -> int {
        self.pos as int
    }

    /// The line counter carried into the tokens.
    pub closed spec fn line_number(&self) -> usize {
        self.line
    }

    /// The column counter carried into the tokens.
    pub closed spec fn column_number(&self) -> usize {
        self.column
    }

    /// The cached length matches the text and the cursor stays inside it.
    pub closed spec fn wf(&self) -> bool {
        &&& self.length == self.input@.len()
        &&& self.pos <= self.length
    }

    /// Builds a scanner over `input`, with the cursor at the first
    /// character of the text, on line one, column zero.
    pub fn new(input: String) -> (l: Lexer)
        ensures
            l.wf(),
            l.text() == input@,
            l.cursor() == 0,
            l.line_number() == 1,
            l.column_number() == 0,
    {
        let length = input.as_str().unicode_len();
        Lexer { input, length, pos: 0, line: 1, column: 0 }
    }

    /// A well-formed scanner's cursor lies inside its text: what `wf`
    /// guarantees, stated for callers of [`Self::next_token`] and
    /// [`lemma_next_token_progress`].
    pub proof fn lemma_cursor_in_text(&self)
        requires
            self.wf(),
        ensures
            0 <= self.cursor() <= self.text().len(),
    {
    }

    /// True once the whole text has been scanned; `next_token` then yields
    /// the end-of-input token.
    pub fn is_end(&self) -> (r: bool)
        requires
            self.wf(),
        ensures
            r == (self.cursor() >= self.text().len()),
    {
        self.pos >= self.length
    }

    /// Whether `ch` may start or continue an identifier.
    fn is_letter(&self, ch: char) -> (r: bool)
        ensures
            r == is_letter_char(ch),
    {
        ('a' <= ch && ch <= 'z') || ('A' <= ch && ch <= 'Z') || ch == '_'
    }

    /// Whether the scanner reads `ch` as part of a number.
    fn is_digit(&self, ch: char) -> (r: bool)
        ensures
            r == is_digit_char(ch),
    {
        ('0' <= ch && ch <= '9') || ch == '.'
    }

    /// The character under the cursor.
    fn current(&self) -> (c: char)
        requires
            self.wf(),
            self.cursor() < self.text().len(),
        ensures
            c == self.text()[self.cursor()],
    {
        self.input.as_str().get_char(self.pos)
    }

    /// The character after the cursor, if any.
    fn peek_char(&self) -> (c: Option<char>)
        requires
            self.wf(),
        ensures
            match c {
                Some(ch) => self.cursor() + 1 < self.text().len() && ch == self.text()[self.cursor()
                    + 1],
                None => self.cursor() + 1 >= self.text().len(),
            },
    {
        if self.pos < usize::MAX && self.pos + 1 < self.length {
            Some(self.input.as_str().get_char(self.pos + 1))
        } else {
            None
        }
    }

    /// Moves the cursor one character forward, keeping the line and column
    /// counters in step.
    fn read_char(&mut self)
        requires
            old(self).wf(),
            old(self).cursor() < old(self).text().len(),
        ensures
            final(self).wf(),
            final(self).text() == old(self).text(),
            final(self).cursor() == old(self).cursor() + 1,
    {
        let c = self.current();
        if c == '\n' {
            if self.line < usize::MAX {
                self.line = self.line + 1;
            }
            self.column = 0;
        } else {
            if self.column < usize::MAX {
                self.column = self.column + 1;
            }
        }
        self.pos = self.pos + 1;
    }

    /// Moves the cursor to `j`, a position at or after it, keeping the line
    /// and column counters in step.
    fn seek(&mut self, j: usize)
        requires
            old(self).wf(),
            old(self).pos <= j <= old(self).length,
        ensures
            final(self).wf(),
            final(self).text() == old(self).text(),
            final(self).cursor() == j,
    {
        while self.pos < j
            invariant
                self.wf(),
                self.pos >= old(self).pos,
                self.text() == old(self).text(),
                self.pos <= j <= self.length,
            decreases j - self.pos,
        {
            self.read_char();
        }
    }

    /// The word scanned from `from` to `to`, as owned text.
    fn slice(&self, from: usize, to: usize) -> (r: String)
        requires
            self.wf(),
            from <= to <= self.length,
        ensures
            r@ == self.text().subrange(from as int, to as int),
    {
        self.input.as_str().substring_char(from, to).to_owned()
    }

    /// Scans and returns the next token: the token `next_token_spec` names
    /// at the cursor, with exactly that literal text, leaving the cursor
    /// exactly where the specification puts it. At the end of the text this
    /// yields the end-of-input token, again and again.
    ///
    /// The token's line and column are the counters after the consumed
    /// characters — an approximate position for diagnostics, deliberately
    /// outside this contract; only their starting values are pinned, by
    /// [`Lexer::new`].
    pub fn next_token(&mut self) -> (t: Token)
        requires
            old(self).wf(),
        ensures
            final(self).wf(),
            final(self).text() == old(self).text(),
            t.token == next_token_spec(old(self).text(), old(self).cursor()).0,
            t.literal@ == next_token_spec(old(self).text(), old(self).cursor()).1,
            final(self).cursor() == next_token_spec(old(self).text(), old(self).cursor()).2,
    {
        let ghost s = self.text();
        self.skip_whitespace();
        if self.pos >= self.length {
            return Token {
                token: TokenType::End,
                literal: String::new(),
                line: self.line,
                column: self.column,
            };
        }
        let c = self.current();
        let start = self.pos;
        let (kind, literal): (TokenType, String) = if c == '=' {
            if self.peek_is('=') {
                self.seek(start + 2);
                (TokenType::T_ROp_E, self.slice(start, start + 2))
            } else {
                self.seek(start + 1);
                (TokenType::T_Assign, self.slice(start, start + 1))
            }
        } else if c == '+' || c == '-' {
            let digit_follows = match self.peek_char() {
                Some(p) => self.is_digit(p),
                None => false,
            };
            if digit_follows {
                self.seek(start + 1);
                self.run_digits();
                let j = self.pos;
                (TokenType::T_Decimal, self.slice(start, j))
            } else {
                self.seek(start + 1);
                let k = if c == '+' {
                    TokenType::T_AOp_PL
                } else {
                    TokenType::T_AOp_MN
                };
                (k, self.slice(start, start + 1))
            }
        } else if c == '(' {
            self.seek(start + 1);
            (TokenType::T_LP, self.slice(start, start + 1))
        } else if c == ')' {
            self.seek(start + 1);
            (TokenType::T_RP, self.slice(start, start + 1))
        } else if c == '*' {
            self.seek(start + 1);
            (TokenType::T_AOp_ML, self.slice(start, start + 1))
        } else if c == '%' {
            self.seek(start + 1);
            (TokenType::T_AOp_RM, self.slice(start, start + 1))
        } else if c == '/' {
            if self.peek_is('/') {
                self.run_comment();
                let j = self.pos;
                let lit = self.slice(start, j);
                if self.pos < self.length {
                    self.read_char();
                }
                (TokenType::T_Comment, lit)
            } else {
                self.seek(start + 1);
                (TokenType::T_AOp_DV, self.slice(start, start + 1))
            }
        } else if c == '!' {
            if self.peek_is('=') {
                self.seek(start + 2);
                (TokenType::T_ROp_NE, self.slice(start, start + 2))
            } else {
                self.seek(start + 1);
                (TokenType::T_LOp_NOT, self.slice(start, start + 1))
            }
        } else if c == '<' {
            if self.peek_is('=') {
                self.seek(start + 2);
                (TokenType::T_ROp_LE, self.slice(start, start + 2))
            } else {
                self.seek(start + 1);
                (TokenType::T_ROp_L, self.slice(start, start + 1))
            }
        } else if c == '>' {
            if self.peek_is('=') {
                self.seek(start + 2);
                (TokenType::T_ROp_GE, self.slice(start, start + 2))
            } else {
                self.seek(start + 1);
                (TokenType::T_ROp_G, self.slice(start, start + 1))
            }
        } else if c == ',' {
            self.seek(start + 1);
            (TokenType::T_Comma, self.slice(start, start + 1))
        } else if c == ';' {
            self.seek(start + 1);
            (TokenType::T_Semicolon, self.slice(start, start + 1))
        } else if c == '{' {
            self.seek(start + 1);
            (TokenType::T_LC, self.slice(start, start + 1))
        } else if c == '}' {
            self.seek(start + 1);
            (TokenType::T_RC, self.slice(start, start + 1))
        } else if c == '[' {
            self.seek(start + 1);
            (TokenType::T_LB, self.slice(start, start + 1))
        } else if c == ']' {
            self.seek(start + 1);
            (TokenType::T_RB, self.slice(start, start + 1))
        } else if c == '&' {
            if self.peek_is('&') {
                self.seek(start + 2);
                (TokenType::T_LOp_AND, self.slice(start, start + 2))
            } else {
                self.seek(start + 1);
                (TokenType::ILLEGAL, self.slice(start, start + 1))
            }
        } else if c == '|' {
            if self.peek_is('|') {
                self.seek(start + 2);
                (TokenType::T_LOp_OR, self.slice(start, start + 2))
            } else {
                self.seek(start + 1);
                (TokenType::ILLEGAL, self.slice(start, start + 1))
            }
        } else if c == '"' {
            self.seek(start + 1);
            self.run_string();
            let j = self.pos;
            if j < self.length {
                self.seek(j + 1);
                (TokenType::T_String, self.slice(start, j + 1))
            } else {
                let mut lit = self.slice(start, j);
                lit.append("\"");
                (TokenType::T_String, lit)
            }
        } else if c == '\'' {
            let p2 = if self.peek_is('\\') {
                start + 2
            } else {
                start + 1
            };
            let stop = if p2 >= self.length || self.length - p2 < 2 {
                self.length
            } else {
                p2 + 2
            };
            self.seek(stop);
            (TokenType::T_Character, self.slice(start, stop))
        } else if c == '0' {
            if self.peek_is('x') || self.peek_is('X') {
                self.seek(start + 2);
                self.run_hex();
                let j = self.pos;
                (TokenType::T_Hexadecimal, self.slice(start, j))
            } else {
                self.run_digits();
                let j = self.pos;
                (TokenType::T_Decimal, self.slice(start, j))
            }
        } else if '1' <= c && c <= '9' {
            self.run_digits();
            let j = self.pos;
            (TokenType::T_Decimal, self.slice(start, j))
        } else if self.is_letter(c) {
            self.run_ident();
            let j = self.pos;
            let lit = self.slice(start, j);
            let k = self.lookup_ident(lit.as_str());
            if k == TokenType::ILLEGAL {
                (TokenType::T_Id, lit)
            } else {
                (k, lit)
            }
        } else if self.is_digit(c) {
            self.run_digits();
            let j = self.pos;
            let lit = self.slice(start, j);
            if self.pos < self.length {
                self.read_char();
            }
            (TokenType::T_Int, lit)
        } else {
            self.seek(start + 1);
            (TokenType::ILLEGAL, self.slice(start, start + 1))
        };
        Token { token: kind, literal, line: self.line, column: self.column }
    }

    /// Whether the character after the cursor is `w`.
    fn peek_is(&self, w: char) -> (r: bool)
        requires
            self.wf(),
        ensures
            r == (self.cursor() + 1 < self.text().len() && self.text()[self.cursor() + 1] == w),
    {
        match self.peek_char() {
            Some(p) => p == w,
            None => false,
        }
    }

    /// Skips the whitespace under the cursor.
    fn skip_whitespace(&mut self)
        requires
            old(self).wf(),
        ensures
            final(self).wf(),
            final(self).text() == old(self).text(),
            final(self).cursor() == skip_ws(old(self).text(), old(self).cursor()),
            final(self).cursor() >= old(self).cursor(),
    {
        loop
            invariant
                self.wf(),
                self.pos >= old(self).pos,
                self.text() == old(self).text(),
                skip_ws(self.text(), self.cursor()) == skip_ws(old(self).text(), old(self).cursor()),
            ensures
                self.wf(),
                self.pos >= old(self).pos,
                self.text() == old(self).text(),
                self.cursor() == skip_ws(old(self).text(), old(self).cursor()),
            decreases self.length - self.pos,
        {
            if self.pos >= self.length {
                break;
            }
            let c = self.current();
            if !(c == ' ' || c == '\t' || c == '\r' || c == '\n') {
                break;
            }
            self.read_char();
        }
    }

    /// Advances the cursor over a run of digits.
    fn run_digits(&mut self)
        requires
            old(self).wf(),
        ensures
            final(self).wf(),
            final(self).text() == old(self).text(),
            final(self).cursor() == scan_digits(old(self).text(), old(self).cursor()),
            final(self).cursor() >= old(self).cursor(),
    {
        loop
            invariant
                self.wf(),
                self.pos >= old(self).pos,
                self.text() == old(self).text(),
                scan_digits(self.text(), self.cursor()) == scan_digits(
                    old(self).text(),
                    old(self).cursor(),
                ),
            ensures
                self.wf(),
                self.pos >= old(self).pos,
                self.text() == old(self).text(),
                self.cursor() == scan_digits(old(self).text(), old(self).cursor()),
            decreases self.length - self.pos,
        {
            if self.pos >= self.length {
                break;
            }
            let c = self.current();
            if !self.is_digit(c) {
                break;
            }
            self.read_char();
        }
    }

    /// Advances the cursor over a run of identifier characters.
    fn run_ident(&mut self)
        requires
            old(self).wf(),
        ensures
            final(self).wf(),
            final(self).text() == old(self).text(),
            final(self).cursor() == scan_ident(old(self).text(), old(self).cursor()),
            final(self).cursor() >= old(self).cursor(),
    {
        loop
            invariant
                self.wf(),
                self.pos >= old(self).pos,
                self.text() == old(self).text(),
                scan_ident(self.text(), self.cursor()) == scan_ident(
                    old(self).text(),
                    old(self).cursor(),
                ),
            ensures
                self.wf(),
                self.pos >= old(self).pos,
                self.text() == old(self).text(),
                self.cursor() == scan_ident(old(self).text(), old(self).cursor()),
            decreases self.length - self.pos,
        {
            if self.pos >= self.length {
                break;
            }
            let c = self.current();
            if !(self.is_letter(c) || self.is_digit(c)) {
                break;
            }
            self.read_char();
        }
    }

    /// Advances the cursor over a run of hexadecimal digits.
    fn run_hex(&mut self)
        requires
            old(self).wf(),
        ensures
            final(self).wf(),
            final(self).text() == old(self).text(),
            final(self).cursor() == scan_hex(old(self).text(), old(self).cursor()),
            final(self).cursor() >= old(self).cursor(),
    {
        loop
            invariant
                self.wf(),
                self.pos >= old(self).pos,
                self.text() == old(self).text(),
                scan_hex(self.text(), self.cursor()) == scan_hex(
                    old(self).text(),
                    old(self).cursor(),
                ),
            ensures
                self.wf(),
                self.pos >= old(self).pos,
                self.text() == old(self).text(),
                self.cursor() == scan_hex(old(self).text(), old(self).cursor()),
            decreases self.length - self.pos,
        {
            if self.pos >= self.length {
                break;
            }
            let c = self.current();
            if !(('0' <= c && c <= '9') || ('A' <= c && c <= 'F') || ('a' <= c && c <= 'f')) {
                break;
            }
            self.read_char();
        }
    }

    /// Advances the cursor to the end of a line comment.
    fn run_comment(&mut self)
        requires
            old(self).wf(),
        ensures
            final(self).wf(),
            final(self).text() == old(self).text(),
            final(self).cursor() == scan_comment(old(self).text(), old(self).cursor()),
            final(self).cursor() >= old(self).cursor(),
    {
        loop
            invariant
                self.wf(),
                self.pos >= old(self).pos,
                self.text() == old(self).text(),
                scan_comment(self.text(), self.cursor()) == scan_comment(
                    old(self).text(),
                    old(self).cursor(),
                ),
            ensures
                self.wf(),
                self.pos >= old(self).pos,
                self.text() == old(self).text(),
                self.cursor() == scan_comment(old(self).text(), old(self).cursor()),
            decreases self.length - self.pos,
        {
            if self.pos >= self.length {
                break;
            }
            let c = self.current();
            if c == '\n' || c == '\r' {
                break;
            }
            self.read_char();
        }
    }

    /// Advances the cursor to the closing quote of a string literal, or to
    /// the end of the text.
    fn run_string(&mut self)
        requires
            old(self).wf(),
            old(self).cursor() >= 1,
        ensures
            final(self).wf(),
            final(self).text() == old(self).text(),
            final(self).cursor() == scan_string(old(self).text(), old(self).cursor()),
            final(self).cursor() >= old(self).cursor(),
    {
        loop
            invariant
                self.wf(),
                self.pos >= old(self).pos,
                self.pos >= 1,
                self.text() == old(self).text(),
                scan_string(self.text(), self.cursor()) == scan_string(
                    old(self).text(),
                    old(self).cursor(),
                ),
            ensures
                self.wf(),
                self.pos >= old(self).pos,
                self.text() == old(self).text(),
                self.cursor() == scan_string(old(self).text(), old(self).cursor()),
            decreases self.length - self.pos,
        {
            if self.pos >= self.length {
                break;
            }
            let c = self.current();
            let prev = self.input.as_str().get_char(self.pos - 1);
            if c == '"' && prev != '\\' {
                break;
            }
            self.read_char();
        }
    }

    /// The keyword kind of `idt`, or `ILLEGAL` when `idt` is no keyword.
    fn lookup_ident(&self, idt: &str) -> (r: TokenType)
        ensures
            r == keyword_kind(idt@),
    {
        if str_eq(idt, "bool") {
            TokenType::T_Bool
        } else if str_eq(idt, "break") {
            TokenType::T_Break
        } else if str_eq(idt, "char") {
            TokenType::T_Char
        } else if str_eq(idt, "continue") {
            TokenType::T_Continue
        } else if str_eq(idt, "else") {
            TokenType::T_Else
        } else if str_eq(idt, "false") {
            TokenType::T_False
        } else if str_eq(idt, "for") {
            TokenType::T_For
        } else if str_eq(idt, "if") {
            TokenType::T_If
        } else if str_eq(idt, "int") {
            TokenType::T_Int
        } else if str_eq(idt, "print") {
            TokenType::T_Print
        } else if str_eq(idt, "return") {
            TokenType::T_Return
        } else if str_eq(idt, "true") {
            TokenType::T_True
        } else if str_eq(idt, "semicolon") {
            TokenType::T_Semicolon
        } else {
            TokenType::ILLEGAL
        }
    }
}

/// Character-by-character string equality, proved against the views.
fn str_eq(a: &str, b: &str) -> (r: bool)
    ensures
        r == (a@ == b@),
{
    let n = a.unicode_len();
    let m = b.unicode_len();
    if n != m {
        return false;
    }
    let mut i: usize = 0;
    while i < n
        invariant
            n == a@.len(),
            n == b@.len(),
            i <= n,
            forall|k: int| 0 <= k < i ==> a@[k] == b@[k],
        decreases n - i,
    {
        if a.get_char(i) != b.get_char(i) {
            return false;
        }
        i = i + 1;
    }
    proof {
        assert(a@ =~= b@);
    }
    true
}

/// The cursor never moves backward: lower bounds for the scan functions.
proof fn lemma_skip_ws_ge(s: Seq<char>, i: int)
    requires
        0 <= i <= s.len(),
    ensures
        i <= skip_ws(s, i) <= s.len(),
    decreases s.len() - i,
{
    if i < s.len() && is_ws(s[i]) {
        lemma_skip_ws_ge(s, i + 1);
    }
}

proof fn lemma_scan_digits_ge(s: Seq<char>, i: int)
    requires
        0 <= i <= s.len(),
    ensures
        i <= scan_digits(s, i) <= s.len(),
    decreases s.len() - i,
{
    if i < s.len() && is_digit_char(s[i]) {
        lemma_scan_digits_ge(s, i + 1);
    }
}

proof fn lemma_scan_ident_ge(s: Seq<char>, i: int)
    requires
        0 <= i <= s.len(),
    ensures
        i <= scan_ident(s, i) <= s.len(),
    decreases s.len() - i,
{
    if i < s.len() && (is_letter_char(s[i]) || is_digit_char(s[i])) {
        lemma_scan_ident_ge(s, i + 1);
    }
}

proof fn lemma_scan_hex_ge(s: Seq<char>, i: int)
    requires
        0 <= i <= s.len(),
    ensures
        i <= scan_hex(s, i) <= s.len(),
    decreases s.len() - i,
{
    if i < s.len() && is_hex_char(s[i]) {
        lemma_scan_hex_ge(s, i + 1);
    }
}

proof fn lemma_scan_comment_ge(s: Seq<char>, i: int)
    requires
        0 <= i <= s.len(),
    ensures
        i <= scan_comment(s, i) <= s.len(),
    decreases s.len() - i,
{
    if i < s.len() && s[i] != '\n' && s[i] != '\r' {
        lemma_scan_comment_ge(s, i + 1);
    }
}

proof fn lemma_scan_string_ge(s: Seq<char>, i: int)
    requires
        0 <= i <= s.len(),
    ensures
        i <= scan_string(s, i) <= s.len(),
    decreases s.len() - i,
{
    if i < s.len() && !(s[i] == '"' && s[i - 1] != '\\') {
        lemma_scan_string_ge(s, i + 1);
    }
}

/// The scanner makes progress: a token other than end-of-input moves the
/// cursor strictly forward, and the end-of-input token parks it at the end
/// of the text.
pub proof fn lemma_next_token_progress(s: Seq<char>, i0: int)
    requires
        0 <= i0 <= s.len(),
    ensures
        ({
            let (k, lit, p) = next_token_spec(s, i0);
            &&& i0 <= p <= s.len()
            &&& (k != TokenType::End ==> p > i0)
            &&& (k == TokenType::End ==> p == s.len())
        }),
{
    lemma_skip_ws_ge(s, i0);
    let i = skip_ws(s, i0);
    if i < s.len() {
        lemma_scan_digits_ge(s, i);
        lemma_scan_digits_ge(s, i + 1);
        lemma_scan_ident_ge(s, i);
        lemma_scan_ident_ge(s, i + 1);
        lemma_scan_comment_ge(s, i);
        lemma_scan_string_ge(s, i + 1);
        if i + 2 <= s.len() {
            lemma_scan_hex_ge(s, i + 2);
        }
    }
}

/// The kinds and literals of the tokens scanned from cursor `i` to the end
/// of the text, line comments dropped, ending with the single end-of-input
/// token.
pub open spec fn token_seq(s: Seq<char>, i: int) -> Seq<(TokenType, Seq<char>)>
    decreases s.len() - i
        when 0 <= i <= s.len()
        via token_seq_decreases
{
    let (k, lit, p) = next_token_spec(s, i);
    if k == TokenType::End {
        seq![(TokenType::End, lit)]
    } else if k == TokenType::T_Comment {
        token_seq(s, p)
    } else {
        seq![(k, lit)] + token_seq(s, p)
    }
}

#[via_fn]
proof fn token_seq_decreases(s: Seq<char>, i: int) {
    lemma_next_token_progress(s, i);
}

/// The kinds and literals of a token sequence.
pub open spec fn kinds_and_literals(ts: Seq<Token>) -> Seq<(TokenType, Seq<char>)> {
    ts.map_values(|t: Token| (t.token, t.literal@))
}

/// Scans the whole text: the tokens of `token_seq`, in order — every token
/// of the text except line comments, closed by exactly one end-of-input
/// token.
pub fn tokenize(input: String) -> (r: Vec<Token>)
    ensures
        kinds_and_literals(r@) == token_seq(input@, 0),
{
    let ghost s = input@;
    let mut lexer = Lexer::new(input);
    let mut out: Vec<Token> = Vec::new();
    loop
        invariant_except_break
            token_seq(s, 0) == kinds_and_literals(out@) + token_seq(s, lexer.cursor()),
        invariant
            lexer.wf(),
            lexer.text() == s,
            0 <= lexer.cursor() <= s.len(),
        ensures
            kinds_and_literals(out@) == token_seq(s, 0),
        decreases s.len() - lexer.cursor(),
    {
        let ghost c0 = lexer.cursor();
        let t = lexer.next_token();
        proof {
            lemma_next_token_progress(s, c0);
        }
        if t.token == TokenType::End {
            out.push(t);
            proof {
                assert(kinds_and_literals(out@) =~= token_seq(s, 0));
            }
            break;
        } else if t.token == TokenType::T_Comment {
        } else {
            out.push(t);
            proof {
                assert(kinds_and_literals(out@) =~= kinds_and_literals(out@.drop_last()) + seq![
                    (t.token, t.literal@),
                ]);
                assert(token_seq(s, 0) =~= kinds_and_literals(out@) + token_seq(
                    s,
                    lexer.cursor(),
                ));
            }
        }
    }
    out
}

} // verus!
