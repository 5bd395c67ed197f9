//! The scanner: source text in, tokens out. It is the mechanical edge of
//! the library — its one guarantee of shape is that the token sequence ends
//! with the end marker — and every lexical error is collected rather than
//! thrown. Comment nesting, string literals and numeric literals follow the
//! scanner's rules below; numerals are converted by the verified numeric
//! parser.
use vstd::prelude::*;

use crate::error::ViskumError;
use crate::numeric::num_parse;
use crate::strings::{string_from_chars, strcat};
use crate::token::{get_keyword, is_alphabetic, is_digit, Token, TokenType};
use crate::value::Literal;

verus! {

/// Relies on `str::chars` and `Iterator::collect`: the characters of the
/// string in order.
#[verifier::external_body]
fn chars_of(s: &str) -> (r: Vec<char>)
    ensures
        r@ == s@,
{
    s.chars().collect()
}

/// The scanner's state: the source characters, the tokens produced so far,
/// the bounds of the lexeme being scanned, and the current line.
pub struct Lexer {
    source: Vec<char>,
    tokens: Vec<Token>,
    start: usize,
    current: usize,
    line: usize,
    line_position: usize,
    errors: Vec<ViskumError>,
}

impl Lexer {
    /// A scanner at the start of the given source text.
    pub fn new(source: String) -> (r: Lexer)
        ensures
            r.inv(),
    {
        Lexer {
            source: chars_of(source.as_str()),
            tokens: Vec::new(),
            start: 0,
            current: 0,
            line: 1,
            line_position: 0,
            errors: Vec::new(),
        }
    }

    /// The cursor stays within the source.
    pub closed spec fn inv(&self) -> bool {
        self.current <= self.source@.len()
    }

    /// The tokens produced so far.
    pub closed spec fn toks(&self) -> Seq<Token> {
        self.tokens@
    }

    /// Ghost image of the lexical diagnostics collected so far.
    pub closed spec fn lex_errs(&self) -> Seq<crate::error::SpecErr> {
        self.errors@.map(|i: int, e: ViskumError| e.model())
    }

    fn is_at_end(&self) -> (r: bool)
        requires
            self.inv(),
        ensures
            r == (self.current as int == self.source@.len()),
    {
        self.current >= self.source.len()
    }

    fn peek(&self) -> (r: Option<char>)
        requires
            self.inv(),
        ensures
            r is Some <==> (self.current as int) < self.source@.len(),
    {
        if self.current < self.source.len() {
            Some(self.source[self.current])
        } else {
            None
        }
    }

    fn peek_next(&self) -> (r: Option<char>)
        requires
            self.inv(),
    {
        if self.current < usize::MAX && self.current + 1 < self.source.len() {
            Some(self.source[self.current + 1])
        } else {
            None
        }
    }

    fn advance(&mut self)
        requires
            old(self).inv(),
        ensures
            final(self).inv(),
            final(self).source == old(self).source,
            final(self).tokens == old(self).tokens,
            final(self).errors == old(self).errors,
            final(self).start == old(self).start,
            (old(self).current as int) < old(self).source@.len() ==> final(self).current == old(
                self,
            ).current + 1,
            old(self).current as int == old(self).source@.len() ==> final(self).current == old(
                self,
            ).current,
            final(self).current >= old(self).current,
    {
        if self.current < self.source.len() {
            if self.line_position < usize::MAX {
                self.line_position = self.line_position + 1;
            }
            self.current = self.current + 1;
        }
    }

    fn increment_line(&mut self)
        requires
            old(self).inv(),
        ensures
            final(self).inv(),
            final(self).source == old(self).source,
            final(self).tokens == old(self).tokens,
            final(self).errors == old(self).errors,
            final(self).start == old(self).start,
            final(self).current == old(self).current,
    {
        if self.line < usize::MAX {
            self.line = self.line + 1;
        }
        self.line_position = 0;
    }

    fn match_char(&mut self, expected: char) -> (r: bool)
        requires
            old(self).inv(),
        ensures
            final(self).inv(),
            final(self).source == old(self).source,
            final(self).tokens == old(self).tokens,
            final(self).errors == old(self).errors,
            final(self).start == old(self).start,
            final(self).current >= old(self).current,
            r ==> final(self).current == old(self).current + 1,
            !r ==> final(self).current == old(self).current,
    {
        if self.current < self.source.len() {
            if self.source[self.current] == expected {
                self.current = self.current + 1;
                if self.line_position < usize::MAX {
                    self.line_position = self.line_position + 1;
                }
                return true;
            }
        }
        false
    }

    /// The source text between two cursor positions, as a string.
    fn text_range(&self, a: usize, b: usize) -> (r: String)
        requires
            self.inv(),
            a <= b <= self.source@.len(),
    {
        let mut v: Vec<char> = Vec::new();
        let mut i: usize = a;
        while i < b
            invariant
                a <= i <= b,
                b <= self.source@.len(),
            decreases b - i,
        {
            v.push(self.source[i]);
            i = i + 1;
        }
        string_from_chars(&v)
    }

    fn add_token(&mut self, ttype: TokenType)
        requires
            old(self).inv(),
            old(self).start <= old(self).current,
        ensures
            final(self).inv(),
            final(self).source == old(self).source,
            final(self).errors == old(self).errors,
            final(self).start == old(self).start,
            final(self).current == old(self).current,
            final(self).tokens@.len() == old(self).tokens@.len() + 1,
    {
        self.add_token_literal(ttype, None)
    }

    fn add_token_literal(&mut self, ttype: TokenType, literal: Option<Literal>)
        requires
            old(self).inv(),
            old(self).start <= old(self).current,
        ensures
            final(self).inv(),
            final(self).source == old(self).source,
            final(self).errors == old(self).errors,
            final(self).start == old(self).start,
            final(self).current == old(self).current,
            final(self).tokens@.len() == old(self).tokens@.len() + 1,
    {
        let lexeme = self.text_range(self.start, self.current);
        let line = self.line;
        self.tokens.push(Token::new(ttype, lexeme, literal, line));
    }

    fn report(&mut self, msg: &str)
        requires
            old(self).inv(),
        ensures
            final(self).inv(),
            final(self).source == old(self).source,
            final(self).tokens == old(self).tokens,
            final(self).start == old(self).start,
            final(self).current == old(self).current,
    {
        let line = self.line;
        let e = ViskumError::new(msg, Token::invalid(Some(line)), "file.vs");
        self.errors.push(e);
    }

    /// Scans a block comment, nesting `/* */` pairs, to its closing `*/`;
    /// an unterminated comment is a diagnostic.
    fn scan_comment(&mut self)
        requires
            old(self).inv(),
        ensures
            final(self).inv(),
            final(self).source == old(self).source,
            final(self).tokens == old(self).tokens,
            final(self).current >= old(self).current,
        decreases old(self).source@.len() - old(self).current,
    {
        loop
            invariant
                self.inv(),
                self.source == old(self).source,
                self.tokens == old(self).tokens,
                self.current >= old(self).current,
            decreases self.source@.len() - self.current,
        {
            match self.peek() {
                Some(c) => {
                    if c == '*' {
                        self.advance();
                        if self.match_char('/') {
                            return ;
                        }
                    } else if c == '/' {
                        self.advance();
                        if self.match_char('*') {
                            self.scan_comment();
                        }
                    } else if c == '\n' {
                        self.advance();
                        self.increment_line();
                    } else {
                        self.advance();
                    }
                },
                None => {
                    self.report("Expected '*/'");
                    return ;
                },
            }
        }
    }

    /// Scans a string literal to its closing quote; an unterminated string
    /// is a diagnostic.
    fn scan_string(&mut self)
        requires
            old(self).inv(),
            old(self).start <= old(self).current,
        ensures
            final(self).inv(),
            final(self).source == old(self).source,
            final(self).current >= old(self).current,
            final(self).start == old(self).start,
    {
        loop
            invariant
                self.inv(),
                self.source == old(self).source,
                self.current >= old(self).current,
                self.start == old(self).start,
            decreases self.source@.len() - self.current,
        {
            match self.peek() {
                Some(c) => {
                    if c == '"' {
                        break;
                    } else if c == '\n' {
                        self.advance();
                        self.increment_line();
                    } else {
                        self.advance();
                    }
                },
                None => {
                    self.report("Unterminated string");
                    return ;
                },
            }
        }
        self.advance();
        let a = if self.start < usize::MAX {
            self.start + 1
        } else {
            self.start
        };
        let b = if self.current > 0 {
            self.current - 1
        } else {
            self.current
        };
        if a <= b && b <= self.source.len() {
            let value = self.text_range(a, b);
            self.add_token_literal(TokenType::Text, Some(Literal::Str(value)));
        } else {
            self.add_token_literal(TokenType::Text, Some(Literal::Str(String::new())));
        }
    }

    /// Scans a numeric literal, with an optional fraction, converting it
    /// with the verified numeric parser; a trailing `!` becomes the
    /// factorial token.
    fn scan_number(&mut self)
        requires
            old(self).inv(),
            old(self).start <= old(self).current,
        ensures
            final(self).inv(),
            final(self).source == old(self).source,
            final(self).current >= old(self).current,
    {
        loop
            invariant
                self.inv(),
                self.source == old(self).source,
                self.current >= old(self).current,
                self.start == old(self).start,
            decreases self.source@.len() - self.current,
        {
            if is_digit(self.peek()) {
                self.advance();
            } else {
                break;
            }
        }
        if self.peek() == Some('.') && is_digit(self.peek_next()) {
            self.advance();
            loop
                invariant
                    self.inv(),
                    self.source == old(self).source,
                    self.current >= old(self).current,
                    self.start == old(self).start,
                decreases self.source@.len() - self.current,
            {
                if is_digit(self.peek()) {
                    self.advance();
                } else {
                    break;
                }
            }
        }
        if self.start <= self.current {
            let value = self.text_range(self.start, self.current);
            match num_parse(value.as_str()) {
                Some(bits) => {
                    self.add_token_literal(TokenType::Number, Some(Literal::Num(bits)));
                },
                None => {
                    self.report("Unrecognizable number");
                },
            }
        }
        if self.peek() == Some('!') {
            self.start = self.current;
            self.advance();
            self.add_token(TokenType::Factorial);
        }
    }

    /// Scans an identifier or keyword.
    fn scan_identifier(&mut self)
        requires
            old(self).inv(),
            old(self).start <= old(self).current,
        ensures
            final(self).inv(),
            final(self).source == old(self).source,
            final(self).current >= old(self).current,
    {
        loop
            invariant
                self.inv(),
                self.source == old(self).source,
                self.current >= old(self).current,
                self.start == old(self).start,
            decreases self.source@.len() - self.current,
        {
            let ch = self.peek();
            if is_alphabetic(ch) || is_digit(ch) {
                self.advance();
            } else {
                break;
            }
        }
        if self.start <= self.current {
            let text = self.text_range(self.start, self.current);
            match get_keyword(text) {
                Some(ttype) => self.add_token(ttype),
                None => self.add_token(TokenType::Identifier),
            }
        }
    }

    /// Scans one token starting at the cursor.
    fn scan_token(&mut self)
        requires
            old(self).inv(),
            (old(self).current as int) < old(self).source@.len(),
            old(self).start == old(self).current,
        ensures
            final(self).inv(),
            final(self).source == old(self).source,
            final(self).current > old(self).current,
    {
        let c = self.source[self.current];
        self.advance();
        match c {
            '(' => self.add_token(TokenType::LeftParen),
            ')' => {
                self.add_token(TokenType::RightParen);
                if self.peek() == Some('!') {
                    self.start = self.current;
                    self.advance();
                    self.add_token(TokenType::Factorial);
                }
            },
            '{' => self.add_token(TokenType::LeftBrace),
            '}' => self.add_token(TokenType::RightBrace),
            ',' => self.add_token(TokenType::Comma),
            '.' => self.add_token(TokenType::Dot),
            ';' => self.add_token(TokenType::Semicolon),
            ':' => self.add_token(TokenType::Colon),
            '?' => self.add_token(TokenType::QuestionMark),
            '-' => {
                if self.match_char('=') {
                    self.add_token(TokenType::MinusEqual)
                } else if self.match_char('-') {
                    self.add_token(TokenType::Decrement)
                } else {
                    self.add_token(TokenType::Minus)
                }
            },
            '+' => {
                if self.match_char('=') {
                    self.add_token(TokenType::PlusEqual)
                } else if self.match_char('+') {
                    self.add_token(TokenType::Increment)
                } else {
                    self.add_token(TokenType::Plus)
                }
            },
            '*' => {
                if self.match_char('=') {
                    self.add_token(TokenType::StarEqual)
                } else {
                    self.add_token(TokenType::Star)
                }
            },
            '^' => {
                if self.match_char('=') {
                    self.add_token(TokenType::PowerEqual)
                } else {
                    self.add_token(TokenType::Power)
                }
            },
            '!' => {
                if self.match_char('=') {
                    self.add_token(TokenType::BangEqual)
                } else {
                    self.add_token(TokenType::Bang)
                }
            },
            '=' => {
                if self.match_char('=') {
                    self.add_token(TokenType::EqualEqual)
                } else {
                    self.add_token(TokenType::Equal)
                }
            },
            '<' => {
                if self.match_char('=') {
                    self.add_token(TokenType::LessEqual)
                } else {
                    self.add_token(TokenType::Less)
                }
            },
            '>' => {
                if self.match_char('=') {
                    self.add_token(TokenType::GreaterEqual)
                } else {
                    self.add_token(TokenType::Greater)
                }
            },
            '/' => {
                if self.match_char('/') {
                    loop
                        invariant
                            self.inv(),
                            self.source == old(self).source,
                            self.current > old(self).current,
                        decreases self.source@.len() - self.current,
                    {
                        match self.peek() {
                            Some(ch) => {
                                if ch == '\n' {
                                    break;
                                }
                                self.advance();
                            },
                            None => {
                                break;
                            },
                        }
                    }
                } else if self.match_char('*') {
                    self.scan_comment()
                } else if self.match_char('=') {
                    self.add_token(TokenType::SlashEqual)
                } else {
                    self.add_token(TokenType::Slash)
                }
            },
            ' ' | '\r' | '\t' => (),
            '\n' => self.increment_line(),
            '"' => self.scan_string(),
            _ => {
                if is_digit(Some(c)) {
                    self.scan_number()
                } else if is_alphabetic(Some(c)) {
                    self.scan_identifier()
                } else {
                    let mut msg = "Unrecognizable character: ".to_owned();
                    let mut one: Vec<char> = Vec::new();
                    one.push(c);
                    let ctext = string_from_chars(&one);
                    msg = strcat(msg, ctext.as_str());
                    let line = self.line;
                    let e = ViskumError::new_dynamic(msg, Token::invalid(Some(line)), "file.vs");
                    self.errors.push(e);
                }
            },
        }
    }

    /// Scans the whole source: the token sequence always ends with the end
    /// marker, and every lexical error is collected.
    pub fn scan_tokens(&mut self)
        requires
            old(self).inv(),
        ensures
            final(self).inv(),
            final(self).toks().len() >= 1,
            final(self).toks().last().ttype == TokenType::Eof,
    {
        loop
            invariant
                self.inv(),
            decreases self.source@.len() - self.current,
        {
            if self.is_at_end() {
                break;
            }
            self.start = self.current;
            self.scan_token();
        }
        let line = self.line;
        self.tokens.push(Token::eof(line));
    }

    /// Hands the tokens and the collected lexical diagnostics over.
    pub fn take(self) -> (r: (Vec<Token>, Vec<ViskumError>))
        ensures
            r.0@ == self.toks(),
            r.1@.map(|i: int, e: ViskumError| e.model()) == self.lex_errs(),
    {
        (self.tokens, self.errors)
    }
}

} // verus!
