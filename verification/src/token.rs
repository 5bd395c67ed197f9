//! Lexical vocabulary: token kinds, tokens with their lexeme text and source
//! line, keyword recognition, and character classification.
use vstd::prelude::*;

use crate::value::{Literal, SpecVal};

verus! {

/// Every kind of token the scanner can produce.
#[derive(Debug, Clone, Copy, PartialEq, Eq, Structural)]
pub enum TokenType {
    LeftParen,
    RightParen,
    LeftBrace,
    RightBrace,
    Comma,
    Dot,
    Minus,
    Plus,
    Semicolon,
    Colon,
    QuestionMark,
    Slash,
    Star,
    Power,
    Factorial,
    Bang,
    BangEqual,
    Equal,
    EqualEqual,
    Greater,
    GreaterEqual,
    Less,
    LessEqual,
    PlusEqual,
    MinusEqual,
    StarEqual,
    SlashEqual,
    PowerEqual,
    Increment,
    Decrement,
    Identifier,
    Text,
    Number,
    And,
    Class,
    Else,
    False,
    For,
    If,
    Null,
    Or,
    Print,
    Return,
    New,
    This,
    True,
    Let,
    Mut,
    While,
    Break,
    Continue,
    Loop,
    Fn,
    Eof,
    Invalid,
}

/// The surface text a token kind stands for, used in diagnostics.
pub open spec fn to_lexeme_spec(t: TokenType) -> Seq<char> {
    match t {
        TokenType::LeftParen => "("@,
        TokenType::RightParen => ")"@,
        TokenType::LeftBrace => "{"@,
        TokenType::RightBrace => "}"@,
        TokenType::Comma => ","@,
        TokenType::Dot => "."@,
        TokenType::Minus => "-"@,
        TokenType::Plus => "+"@,
        TokenType::Semicolon => ";"@,
        TokenType::Colon => ":"@,
        TokenType::QuestionMark => "?"@,
        TokenType::Slash => "/"@,
        TokenType::Star => "*"@,
        TokenType::Power => "^"@,
        TokenType::Factorial => "!"@,
        TokenType::Bang => "!"@,
        TokenType::BangEqual => "!="@,
        TokenType::Equal => "="@,
        TokenType::EqualEqual => "=="@,
        TokenType::Greater => ">"@,
        TokenType::GreaterEqual => ">="@,
        TokenType::Less => "<"@,
        TokenType::LessEqual => "<="@,
        TokenType::PlusEqual => "+="@,
        TokenType::MinusEqual => "-="@,
        TokenType::StarEqual => "*="@,
        TokenType::SlashEqual => "/="@,
        TokenType::PowerEqual => "^="@,
        TokenType::Increment => "++"@,
        TokenType::Decrement => "--"@,
        TokenType::Identifier => "identifier"@,
        TokenType::Text => "string"@,
        TokenType::Number => "number"@,
        TokenType::And => "and"@,
        TokenType::Class => "class"@,
        TokenType::Else => "else"@,
        TokenType::False => "false"@,
        TokenType::For => "for"@,
        TokenType::If => "if"@,
        TokenType::Null => "null"@,
        TokenType::Or => "or"@,
        TokenType::Print => "print"@,
        TokenType::Return => "return"@,
        TokenType::New => "new"@,
        TokenType::This => "this"@,
        TokenType::True => "true"@,
        TokenType::Let => "let"@,
        TokenType::Mut => "mut"@,
        TokenType::While => "while"@,
        TokenType::Break => "break"@,
        TokenType::Continue => "continue"@,
        TokenType::Loop => "loop"@,
        TokenType::Fn => "fn"@,
        TokenType::Eof => "end of file"@,
        TokenType::Invalid => "invalid"@,
    }
}

impl TokenType {
    /// The surface text this token kind stands for.
    pub fn to_lexeme(&self) -> (r: String)
        ensures
            r@ == to_lexeme_spec(*self),
    {
        let s: &str = match self {
            TokenType::LeftParen => "(",
            TokenType::RightParen => ")",
            TokenType::LeftBrace => "{",
            TokenType::RightBrace => "}",
            TokenType::Comma => ",",
            TokenType::Dot => ".",
            TokenType::Minus => "-",
            TokenType::Plus => "+",
            TokenType::Semicolon => ";",
            TokenType::Colon => ":",
            TokenType::QuestionMark => "?",
            TokenType::Slash => "/",
            TokenType::Star => "*",
            TokenType::Power => "^",
            TokenType::Factorial => "!",
            TokenType::Bang => "!",
            TokenType::BangEqual => "!=",
            TokenType::Equal => "=",
            TokenType::EqualEqual => "==",
            TokenType::Greater => ">",
            TokenType::GreaterEqual => ">=",
            TokenType::Less => "<",
            TokenType::LessEqual => "<=",
            TokenType::PlusEqual => "+=",
            TokenType::MinusEqual => "-=",
            TokenType::StarEqual => "*=",
            TokenType::SlashEqual => "/=",
            TokenType::PowerEqual => "^=",
            TokenType::Increment => "++",
            TokenType::Decrement => "--",
            TokenType::Identifier => "identifier",
            TokenType::Text => "string",
            TokenType::Number => "number",
            TokenType::And => "and",
            TokenType::Class => "class",
            TokenType::Else => "else",
            TokenType::False => "false",
            TokenType::For => "for",
            TokenType::If => "if",
            TokenType::Null => "null",
            TokenType::Or => "or",
            TokenType::Print => "print",
            TokenType::Return => "return",
            TokenType::New => "new",
            TokenType::This => "this",
            TokenType::True => "true",
            TokenType::Let => "let",
            TokenType::Mut => "mut",
            TokenType::While => "while",
            TokenType::Break => "break",
            TokenType::Continue => "continue",
            TokenType::Loop => "loop",
            TokenType::Fn => "fn",
            TokenType::Eof => "end of file",
            TokenType::Invalid => "invalid",
        };
        s.to_owned()
    }
}

/// The keyword a piece of identifier text stands for, if any.
pub open spec fn keyword_spec(s: Seq<char>) -> Option<TokenType> {
    if s == "and"@ {
        Some(TokenType::And)
    } else if s == "class"@ {
        Some(TokenType::Class)
    } else if s == "else"@ {
        Some(TokenType::Else)
    } else if s == "false"@ {
        Some(TokenType::False)
    } else if s == "for"@ {
        Some(TokenType::For)
    } else if s == "if"@ {
        Some(TokenType::If)
    } else if s == "null"@ {
        Some(TokenType::Null)
    } else if s == "or"@ {
        Some(TokenType::Or)
    } else if s == "print"@ {
        Some(TokenType::Print)
    } else if s == "return"@ {
        Some(TokenType::Return)
    } else if s == "this"@ {
        Some(TokenType::This)
    } else if s == "true"@ {
        Some(TokenType::True)
    } else if s == "let"@ {
        Some(TokenType::Let)
    } else if s == "mut"@ {
        Some(TokenType::Mut)
    } else if s == "while"@ {
        Some(TokenType::While)
    } else if s == "new"@ {
        Some(TokenType::New)
    } else if s == "break"@ {
        Some(TokenType::Break)
    } else if s == "continue"@ {
        Some(TokenType::Continue)
    } else if s == "loop"@ {
        Some(TokenType::Loop)
    } else if s == "fn"@ {
        Some(TokenType::Fn)
    } else {
        None
    }
}

/// Looks the text of an identifier up among the language's keywords.
pub fn get_keyword(check: String) -> (r: Option<TokenType>)
    ensures
        r == keyword_spec(check@),
{
    if check.eq(&"and".to_owned()) {
        Some(TokenType::And)
    } else if check.eq(&"class".to_owned()) {
        Some(TokenType::Class)
    } else if check.eq(&"else".to_owned()) {
        Some(TokenType::Else)
    } else if check.eq(&"false".to_owned()) {
        Some(TokenType::False)
    } else if check.eq(&"for".to_owned()) {
        Some(TokenType::For)
    } else if check.eq(&"if".to_owned()) {
        Some(TokenType::If)
    } else if check.eq(&"null".to_owned()) {
        Some(TokenType::Null)
    } else if check.eq(&"or".to_owned()) {
        Some(TokenType::Or)
    } else if check.eq(&"print".to_owned()) {
        Some(TokenType::Print)
    } else if check.eq(&"return".to_owned()) {
        Some(TokenType::Return)
    } else if check.eq(&"this".to_owned()) {
        Some(TokenType::This)
    } else if check.eq(&"true".to_owned()) {
        Some(TokenType::True)
    } else if check.eq(&"let".to_owned()) {
        Some(TokenType::Let)
    } else if check.eq(&"mut".to_owned()) {
        Some(TokenType::Mut)
    } else if check.eq(&"while".to_owned()) {
        Some(TokenType::While)
    } else if check.eq(&"new".to_owned()) {
        Some(TokenType::New)
    } else if check.eq(&"break".to_owned()) {
        Some(TokenType::Break)
    } else if check.eq(&"continue".to_owned()) {
        Some(TokenType::Continue)
    } else if check.eq(&"loop".to_owned()) {
        Some(TokenType::Loop)
    } else if check.eq(&"fn".to_owned()) {
        Some(TokenType::Fn)
    } else {
        None
    }
}

/// A decimal digit.
pub open spec fn is_digit_spec(ch: Option<char>) -> bool {
    match ch {
        Some(c) => '0' <= c && c <= '9',
        None => false,
    }
}

/// Tells whether an optional character is a decimal digit.
pub fn is_digit(ch: Option<char>) -> (r: bool)
    ensures
        r == is_digit_spec(ch),
{
    if let Some(c) = ch {
        '0' <= c && c <= '9'
    } else {
        false
    }
}

/// An ASCII letter or an underscore, the characters identifiers start with.
pub open spec fn is_alphabetic_spec(ch: Option<char>) -> bool {
    match ch {
        Some(c) => ('a' <= c && c <= 'z') || ('A' <= c && c <= 'Z') || c == '_',
        None => false,
    }
}

/// Tells whether an optional character can start or continue an identifier.
pub fn is_alphabetic(ch: Option<char>) -> (r: bool)
    ensures
        r == is_alphabetic_spec(ch),
{
    if let Some(c) = ch {
        ('a' <= c && c <= 'z') || ('A' <= c && c <= 'Z') || c == '_'
    } else {
        false
    }
}

/// Ghost image of a token: its kind, lexeme text, literal payload and line.
pub struct SpecTok {
    pub ttype: TokenType,
    pub lexeme: Seq<char>,
    pub literal: Option<SpecVal>,
    pub line: int,
}

/// One lexical token with its lexeme text, optional literal payload and
/// source line.
#[derive(Debug)]
pub struct Token {
    pub ttype: TokenType,
    pub lexeme: String,
    pub literal: Option<Literal>,
    pub line: usize,
}

impl View for Token {
    type V = SpecTok;

    open spec fn view(&self) -> SpecTok {
        SpecTok {
            ttype: self.ttype,
            lexeme: self.lexeme@,
            literal: match self.literal {
                Some(l) => Some(l.model()),
                None => None,
            },
            line: self.line as int,
        }
    }
}

impl Token {
    pub fn new(ttype: TokenType, lexeme: String, literal: Option<Literal>, line: usize) -> (r:
        Token)
        ensures
            r == (Token { ttype, lexeme, literal, line }),
    {
        Token { ttype, lexeme, literal, line }
    }

    /// A placeholder token for diagnostics that have no token to point at.
    pub fn invalid(line: Option<usize>) -> (r: Token)
        ensures
            r.ttype == TokenType::Invalid,
            r.lexeme@ == Seq::<char>::empty(),
            r.literal is None,
            r.line == match line {
                Some(l) => l as int,
                None => 0,
            },
    {
        Token::new(
            TokenType::Invalid,
            String::new(),
            None,
            if let Some(l) = line {
                l
            } else {
                0
            },
        )
    }

    /// The end-of-input marker.
    pub fn eof(line: usize) -> (r: Token)
        ensures
            r.ttype == TokenType::Eof,
            r.lexeme@ == Seq::<char>::empty(),
            r.literal is None,
            r.line == line,
    {
        Token::new(TokenType::Eof, String::new(), None, line)
    }

    /// Tells whether this token has the given kind.
    pub fn is(&self, ttype: TokenType) -> (r: bool)
        ensures
            r == (self.ttype == ttype),
    {
        ttype == self.ttype
    }

    /// A structurally equal copy of this token.
    pub fn duplicate(&self) -> (r: Token)
        ensures
            r == *self,
    {
        Token {
            ttype: self.ttype,
            lexeme: self.lexeme.clone(),
            literal: match &self.literal {
                Some(l) => Some(l.duplicate()),
                None => None,
            },
            line: self.line,
        }
    }
}

} // verus!
