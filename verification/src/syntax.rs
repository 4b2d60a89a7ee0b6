//! Boundary model of the script syntax layer: the token and statement
//! shapes the interpreter errors refer to, and the errors the lexer,
//! parser and script loader report. Only what error reporting reads is
//! modelled; the syntax layer itself is an external collaborator.

use vstd::prelude::*;
use vstd::string::*;

verus! {

/// The category of a token, named in diagnostics when a different
/// category was required.
#[derive(Debug, Clone, Copy, PartialEq, Eq)]
pub enum TokenCategory {
    Identifier,
    Number,
    String,
    LeftParen,
    RightParen,
    LeftBrace,
    RightBrace,
    Semicolon,
    Comma,
    Equal,
    UnknownSymbol,
}

impl TokenCategory {
    /// The name this category renders as.
    pub open spec fn spec_render(&self) -> Seq<char> {
        match self {
            TokenCategory::Identifier => "Identifier"@,
            TokenCategory::Number => "Number"@,
            TokenCategory::String => "String"@,
            TokenCategory::LeftParen => "LeftParen"@,
            TokenCategory::RightParen => "RightParen"@,
            TokenCategory::LeftBrace => "LeftBrace"@,
            TokenCategory::RightBrace => "RightBrace"@,
            TokenCategory::Semicolon => "Semicolon"@,
            TokenCategory::Comma => "Comma"@,
            TokenCategory::Equal => "Equal"@,
            TokenCategory::UnknownSymbol => "UnknownSymbol"@,
        }
    }

    /// Renders the category for diagnostics.
    pub fn render(&self) -> (r: String)
        ensures
            r@ == self.spec_render(),
    {
        match self {
            TokenCategory::Identifier => String::from_str("Identifier"),
            TokenCategory::Number => String::from_str("Number"),
            TokenCategory::String => String::from_str("String"),
            TokenCategory::LeftParen => String::from_str("LeftParen"),
            TokenCategory::RightParen => String::from_str("RightParen"),
            TokenCategory::LeftBrace => String::from_str("LeftBrace"),
            TokenCategory::RightBrace => String::from_str("RightBrace"),
            TokenCategory::Semicolon => String::from_str("Semicolon"),
            TokenCategory::Comma => String::from_str("Comma"),
            TokenCategory::Equal => String::from_str("Equal"),
            TokenCategory::UnknownSymbol => String::from_str("UnknownSymbol"),
        }
    }
}

/// A token of the script source: its category and its position, line
/// and column both starting at 1.
#[derive(Debug, Clone, Copy, PartialEq, Eq)]
pub struct Token {
    pub category: TokenCategory,
    pub line: usize,
    pub col: usize,
}

/// A statement of the script, reduced to what error reporting reads:
/// its first token, which carries the statement's position.
#[derive(Debug, Clone, Copy, PartialEq, Eq)]
pub struct Statement {
    pub start: Token,
}

impl Statement {
    /// The first token of the statement.
    pub fn as_token(&self) -> (r: &Token)
        ensures
            *r == self.start,
    {
        &self.start
    }
}

/// A syntactical error the parser reported: its message and, when the
/// parser still held one, the token it stopped on.
#[derive(Debug, PartialEq, Eq)]
pub struct SyntaxError {
    pub message: String,
    pub token: Option<Token>,
}

impl SyntaxError {
    /// The token the parser stopped on, if any.
    pub fn as_token(&self) -> (r: &Option<Token>)
        ensures
            *r == self.token,
    {
        &self.token
    }

    /// The message this error renders as.
    pub open spec fn spec_render(&self) -> Seq<char> {
        self.message@
    }

    /// Renders the error for diagnostics.
    pub fn render(&self) -> (r: String)
        ensures
            r@ == self.spec_render(),
    {
        self.message.clone()
    }
}

/// A failure to bring a script's source in from the script store.
#[derive(Debug, PartialEq, Eq)]
pub enum LoadError {
    /// No script of that name is known.
    NotFound(String),
    /// The script exists but could not be read.
    Read(String),
}

impl LoadError {
    /// The message this failure renders as.
    pub open spec fn spec_render(&self) -> Seq<char> {
        match self {
            LoadError::NotFound(name) => "script not found: "@ + name@,
            LoadError::Read(name) => "script could not be read: "@ + name@,
        }
    }

    /// Renders the failure for diagnostics.
    pub fn render(&self) -> (r: String)
        ensures
            r@ == self.spec_render(),
    {
        let (prefix, name) = match self {
            LoadError::NotFound(name) => ("script not found: ", name),
            LoadError::Read(name) => ("script could not be read: ", name),
        };
        let mut r = String::from_str(prefix);
        r.append(name.as_str());
        r
    }
}

} // verus!
