//! The interpreter error context: wraps any lower-layer failure into
//! one reporting type carrying an optional originating statement, and
//! renders fatal errors as `<location-prefix><kind message>`.

use vstd::prelude::*;
use vstd::string::*;

use crate::error::BuiltinError;
use crate::error::FnError;
use crate::error::FnErrorKind;
use crate::error::IoErrorKind;
use crate::render::dec_rep;
use crate::render::usize_to_dec;
use crate::storage::StorageError;
use crate::syntax::LoadError;
use crate::syntax::Statement;
use crate::syntax::SyntaxError;
use crate::syntax::TokenCategory;

verus! {

/// An error that occurred while calling a built-in function: the
/// function's name together with the structured cause.
#[derive(Debug, PartialEq, Eq)]
pub struct FunctionError {
    /// Name of the function that was being called.
    pub function: String,
    /// What the call reported.
    pub kind: FnError,
}

/// The message a function-call error renders as.
pub open spec fn spec_render_function_error(e: FunctionError) -> Seq<char> {
    "Error while calling function '"@ + e.function@ + "': "@ + e.kind.spec_render()
}

impl FunctionError {
    /// Wraps a built-in failure with the name of the function it came
    /// from.
    pub fn new(function: &str, kind: FnError) -> (r: Self)
        ensures
            r.function@ == function@,
            r.kind == kind,
    {
        Self { function: function.to_owned(), kind }
    }

    /// Renders the error as
    /// `Error while calling function '<name>': <kind>`.
    pub fn render(&self) -> (r: String)
        ensures
            r@ == spec_render_function_error(*self),
    {
        let mut s = String::from_str("Error while calling function '");
        s.append(self.function.as_str());
        s.append("': ");
        let kind = self.kind.render();
        s.append(kind.as_str());
        proof {
            assert(s@ =~= spec_render_function_error(*self));
        }
        s
    }
}

/// What went wrong while interpreting, with a hint for the user.
#[derive(Debug, PartialEq, Eq)]
pub enum InterpretErrorKind {
    /// The resolved context entry is a function although a value is
    /// required.
    FunctionExpectedValue,
    /// The resolved context entry is a value although a function is
    /// required.
    ValueExpectedFunction,
    /// A specific type was expected.
    WrongType(String),
    /// A specific token category was required but not given.
    WrongCategory(TokenCategory),
    /// A regular expression could not be parsed.
    InvalidRegex(String),
    /// A syntactical error occurred while including another script.
    IncludeSyntaxError { filename: String, err: SyntaxError },
    /// A syntactical error occurred.
    SyntaxError(SyntaxError),
    /// The given key was not found in the context.
    NotFound(String),
    /// The storage collaborator failed.
    StorageError(StorageError),
    /// A script could not be loaded.
    LoadError(LoadError),
    /// Formatting output failed.
    FormatError,
    /// An input/output failure occurred.
    IOError(IoErrorKind),
    /// A built-in function call failed.
    FunctionCallError(FunctionError),
}

/// The message an interpreter error kind renders as.
pub open spec fn spec_render_interpret_kind(kind: InterpretErrorKind) -> Seq<char> {
    match kind {
        InterpretErrorKind::FunctionExpectedValue => "Expected a value but got a function."@,
        InterpretErrorKind::ValueExpectedFunction => "Expected a function but got a value."@,
        InterpretErrorKind::WrongType(t) => "Expected the type "@ + t@,
        InterpretErrorKind::WrongCategory(c) => "Expected the category "@ + c.spec_render(),
        InterpretErrorKind::InvalidRegex(rx) => "Invalid regular expression: "@ + rx@,
        InterpretErrorKind::IncludeSyntaxError { filename, err } => {
            "Error while including file "@ + filename@ + (match err.token {
                Some(t) => ", line: "@ + dec_rep(t.line as nat) + ", col: "@ + dec_rep(
                    t.col as nat,
                ),
                None => Seq::empty(),
            }) + ": "@ + err.spec_render()
        },
        InterpretErrorKind::SyntaxError(err) => err.spec_render(),
        InterpretErrorKind::NotFound(name) => "Key not found: "@ + name@,
        InterpretErrorKind::StorageError(err) => err.spec_render(),
        InterpretErrorKind::LoadError(err) => err.spec_render(),
        InterpretErrorKind::FormatError => "an error occurred when formatting an argument"@,
        InterpretErrorKind::IOError(err) => err.spec_render(),
        InterpretErrorKind::FunctionCallError(err) => spec_render_function_error(err),
    }
}

/// An error while interpreting: its kind, and the statement it arose
/// on when one is known. The origin is attached at the first point of
/// failure and never overwritten once present.
#[derive(Debug, PartialEq, Eq)]
pub struct InterpretError {
    /// The type of error that occurred.
    pub kind: InterpretErrorKind,
    /// The statement on which this error occurred.
    pub origin: Option<Statement>,
}

/// The location prefix a fatal error renders with: `line:col: ` when an
/// origin is known, and empty otherwise — absence of a statement
/// reports the location as unknown, not as a position.
pub open spec fn spec_location_prefix(origin: Option<Statement>) -> Seq<char> {
    match origin {
        Some(stmt) => dec_rep(stmt.start.line as nat) + ":"@ + dec_rep(stmt.start.col as nat)
            + ": "@,
        None => Seq::empty(),
    }
}

/// The full rendering of a fatal error: `<location-prefix><kind message>`.
pub open spec fn spec_render_interpret_error(e: InterpretError) -> Seq<char> {
    spec_location_prefix(e.origin) + spec_render_interpret_kind(e.kind)
}

impl InterpretError {
    /// Wraps a kind, with the originating statement when one is known.
    ///
    /// Use an absent origin only when no statement is available: every
    /// propagation site lacking context must attach the nearest
    /// enclosing statement before the error reaches the user.
    pub fn new(kind: InterpretErrorKind, origin: Option<Statement>) -> (r: Self)
        ensures
            r.kind == kind,
            r.origin == origin,
    {
        Self { kind, origin }
    }

    /// Wraps a kind with the statement it arose on.
    pub fn from_statement(stmt: &Statement, kind: InterpretErrorKind) -> (r: Self)
        ensures
            r.kind == kind,
            r.origin == Some(*stmt),
    {
        InterpretError { kind, origin: Some(*stmt) }
    }

    /// Attaches an origin if none is present yet; an origin already
    /// attached is never overwritten.
    pub fn with_origin(self, stmt: &Statement) -> (r: Self)
        ensures
            r.kind == self.kind,
            self.origin is Some ==> r == self,
            self.origin is None ==> r.origin == Some(*stmt),
    {
        match self.origin {
            Some(_) => self,
            None => InterpretError { kind: self.kind, origin: Some(*stmt) },
        }
    }

    /// The line and column of the originating statement, both starting
    /// at 1; (0, 0) stands for an unknown origin and is rendered as
    /// such, never as a real position.
    pub fn line_column(&self) -> (r: (usize, usize))
        ensures
            match self.origin {
                Some(stmt) => r == (stmt.start.line, stmt.start.col),
                None => r == (0usize, 0usize),
            },
    {
        match &self.origin {
            Some(stmt) => (stmt.start.line, stmt.start.col),
            None => (0, 0),
        }
    }

    /// The line number of the originating statement.
    pub fn line(&self) -> (r: usize)
        ensures
            match self.origin {
                Some(stmt) => r == stmt.start.line,
                None => r == 0usize,
            },
    {
        let (line, _) = self.line_column();
        line
    }

    /// The column number of the originating statement.
    pub fn column(&self) -> (r: usize)
        ensures
            match self.origin {
                Some(stmt) => r == stmt.start.col,
                None => r == 0usize,
            },
    {
        let (_, col) = self.line_column();
        col
    }

    /// Builds the error for a statement that is not supported where it
    /// stands; the expected type is named in the message.
    pub fn unsupported(stmt: &Statement, expected: &str) -> (r: Self)
        ensures
            r.kind matches InterpretErrorKind::WrongType(t) && t@ == expected@,
            r.origin == Some(*stmt),
    {
        Self::from_statement(stmt, InterpretErrorKind::WrongType(expected.to_owned()))
    }

    /// Builds the error for a context entry that is a function although
    /// a value is required.
    pub fn expected_value() -> (r: Self)
        ensures
            r.kind == InterpretErrorKind::FunctionExpectedValue,
            r.origin is None,
    {
        Self::new(InterpretErrorKind::FunctionExpectedValue, None)
    }

    /// Builds the error for a context entry that is a value although a
    /// function is required.
    pub fn expected_function() -> (r: Self)
        ensures
            r.kind == InterpretErrorKind::ValueExpectedFunction,
            r.origin is None,
    {
        Self::new(InterpretErrorKind::ValueExpectedFunction, None)
    }

    /// Builds the error for a token of the wrong category.
    pub fn wrong_category(cat: &TokenCategory) -> (r: Self)
        ensures
            r.kind == InterpretErrorKind::WrongCategory(*cat),
            r.origin is None,
    {
        Self::new(InterpretErrorKind::WrongCategory(*cat), None)
    }

    /// Builds the error for a key that was not found in the context.
    pub fn not_found(name: &str) -> (r: Self)
        ensures
            r.kind matches InterpretErrorKind::NotFound(n) && n@ == name@,
            r.origin is None,
    {
        Self::new(InterpretErrorKind::NotFound(name.to_owned()), None)
    }

    /// Builds the error for an included file with syntactical errors,
    /// composing the file's name with the inner error's own location.
    pub fn include_syntax_error(file: &str, se: SyntaxError) -> (r: Self)
        ensures
            r.kind matches InterpretErrorKind::IncludeSyntaxError { filename, err } && filename@
                == file@ && err == se,
            r.origin is None,
    {
        Self::new(
            InterpretErrorKind::IncludeSyntaxError { filename: file.to_owned(), err: se },
            None,
        )
    }

    /// Builds the error for a regular expression that cannot be parsed.
    pub fn unparse_regex(rx: &str) -> (r: Self)
        ensures
            r.kind matches InterpretErrorKind::InvalidRegex(x) && x@ == rx@,
            r.origin is None,
    {
        Self::new(InterpretErrorKind::InvalidRegex(rx.to_owned()), None)
    }

    /// Renders the error as `<location-prefix><kind message>`, with the
    /// prefix `line:col: ` exactly when the origin is known.
    pub fn render(&self) -> (r: String)
        ensures
            r@ == spec_render_interpret_error(*self),
    {
        let mut s = match &self.origin {
            Some(stmt) => {
                let mut p = usize_to_dec(stmt.start.line);
                p.append(":");
                let col = usize_to_dec(stmt.start.col);
                p.append(col.as_str());
                p.append(": ");
                proof {
                    assert(p@ =~= spec_location_prefix(self.origin));
                }
                p
            },
            None => String::new(),
        };
        let kind = render_interpret_kind(&self.kind);
        s.append(kind.as_str());
        proof {
            assert(s@ =~= spec_render_interpret_error(*self));
        }
        s
    }
}

/// Renders an interpreter error kind's message.
pub fn render_interpret_kind(kind: &InterpretErrorKind) -> (r: String)
    ensures
        r@ == spec_render_interpret_kind(*kind),
{
    match kind {
        InterpretErrorKind::FunctionExpectedValue => {
            String::from_str("Expected a value but got a function.")
        },
        InterpretErrorKind::ValueExpectedFunction => {
            String::from_str("Expected a function but got a value.")
        },
        InterpretErrorKind::WrongType(t) => {
            let mut s = String::from_str("Expected the type ");
            s.append(t.as_str());
            s
        },
        InterpretErrorKind::WrongCategory(c) => {
            let mut s = String::from_str("Expected the category ");
            let c = c.render();
            s.append(c.as_str());
            s
        },
        InterpretErrorKind::InvalidRegex(rx) => {
            let mut s = String::from_str("Invalid regular expression: ");
            s.append(rx.as_str());
            s
        },
        InterpretErrorKind::IncludeSyntaxError { filename, err } => {
            let mut s = String::from_str("Error while including file ");
            s.append(filename.as_str());
            match err.as_token() {
                Some(t) => {
                    s.append(", line: ");
                    let line = usize_to_dec(t.line);
                    s.append(line.as_str());
                    s.append(", col: ");
                    let col = usize_to_dec(t.col);
                    s.append(col.as_str());
                },
                None => {},
            }
            s.append(": ");
            let inner = err.render();
            s.append(inner.as_str());
            proof {
                assert(s@ =~= spec_render_interpret_kind(*kind));
            }
            s
        },
        InterpretErrorKind::SyntaxError(err) => err.render(),
        InterpretErrorKind::NotFound(name) => {
            let mut s = String::from_str("Key not found: ");
            s.append(name.as_str());
            s
        },
        InterpretErrorKind::StorageError(err) => err.render(),
        InterpretErrorKind::LoadError(err) => err.render(),
        InterpretErrorKind::FormatError => {
            String::from_str("an error occurred when formatting an argument")
        },
        InterpretErrorKind::IOError(err) => err.render(),
        InterpretErrorKind::FunctionCallError(err) => err.render(),
    }
}

impl From<TokenCategory> for InterpretError {
    /// A wrong token category becomes an error with no origin yet.
    fn from(cat: TokenCategory) -> (r: Self) {
        Self::new(InterpretErrorKind::WrongCategory(cat), None)
    }
}

impl vstd::std_specs::convert::FromSpecImpl<TokenCategory> for InterpretError {
    open spec fn obeys_from_spec() -> bool {
        true
    }

    open spec fn from_spec(cat: TokenCategory) -> InterpretError {
        InterpretError { kind: InterpretErrorKind::WrongCategory(cat), origin: None }
    }
}

impl From<SyntaxError> for InterpretError {
    /// A syntactical error becomes an error with no origin yet.
    fn from(err: SyntaxError) -> (r: Self) {
        Self::new(InterpretErrorKind::SyntaxError(err), None)
    }
}

impl vstd::std_specs::convert::FromSpecImpl<SyntaxError> for InterpretError {
    open spec fn obeys_from_spec() -> bool {
        true
    }

    open spec fn from_spec(err: SyntaxError) -> InterpretError {
        InterpretError { kind: InterpretErrorKind::SyntaxError(err), origin: None }
    }
}

impl From<StorageError> for InterpretError {
    /// A storage failure becomes an error with no origin yet.
    fn from(err: StorageError) -> (r: Self) {
        Self::new(InterpretErrorKind::StorageError(err), None)
    }
}

impl vstd::std_specs::convert::FromSpecImpl<StorageError> for InterpretError {
    open spec fn obeys_from_spec() -> bool {
        true
    }

    open spec fn from_spec(err: StorageError) -> InterpretError {
        InterpretError { kind: InterpretErrorKind::StorageError(err), origin: None }
    }
}

impl From<LoadError> for InterpretError {
    /// A load failure becomes an error with no origin yet.
    fn from(err: LoadError) -> (r: Self) {
        Self::new(InterpretErrorKind::LoadError(err), None)
    }
}

impl vstd::std_specs::convert::FromSpecImpl<LoadError> for InterpretError {
    open spec fn obeys_from_spec() -> bool {
        true
    }

    open spec fn from_spec(err: LoadError) -> InterpretError {
        InterpretError { kind: InterpretErrorKind::LoadError(err), origin: None }
    }
}

impl From<IoErrorKind> for InterpretError {
    /// An input/output failure becomes an error with no origin yet.
    fn from(err: IoErrorKind) -> (r: Self) {
        Self::new(InterpretErrorKind::IOError(err), None)
    }
}

impl vstd::std_specs::convert::FromSpecImpl<IoErrorKind> for InterpretError {
    open spec fn obeys_from_spec() -> bool {
        true
    }

    open spec fn from_spec(err: IoErrorKind) -> InterpretError {
        InterpretError { kind: InterpretErrorKind::IOError(err), origin: None }
    }
}

/// How a function-call error enters the reporting type: one whose
/// wrapped cause is specifically an input/output failure collapses one
/// layer into a top-level such error; every other cause is preserved
/// with the function's name.
pub open spec fn spec_from_function_error(fe: FunctionError) -> InterpretError {
    match fe.kind.kind {
        FnErrorKind::Builtin(BuiltinError::Io(io)) => InterpretError {
            kind: InterpretErrorKind::IOError(io),
            origin: None,
        },
        _ => InterpretError { kind: InterpretErrorKind::FunctionCallError(fe), origin: None },
    }
}

impl From<FunctionError> for InterpretError {
    /// Collapses a wrapped input/output failure; preserves every other
    /// function-call error with the function's name and cause.
    fn from(fe: FunctionError) -> (r: Self) {
        match &fe.kind.kind {
            FnErrorKind::Builtin(BuiltinError::Io(io)) => {
                Self::new(InterpretErrorKind::IOError(*io), None)
            },
            _ => Self::new(InterpretErrorKind::FunctionCallError(fe), None),
        }
    }
}

impl vstd::std_specs::convert::FromSpecImpl<FunctionError> for InterpretError {
    open spec fn obeys_from_spec() -> bool {
        true
    }

    open spec fn from_spec(fe: FunctionError) -> InterpretError {
        spec_from_function_error(fe)
    }
}

} // verus!
