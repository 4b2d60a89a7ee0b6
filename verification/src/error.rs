//! The error taxonomy every built-in function reports through: argument
//! errors (malformed call-site usage), builtin errors (module-specific
//! semantic failures), and internal errors (infrastructure failures),
//! together with the retry flag and the optional fallback value.

use vstd::prelude::*;
use vstd::string::*;

use crate::render::dec_rep;
use crate::render::usize_to_dec;
use crate::storage::StorageError;
use crate::value::NaslValue;

verus! {

/// The names joined by `", "`, in order.
pub open spec fn spec_join_comma(names: Seq<String>) -> Seq<char>
    decreases names.len(),
{
    if names.len() == 0 {
        Seq::empty()
    } else if names.len() == 1 {
        names[0]@
    } else {
        names[0]@ + ", "@ + spec_join_comma(names.skip(1))
    }
}

fn join_comma_from(names: &Vec<String>, i: usize) -> (r: String)
    requires
        i <= names@.len(),
    ensures
        r@ == spec_join_comma(names@.skip(i as int)),
    decreases names@.len() - i,
{
    if i >= names.len() {
        proof {
            assert(names@.skip(i as int).len() == 0);
        }
        String::new()
    } else if i == names.len() - 1 {
        proof {
            assert(names@.skip(i as int) =~= seq![names@[i as int]]);
        }
        names[i].clone()
    } else {
        let mut s = names[i].clone();
        s.append(", ");
        let rest = join_comma_from(names, i + 1);
        s.append(rest.as_str());
        proof {
            assert(names@.skip(i as int).skip(1) =~= names@.skip(i as int + 1));
            assert(names@.skip(i as int)[0] == names@[i as int]);
            assert(s@ =~= spec_join_comma(names@.skip(i as int)));
        }
        s
    }
}

/// A call-site mistake in how a built-in function was invoked.
/// Argument errors are never retryable.
#[derive(Debug, PartialEq, Eq)]
pub enum ArgumentError {
    /// Fewer positional arguments were given than the function expects.
    MissingPositionals { expected: usize, got: usize },
    /// More positional arguments were given than the function expects.
    TrailingPositionals { expected: usize, got: usize },
    /// Required named arguments were absent.
    MissingNamed(Vec<String>),
    /// A named argument was given that the function does not know.
    UnexpectedArgument(String),
    /// An argument was present but unusable; the message names the
    /// argument, the expected kind and the actual value.
    WrongArgument(String),
}

/// A semantic failure inside a built-in module. Builtin errors are
/// non-retryable by default.
#[derive(Debug, PartialEq, Eq)]
pub enum BuiltinError {
    /// A module-specific failure, described by its message.
    General(String),
    /// An input/output failure during the built-in's own work.
    Io(IoErrorKind),
}

/// The kind of an input/output failure, as the runtime models it.
#[derive(Debug, Clone, Copy, PartialEq, Eq)]
pub enum IoErrorKind {
    NotFound,
    PermissionDenied,
    ConnectionRefused,
    ConnectionReset,
    TimedOut,
    UnexpectedEof,
    Other,
}

/// An infrastructure failure beneath the built-in; its retryability is
/// derived solely from the wrapped storage cause's tag.
#[derive(Debug, PartialEq, Eq)]
pub enum InternalError {
    /// A failure of the storage collaborator.
    Storage(StorageError),
}

impl InternalError {
    /// Whether this internal failure is safe to re-attempt: exactly when
    /// the storage cause carries the transient-retry tag.
    pub open spec fn spec_retryable(&self) -> bool {
        match self {
            InternalError::Storage(cause) => cause.spec_is_retry(),
        }
    }

    /// Derives retryability from the wrapped cause alone.
    pub fn retryable(&self) -> (r: bool)
        ensures
            r == self.spec_retryable(),
    {
        match self {
            InternalError::Storage(StorageError::Retry(_)) => true,
            InternalError::Storage(_) => false,
        }
    }
}

/// The three-way split of every built-in failure.
#[derive(Debug, PartialEq, Eq)]
pub enum FnErrorKind {
    /// Malformed call-site usage; surfaced immediately, never retried.
    Argument(ArgumentError),
    /// A module-specific semantic failure.
    Builtin(BuiltinError),
    /// An infrastructure failure.
    Internal(InternalError),
}

/// Whether an error of the given kind is safe to re-attempt: only an
/// internal error whose storage cause carries the transient-retry tag.
pub open spec fn spec_kind_retryable(kind: FnErrorKind) -> bool {
    match kind {
        FnErrorKind::Internal(cause) => cause.spec_retryable(),
        _ => false,
    }
}

fn kind_retryable(kind: &FnErrorKind) -> (r: bool)
    ensures
        r == spec_kind_retryable(*kind),
{
    match kind {
        FnErrorKind::Internal(cause) => cause.retryable(),
        _ => false,
    }
}

/// The structured error a built-in function returns: its kind, an
/// optional fallback value the caller may continue with, and the retry
/// flag. Created at the failure site and consumed exactly once by the
/// call site.
#[derive(Debug, PartialEq, Eq)]
pub struct FnError {
    /// What went wrong.
    pub kind: FnErrorKind,
    /// A substitute result: "this failed, but continue using this value"
    /// instead of aborting the calling statement.
    pub fallback: Option<NaslValue>,
    /// Whether the call site may re-attempt the invocation.
    pub retry: bool,
}

/// The error every constructor of `FnError` yields for a kind: no
/// fallback value, and the retry flag derived solely from the kind.
pub open spec fn spec_from_kind(kind: FnErrorKind) -> FnError {
    FnError { kind, fallback: None, retry: spec_kind_retryable(kind) }
}

impl FnError {
    /// The invariant every constructed error satisfies: the retry flag
    /// is true exactly when the kind is an internal error whose storage
    /// cause carries the transient-retry tag.
    pub open spec fn wf(&self) -> bool {
        self.retry == spec_kind_retryable(self.kind)
    }

    /// The fallback value, if one was attached; inspecting it never
    /// changes the error.
    pub fn return_value(&self) -> (r: &Option<NaslValue>)
        ensures
            *r == self.fallback,
    {
        &self.fallback
    }

    /// Whether the call site may re-attempt the invocation.
    pub fn retryable(&self) -> (r: bool)
        ensures
            r == self.retry,
    {
        self.retry
    }

    /// Builds the error for a kind, deriving the retry flag from it.
    pub fn from_kind(kind: FnErrorKind) -> (r: FnError)
        ensures
            r == spec_from_kind(kind),
            r.wf(),
    {
        let retry = kind_retryable(&kind);
        FnError { kind, fallback: None, retry }
    }
}

/// Extra information that can be attached to an error after it was
/// constructed.
pub trait WithErrorInfo<Info> {
    /// Attaches the information, leaving the rest of the error as it is.
    fn with(self, info: Info) -> Self;
}

/// A fallback value to attach to an error: execution continues with it
/// instead of aborting the calling statement.
pub struct ReturnValue(pub NaslValue);

impl WithErrorInfo<ReturnValue> for FnError {
    fn with(self, info: ReturnValue) -> (r: Self)
        ensures
            r.kind == self.kind,
            r.retry == self.retry,
            r.fallback == Some(info.0),
    {
        FnError { fallback: Some(info.0), ..self }
    }
}

impl From<FnErrorKind> for FnError {
    /// Wraps a kind, deriving the retry flag from it.
    fn from(kind: FnErrorKind) -> (r: Self) {
        FnError::from_kind(kind)
    }
}

impl vstd::std_specs::convert::FromSpecImpl<FnErrorKind> for FnError {
    open spec fn obeys_from_spec() -> bool {
        true
    }

    open spec fn from_spec(kind: FnErrorKind) -> FnError {
        spec_from_kind(kind)
    }
}

impl From<ArgumentError> for FnError {
    /// An argument error becomes a non-retryable error with no fallback.
    fn from(err: ArgumentError) -> (r: Self) {
        FnError::from_kind(FnErrorKind::Argument(err))
    }
}

impl vstd::std_specs::convert::FromSpecImpl<ArgumentError> for FnError {
    open spec fn obeys_from_spec() -> bool {
        true
    }

    open spec fn from_spec(err: ArgumentError) -> FnError {
        spec_from_kind(FnErrorKind::Argument(err))
    }
}

impl From<BuiltinError> for FnError {
    /// A builtin error becomes a non-retryable error with no fallback.
    fn from(err: BuiltinError) -> (r: Self) {
        FnError::from_kind(FnErrorKind::Builtin(err))
    }
}

impl vstd::std_specs::convert::FromSpecImpl<BuiltinError> for FnError {
    open spec fn obeys_from_spec() -> bool {
        true
    }

    open spec fn from_spec(err: BuiltinError) -> FnError {
        spec_from_kind(FnErrorKind::Builtin(err))
    }
}

impl From<InternalError> for FnError {
    /// An internal error's retry flag is derived solely from its cause.
    fn from(err: InternalError) -> (r: Self) {
        FnError::from_kind(FnErrorKind::Internal(err))
    }
}

impl vstd::std_specs::convert::FromSpecImpl<InternalError> for FnError {
    open spec fn obeys_from_spec() -> bool {
        true
    }

    open spec fn from_spec(err: InternalError) -> FnError {
        spec_from_kind(FnErrorKind::Internal(err))
    }
}

impl From<StorageError> for FnError {
    /// A storage failure is an internal error; its retry flag follows
    /// the cause's tag.
    fn from(cause: StorageError) -> (r: Self) {
        FnError::from_kind(FnErrorKind::Internal(InternalError::Storage(cause)))
    }
}

impl vstd::std_specs::convert::FromSpecImpl<StorageError> for FnError {
    open spec fn obeys_from_spec() -> bool {
        true
    }

    open spec fn from_spec(cause: StorageError) -> FnError {
        spec_from_kind(FnErrorKind::Internal(InternalError::Storage(cause)))
    }
}

impl TryFrom<FnError> for ArgumentError {
    type Error = ();

    /// Recovers the argument error, if that is what the error holds.
    fn try_from(value: FnError) -> (r: Result<Self, ()>) {
        match value.kind {
            FnErrorKind::Argument(e) => Ok(e),
            _ => Err(()),
        }
    }
}

impl vstd::std_specs::convert::TryFromSpecImpl<FnError> for ArgumentError {
    open spec fn obeys_try_from_spec() -> bool {
        true
    }

    open spec fn try_from_spec(value: FnError) -> Result<Self, ()> {
        match value.kind {
            FnErrorKind::Argument(e) => Ok(e),
            _ => Err(()),
        }
    }
}

impl TryFrom<FnError> for BuiltinError {
    type Error = ();

    /// Recovers the builtin error, if that is what the error holds.
    fn try_from(value: FnError) -> (r: Result<Self, ()>) {
        match value.kind {
            FnErrorKind::Builtin(e) => Ok(e),
            _ => Err(()),
        }
    }
}

impl vstd::std_specs::convert::TryFromSpecImpl<FnError> for BuiltinError {
    open spec fn obeys_try_from_spec() -> bool {
        true
    }

    open spec fn try_from_spec(value: FnError) -> Result<Self, ()> {
        match value.kind {
            FnErrorKind::Builtin(e) => Ok(e),
            _ => Err(()),
        }
    }
}

impl TryFrom<FnError> for InternalError {
    type Error = ();

    /// Recovers the internal error, if that is what the error holds.
    fn try_from(value: FnError) -> (r: Result<Self, ()>) {
        match value.kind {
            FnErrorKind::Internal(e) => Ok(e),
            _ => Err(()),
        }
    }
}

impl vstd::std_specs::convert::TryFromSpecImpl<FnError> for InternalError {
    open spec fn obeys_try_from_spec() -> bool {
        true
    }

    open spec fn try_from_spec(value: FnError) -> Result<Self, ()> {
        match value.kind {
            FnErrorKind::Internal(e) => Ok(e),
            _ => Err(()),
        }
    }
}

/// The message of a `WrongArgument` error for a named argument: it
/// contains the argument's name, the expected kind and a rendering of
/// the actual value.
pub open spec fn wrong_argument_msg(key: Seq<char>, expected: Seq<char>, got: Seq<char>) -> Seq<
    char,
> {
    "Expected "@ + key + " to be "@ + expected + " but it is "@ + got
}

/// The message of a `WrongArgument` error for a positional argument.
pub open spec fn wrong_unnamed_argument_msg(expected: Seq<char>, got: Seq<char>) -> Seq<char> {
    "Expected "@ + expected + " but "@ + got
}

impl ArgumentError {
    /// Builds a `WrongArgument` error whose message names the argument,
    /// the expected kind and the actual value.
    pub fn wrong_argument(key: &str, expected: &str, got: &str) -> (r: Self)
        ensures
            r matches ArgumentError::WrongArgument(m) && m@ == wrong_argument_msg(
                key@,
                expected@,
                got@,
            ),
    {
        let mut m = String::from_str("Expected ");
        m.append(key);
        m.append(" to be ");
        m.append(expected);
        m.append(" but it is ");
        m.append(got);
        proof {
            assert(m@ =~= wrong_argument_msg(key@, expected@, got@));
        }
        ArgumentError::WrongArgument(m)
    }
}

impl FnError {
    /// Builds a `WrongArgument` error for a positional argument, naming
    /// the expected and the actual value.
    pub fn wrong_unnamed_argument(expected: &str, got: &str) -> (r: Self)
        ensures
            r.kind matches FnErrorKind::Argument(ArgumentError::WrongArgument(m))
                && m@ == wrong_unnamed_argument_msg(expected@, got@),
            r.fallback is None,
            r.retry == false,
            r.wf(),
    {
        let mut m = String::from_str("Expected ");
        m.append(expected);
        m.append(" but ");
        m.append(got);
        proof {
            assert(m@ =~= wrong_unnamed_argument_msg(expected@, got@));
        }
        FnError::from_kind(FnErrorKind::Argument(ArgumentError::WrongArgument(m)))
    }

    /// Builds a `MissingNamed` error for a single absent argument,
    /// containing exactly that argument's name.
    pub fn missing_argument(val: &str) -> (r: Self)
        ensures
            r.kind matches FnErrorKind::Argument(ArgumentError::MissingNamed(names))
                && names@.len() == 1 && names@[0]@ == val@,
            r.fallback is None,
            r.retry == false,
            r.wf(),
    {
        let mut names: Vec<String> = Vec::new();
        names.push(val.to_owned());
        FnError::from_kind(FnErrorKind::Argument(ArgumentError::MissingNamed(names)))
    }
}

impl ArgumentError {
    /// The message this call-site mistake renders as.
    pub open spec fn spec_render(&self) -> Seq<char> {
        match self {
            ArgumentError::MissingPositionals { expected, got } => {
                "Missing positional arguments. Expected "@ + dec_rep(*expected as nat)
                    + " but got "@ + dec_rep(*got as nat) + "."@
            },
            ArgumentError::TrailingPositionals { expected, got } => {
                "Trailing positional arguments. Expected "@ + dec_rep(*expected as nat)
                    + " but got "@ + dec_rep(*got as nat) + "."@
            },
            ArgumentError::MissingNamed(names) => "Missing named arguments: "@ + spec_join_comma(
                names@,
            ),
            ArgumentError::UnexpectedArgument(name) => "Unknown named argument given: "@ + name@,
            ArgumentError::WrongArgument(msg) => "Wrong arguments given: "@ + msg@,
        }
    }

    /// Renders the mistake for diagnostics.
    pub fn render(&self) -> (r: String)
        ensures
            r@ == self.spec_render(),
    {
        match self {
            ArgumentError::MissingPositionals { expected, got } => {
                let mut s = String::from_str("Missing positional arguments. Expected ");
                let e = usize_to_dec(*expected);
                s.append(e.as_str());
                s.append(" but got ");
                let g = usize_to_dec(*got);
                s.append(g.as_str());
                s.append(".");
                proof {
                    assert(s@ =~= self.spec_render());
                }
                s
            },
            ArgumentError::TrailingPositionals { expected, got } => {
                let mut s = String::from_str("Trailing positional arguments. Expected ");
                let e = usize_to_dec(*expected);
                s.append(e.as_str());
                s.append(" but got ");
                let g = usize_to_dec(*got);
                s.append(g.as_str());
                s.append(".");
                proof {
                    assert(s@ =~= self.spec_render());
                }
                s
            },
            ArgumentError::MissingNamed(names) => {
                let mut s = String::from_str("Missing named arguments: ");
                let joined = join_comma_from(names, 0);
                s.append(joined.as_str());
                proof {
                    assert(names@.skip(0) =~= names@);
                }
                s
            },
            ArgumentError::UnexpectedArgument(name) => {
                let mut s = String::from_str("Unknown named argument given: ");
                s.append(name.as_str());
                s
            },
            ArgumentError::WrongArgument(msg) => {
                let mut s = String::from_str("Wrong arguments given: ");
                s.append(msg.as_str());
                s
            },
        }
    }
}

impl IoErrorKind {
    /// The phrase this input/output failure renders as.
    pub open spec fn spec_render(&self) -> Seq<char> {
        match self {
            IoErrorKind::NotFound => "entity not found"@,
            IoErrorKind::PermissionDenied => "permission denied"@,
            IoErrorKind::ConnectionRefused => "connection refused"@,
            IoErrorKind::ConnectionReset => "connection reset"@,
            IoErrorKind::TimedOut => "timed out"@,
            IoErrorKind::UnexpectedEof => "unexpected end of file"@,
            IoErrorKind::Other => "other error"@,
        }
    }

    /// Renders the failure for diagnostics.
    pub fn render(&self) -> (r: String)
        ensures
            r@ == self.spec_render(),
    {
        match self {
            IoErrorKind::NotFound => String::from_str("entity not found"),
            IoErrorKind::PermissionDenied => String::from_str("permission denied"),
            IoErrorKind::ConnectionRefused => String::from_str("connection refused"),
            IoErrorKind::ConnectionReset => String::from_str("connection reset"),
            IoErrorKind::TimedOut => String::from_str("timed out"),
            IoErrorKind::UnexpectedEof => String::from_str("unexpected end of file"),
            IoErrorKind::Other => String::from_str("other error"),
        }
    }
}

impl BuiltinError {
    /// The message this semantic failure renders as.
    pub open spec fn spec_render(&self) -> Seq<char> {
        match self {
            BuiltinError::General(msg) => msg@,
            BuiltinError::Io(kind) => kind.spec_render(),
        }
    }

    /// Renders the failure for diagnostics.
    pub fn render(&self) -> (r: String)
        ensures
            r@ == self.spec_render(),
    {
        match self {
            BuiltinError::General(msg) => msg.clone(),
            BuiltinError::Io(kind) => kind.render(),
        }
    }
}

impl InternalError {
    /// The message this infrastructure failure renders as.
    pub open spec fn spec_render(&self) -> Seq<char> {
        match self {
            InternalError::Storage(cause) => cause.spec_render(),
        }
    }

    /// Renders the failure for diagnostics.
    pub fn render(&self) -> (r: String)
        ensures
            r@ == self.spec_render(),
    {
        match self {
            InternalError::Storage(cause) => cause.render(),
        }
    }
}

impl FnErrorKind {
    /// The message this kind renders as: that of the wrapped failure.
    pub open spec fn spec_render(&self) -> Seq<char> {
        match self {
            FnErrorKind::Argument(e) => e.spec_render(),
            FnErrorKind::Builtin(e) => e.spec_render(),
            FnErrorKind::Internal(e) => e.spec_render(),
        }
    }

    /// Renders the kind for diagnostics.
    pub fn render(&self) -> (r: String)
        ensures
            r@ == self.spec_render(),
    {
        match self {
            FnErrorKind::Argument(e) => e.render(),
            FnErrorKind::Builtin(e) => e.render(),
            FnErrorKind::Internal(e) => e.render(),
        }
    }
}

impl FnError {
    /// The message the whole error renders as: that of its kind.
    pub open spec fn spec_render(&self) -> Seq<char> {
        self.kind.spec_render()
    }

    /// Renders the error for diagnostics.
    pub fn render(&self) -> (r: String)
        ensures
            r@ == self.spec_render(),
    {
        self.kind.render()
    }
}

/// A `WrongArgument` message carries all three parts verbatim: the
/// argument's name after the fixed prefix, the expected kind after
/// `" to be "`, and the rendering of the actual value at the end.
pub proof fn lemma_wrong_argument_msg_parts(key: Seq<char>, expected: Seq<char>, got: Seq<char>)
    ensures
        wrong_argument_msg(key, expected, got).len() == 27 + key.len() + expected.len()
            + got.len(),
        wrong_argument_msg(key, expected, got).subrange(9, 9 + key.len() as int) == key,
        wrong_argument_msg(key, expected, got).subrange(
            16 + key.len() as int,
            16 + key.len() + expected.len() as int,
        ) == expected,
        wrong_argument_msg(key, expected, got).subrange(
            27 + key.len() + expected.len() as int,
            27 + key.len() + expected.len() + got.len() as int,
        ) == got,
{
    reveal_strlit("Expected ");
    reveal_strlit(" to be ");
    reveal_strlit(" but it is ");
    let m = wrong_argument_msg(key, expected, got);
    assert(m.subrange(9, 9 + key.len() as int) =~= key);
    assert(m.subrange(16 + key.len() as int, 16 + key.len() + expected.len() as int) =~= expected);
    assert(m.subrange(
        27 + key.len() + expected.len() as int,
        27 + key.len() + expected.len() + got.len() as int,
    ) =~= got);
}

/// Retryability is derived solely from the storage cause's own tag: an
/// error built over a cause tagged transient-retry is retryable, and
/// one built over any other cause is not.
pub proof fn lemma_retry_follows_storage_tag(cause: StorageError)
    ensures
        spec_from_kind(FnErrorKind::Internal(InternalError::Storage(cause))).retry
            == cause.spec_is_retry(),
{
}

} // verus!
