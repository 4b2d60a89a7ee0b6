//! Core invocation layer of a scan-script runtime: the typed argument
//! binder over per-call registers, the cascading function registry, and
//! the structured, retry-aware error taxonomy through which built-in
//! functions report success, partial failure, or transient failure back
//! to the interpreter.

mod binder;
mod cipher;
mod error;
mod interpret;
mod outcome;
mod register;
mod registry;
mod render;
mod session;
mod storage;
mod syntax;
mod value;

pub use binder::get_data;
pub use binder::get_iv;
pub use binder::get_key;
pub use binder::get_len;
pub use binder::get_named_data;
pub use binder::get_named_number;
pub use cipher::CipherArgs;
pub use cipher::get_cipher_args;
pub use error::ArgumentError;
pub use error::BuiltinError;
pub use error::FnError;
pub use error::FnErrorKind;
pub use error::InternalError;
pub use error::IoErrorKind;
pub use error::ReturnValue;
pub use error::WithErrorInfo;
pub use interpret::FunctionError;
pub use interpret::InterpretError;
pub use interpret::InterpretErrorKind;
pub use interpret::render_interpret_kind;
pub use outcome::CallDecision;
pub use outcome::classify_call_result;
pub use register::Register;
pub use registry::Module;
pub use registry::Registry;
pub use registry::lemma_cascade_first_match;
pub use render::i64_to_dec;
pub use render::render_context;
pub use render::render_value;
pub use render::u64_to_dec;
pub use render::usize_to_dec;
pub use session::ChannelAction;
pub use session::ChannelEvent;
pub use session::RemoteExec;
pub use storage::StorageError;
pub use syntax::LoadError;
pub use syntax::Statement;
pub use syntax::SyntaxError;
pub use syntax::Token;
pub use syntax::TokenCategory;
pub use value::ContextType;
pub use value::NaslValue;
