//! The argument binder: validated, typed extraction of named arguments
//! from a call register. Every diagnostic it produces names the
//! argument, the expected kind and the actual value, and every outcome
//! is pinned down for every possible register.

use vstd::prelude::*;
use vstd::slice::slice_to_vec;
use vstd::string::*;
use vstd::utf8::encode_utf8;

use crate::error::ArgumentError;
use crate::error::BuiltinError;
use crate::error::FnError;
use crate::error::FnErrorKind;
use crate::error::wrong_argument_msg;
use crate::register::Register;
use crate::render::dec_rep;
use crate::render::dec_rep_signed;
use crate::render::i64_to_dec;
use crate::render::render_context;
use crate::render::spec_render_context;
use crate::render::usize_to_dec;
use crate::value::ContextType;
use crate::value::NaslValue;

verus! {

/// What extracting the named byte argument `key` must yield for the
/// entry the register holds: the bytes of a data value, the UTF-8
/// encoding of a text value, a `WrongArgument` diagnostic for an entry
/// of any other kind, and, when the argument is absent, `MissingNamed`
/// if it was required and the empty result otherwise.
pub open spec fn spec_data_outcome(
    entry: Option<ContextType>,
    key: Seq<char>,
    required: bool,
    r: Result<Option<Vec<u8>>, FnError>,
) -> bool {
    match entry {
        Some(ContextType::Value(NaslValue::Data(d))) => r matches Ok(Some(b)) && b@ == d@,
        Some(ContextType::Value(NaslValue::String(s))) => r matches Ok(Some(b)) && b@
            == encode_utf8(s@),
        Some(c) => r matches Err(e) && e.kind matches FnErrorKind::Argument(
            ArgumentError::WrongArgument(m),
        ) && m@ == wrong_argument_msg(key, "a String or Data Value"@, spec_render_context(c))
            && e.fallback is None && e.retry == false,
        None => if required {
            r matches Err(e) && e.kind matches FnErrorKind::Argument(ArgumentError::MissingNamed(ns))
                && ns@.len() == 1 && ns@[0]@ == key && e.fallback is None && e.retry == false
        } else {
            r matches Ok(o) && o is None
        },
    }
}

/// Extracts a named argument that must hold byte data. A text value is
/// deliberately accepted wherever bytes are expected; it yields exactly
/// the UTF-8 encoding of the text.
pub fn get_named_data(register: &Register, key: &str, required: bool) -> (r: Result<
    Option<Vec<u8>>,
    FnError,
>)
    ensures
        spec_data_outcome(register.spec_named(key@), key@, required, r),
{
    match register.named(key) {
        Some(ContextType::Value(NaslValue::Data(x))) => Ok(Some(slice_to_vec(x.as_slice()))),
        Some(ContextType::Value(NaslValue::String(x))) => Ok(Some(x.as_str().as_bytes_vec())),
        Some(x) => {
            let rendered = render_context(x);
            Err(
                FnError::from_kind(
                    FnErrorKind::Argument(
                        ArgumentError::wrong_argument(
                            key,
                            "a String or Data Value",
                            rendered.as_str(),
                        ),
                    ),
                ),
            )
        },
        None => {
            if required {
                Err(FnError::missing_argument(key))
            } else {
                Ok(None)
            }
        },
    }
}

/// What extracting the named number argument `key` must yield for the
/// entry the register holds.
pub open spec fn spec_number_outcome(
    entry: Option<ContextType>,
    key: Seq<char>,
    required: bool,
    r: Result<Option<i64>, FnError>,
) -> bool {
    match entry {
        Some(ContextType::Value(NaslValue::Number(x))) => r == Ok::<Option<i64>, FnError>(
            Some(x),
        ),
        Some(c) => r matches Err(e) && e.kind matches FnErrorKind::Argument(
            ArgumentError::WrongArgument(m),
        ) && m@ == wrong_argument_msg(key, "a Number Value"@, spec_render_context(c))
            && e.fallback is None && e.retry == false,
        None => if required {
            r matches Err(e) && e.kind matches FnErrorKind::Argument(ArgumentError::MissingNamed(ns))
                && ns@.len() == 1 && ns@[0]@ == key && e.fallback is None && e.retry == false
        } else {
            r == Ok::<Option<i64>, FnError>(None)
        },
    }
}

/// Extracts a named argument that must hold a number.
pub fn get_named_number(register: &Register, key: &str, required: bool) -> (r: Result<
    Option<i64>,
    FnError,
>)
    ensures
        spec_number_outcome(register.spec_named(key@), key@, required, r),
{
    match register.named(key) {
        Some(ContextType::Value(NaslValue::Number(x))) => Ok(Some(*x)),
        Some(x) => {
            let rendered = render_context(x);
            Err(
                FnError::from_kind(
                    FnErrorKind::Argument(
                        ArgumentError::wrong_argument(key, "a Number Value", rendered.as_str()),
                    ),
                ),
            )
        },
        None => {
            if required {
                Err(FnError::missing_argument(key))
            } else {
                Ok(None)
            }
        },
    }
}

/// What extracting a required byte argument must yield: the absent case
/// of the optional form is owed an error, never an empty result.
pub open spec fn spec_required_data_outcome(
    entry: Option<ContextType>,
    key: Seq<char>,
    r: Result<Vec<u8>, FnError>,
) -> bool {
    match entry {
        Some(ContextType::Value(NaslValue::Data(d))) => r matches Ok(b) && b@ == d@,
        Some(ContextType::Value(NaslValue::String(s))) => r matches Ok(b) && b@ == encode_utf8(s@),
        Some(c) => r matches Err(e) && e.kind matches FnErrorKind::Argument(
            ArgumentError::WrongArgument(m),
        ) && m@ == wrong_argument_msg(key, "a String or Data Value"@, spec_render_context(c))
            && e.fallback is None && e.retry == false,
        None => r matches Err(e) && e.kind matches FnErrorKind::Argument(
            ArgumentError::MissingNamed(ns),
        ) && ns@.len() == 1 && ns@[0]@ == key && e.fallback is None && e.retry == false,
    }
}

fn get_required_data(register: &Register, key: &str) -> (r: Result<Vec<u8>, FnError>)
    ensures
        spec_required_data_outcome(register.spec_named(key@), key@, r),
{
    match get_named_data(register, key, true) {
        Ok(Some(b)) => Ok(b),
        Ok(None) => unreached(),
        Err(e) => Err(e),
    }
}

/// Extracts the required `key` argument; its result is always present
/// on success and need never be re-checked downstream.
pub fn get_key(register: &Register) -> (r: Result<Vec<u8>, FnError>)
    ensures
        spec_required_data_outcome(register.spec_named("key"@), "key"@, r),
{
    get_required_data(register, "key")
}

/// Extracts the required `data` argument.
pub fn get_data(register: &Register) -> (r: Result<Vec<u8>, FnError>)
    ensures
        spec_required_data_outcome(register.spec_named("data"@), "data"@, r),
{
    get_required_data(register, "data")
}

/// Extracts the required `iv` argument.
pub fn get_iv(register: &Register) -> (r: Result<Vec<u8>, FnError>)
    ensures
        spec_required_data_outcome(register.spec_named("iv"@), "iv"@, r),
{
    get_required_data(register, "iv")
}

/// The message of the error for a number the platform cannot represent:
/// it reports the platform's minimum, its maximum and the offending
/// value.
pub open spec fn number_range_msg(x: int) -> Seq<char> {
    "System only supports numbers between "@ + dec_rep(0) + " and "@ + dec_rep(usize::MAX as nat)
        + " but was "@ + dec_rep_signed(x)
}

/// What extracting the optional `len` argument must yield: absence is
/// no error, a number inside the platform's range is narrowed exactly,
/// and one outside it is reported with the full range — never silently
/// wrapped or truncated. The out-of-range case is an operational error,
/// not a call-site mistake: the argument itself was well-formed.
pub open spec fn spec_len_outcome(entry: Option<ContextType>, r: Result<
    Option<usize>,
    FnError,
>) -> bool {
    match entry {
        Some(ContextType::Value(NaslValue::Number(x))) => if 0 <= x && x <= usize::MAX {
            r matches Ok(o) && o matches Some(n) && n == x as usize
        } else {
            r matches Err(e) && e.kind matches FnErrorKind::Builtin(BuiltinError::General(m)) && m@
                == number_range_msg(x as int) && e.fallback is None && e.retry == false
        },
        Some(c) => r matches Err(e) && e.kind matches FnErrorKind::Argument(
            ArgumentError::WrongArgument(m),
        ) && m@ == wrong_argument_msg("len"@, "a Number Value"@, spec_render_context(c))
            && e.fallback is None && e.retry == false,
        None => r matches Ok(o) && o is None,
    }
}

/// Extracts the optional `len` argument, narrowing it to the platform's
/// unsigned size type.
pub fn get_len(register: &Register) -> (r: Result<Option<usize>, FnError>)
    ensures
        spec_len_outcome(register.spec_named("len"@), r),
{
    match get_named_number(register, "len", false) {
        Ok(None) => Ok(None),
        Ok(Some(x)) => {
            if x >= 0 && (x as u64) <= (usize::MAX as u64) {
                Ok(Some(x as usize))
            } else {
                let mut m = String::from_str("System only supports numbers between ");
                let min_digits = usize_to_dec(0);
                m.append(min_digits.as_str());
                m.append(" and ");
                let max_digits = usize_to_dec(usize::MAX);
                m.append(max_digits.as_str());
                m.append(" but was ");
                let got_digits = i64_to_dec(x);
                m.append(got_digits.as_str());
                proof {
                    assert(m@ =~= number_range_msg(x as int));
                }
                Err(FnError::from_kind(FnErrorKind::Builtin(BuiltinError::General(m))))
            }
        },
        Err(e) => Err(e),
    }
}

} // verus!
