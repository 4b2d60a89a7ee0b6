//! The shared argument prologue of the cipher built-ins: the named
//! arguments `key`, `data` and `iv` are required byte arguments, `len`
//! is an optional platform-sized length. The first argument that fails
//! to bind decides the error, in that order.

use vstd::prelude::*;

use crate::binder::get_data;
use crate::binder::get_iv;
use crate::binder::get_key;
use crate::binder::get_len;
use crate::binder::spec_len_outcome;
use crate::binder::spec_required_data_outcome;
use crate::error::FnError;
use crate::register::Register;
use crate::value::ContextType;
use crate::value::NaslValue;

verus! {

/// Whether a register entry binds as a byte argument: present, and
/// either data or text.
pub open spec fn spec_data_entry_ok(entry: Option<ContextType>) -> bool {
    entry matches Some(ContextType::Value(v)) && (v matches NaslValue::Data(_) || v
        matches NaslValue::String(_))
}

/// Whether a register entry binds as the optional length: absent, or a
/// number the platform can represent.
pub open spec fn spec_len_entry_ok(entry: Option<ContextType>) -> bool {
    match entry {
        None => true,
        Some(ContextType::Value(NaslValue::Number(x))) => 0 <= x && x <= usize::MAX,
        Some(_) => false,
    }
}

/// The bound arguments of one cipher call.
#[derive(Debug, PartialEq, Eq)]
pub struct CipherArgs {
    /// The cipher key's bytes.
    pub key: Vec<u8>,
    /// The payload bytes.
    pub data: Vec<u8>,
    /// The initialization vector's bytes.
    pub iv: Vec<u8>,
    /// The optional length constraint; absent means none is applied.
    pub len: Option<usize>,
}

/// What binding all four arguments must yield: the first argument that
/// fails — `key`, then `data`, then `iv`, then `len` — decides the
/// error, whatever the later entries hold; when all bind, each bound
/// value is exactly what its own extraction yields.
pub open spec fn spec_cipher_args_outcome(reg: Register, r: Result<CipherArgs, FnError>) -> bool {
    let ke = reg.spec_named("key"@);
    let de = reg.spec_named("data"@);
    let ie = reg.spec_named("iv"@);
    let le = reg.spec_named("len"@);
    if !spec_data_entry_ok(ke) {
        r matches Err(e) && spec_required_data_outcome(ke, "key"@, Err(e))
    } else if !spec_data_entry_ok(de) {
        r matches Err(e) && spec_required_data_outcome(de, "data"@, Err(e))
    } else if !spec_data_entry_ok(ie) {
        r matches Err(e) && spec_required_data_outcome(ie, "iv"@, Err(e))
    } else if !spec_len_entry_ok(le) {
        r matches Err(e) && spec_len_outcome(le, Err(e))
    } else {
        r matches Ok(args) && spec_required_data_outcome(ke, "key"@, Ok(args.key))
            && spec_required_data_outcome(de, "data"@, Ok(args.data))
            && spec_required_data_outcome(ie, "iv"@, Ok(args.iv)) && spec_len_outcome(
            le,
            Ok(args.len),
        )
    }
}

/// Binds the cipher arguments from a call register: `key`, `data` and
/// `iv` are required, `len` is optional. An absent required argument
/// fails with `MissingNamed` of exactly that name, whatever the other
/// arguments hold.
pub fn get_cipher_args(register: &Register) -> (r: Result<CipherArgs, FnError>)
    ensures
        spec_cipher_args_outcome(*register, r),
{
    let key = match get_key(register) {
        Ok(b) => b,
        Err(e) => {
            return Err(e);
        },
    };
    let data = match get_data(register) {
        Ok(b) => b,
        Err(e) => {
            return Err(e);
        },
    };
    let iv = match get_iv(register) {
        Ok(b) => b,
        Err(e) => {
            return Err(e);
        },
    };
    let len = match get_len(register) {
        Ok(l) => l,
        Err(e) => {
            return Err(e);
        },
    };
    Ok(CipherArgs { key, data, iv, len })
}

} // verus!
