//! Deterministic text renderings used in diagnostic messages: decimal
//! numerals and short descriptions of values, proved to match their
//! specification character for character.

use vstd::prelude::*;
use vstd::string::*;

use crate::value::ContextType;
use crate::value::NaslValue;

verus! {

/// The character of a single decimal digit.
pub open spec fn dec_digit(d: nat) -> char
    recommends
        d < 10,
{
    if d == 0 {
        '0'
    } else if d == 1 {
        '1'
    } else if d == 2 {
        '2'
    } else if d == 3 {
        '3'
    } else if d == 4 {
        '4'
    } else if d == 5 {
        '5'
    } else if d == 6 {
        '6'
    } else if d == 7 {
        '7'
    } else if d == 8 {
        '8'
    } else {
        '9'
    }
}

/// The decimal numeral of a natural number, most significant digit first,
/// without leading zeros (a single `'0'` for zero).
pub open spec fn dec_rep(n: nat) -> Seq<char>
    decreases n,
{
    if n < 10 {
        seq![dec_digit(n)]
    } else {
        dec_rep(n / 10).push(dec_digit(n % 10))
    }
}

/// The decimal numeral of an integer: the numeral of its magnitude,
/// preceded by `'-'` when it is negative.
pub open spec fn dec_rep_signed(x: int) -> Seq<char> {
    if x >= 0 {
        dec_rep(x as nat)
    } else {
        seq!['-'] + dec_rep((-x) as nat)
    }
}

fn dec_digit_str(d: u64) -> (r: &'static str)
    requires
        d < 10,
    ensures
        r@ == seq![dec_digit(d as nat)],
{
    proof {
        reveal_strlit("0");
        reveal_strlit("1");
        reveal_strlit("2");
        reveal_strlit("3");
        reveal_strlit("4");
        reveal_strlit("5");
        reveal_strlit("6");
        reveal_strlit("7");
        reveal_strlit("8");
        reveal_strlit("9");
    }
    let r = if d == 0 {
        "0"
    } else if d == 1 {
        "1"
    } else if d == 2 {
        "2"
    } else if d == 3 {
        "3"
    } else if d == 4 {
        "4"
    } else if d == 5 {
        "5"
    } else if d == 6 {
        "6"
    } else if d == 7 {
        "7"
    } else if d == 8 {
        "8"
    } else {
        "9"
    };
    proof {
        assert(r@ =~= seq![dec_digit(d as nat)]);
    }
    r
}

/// Renders an unsigned number as its decimal numeral.
pub fn u64_to_dec(n: u64) -> (s: String)
    ensures
        s@ == dec_rep(n as nat),
    decreases n,
{
    if n < 10 {
        String::from_str(dec_digit_str(n))
    } else {
        let mut s = u64_to_dec(n / 10);
        s.append(dec_digit_str(n % 10));
        proof {
            assert(s@ =~= dec_rep(n as nat));
        }
        s
    }
}

/// Renders a platform-sized number as its decimal numeral.
pub fn usize_to_dec(n: usize) -> (s: String)
    ensures
        s@ == dec_rep(n as nat),
{
    u64_to_dec(n as u64)
}

/// What a value is rendered as inside diagnostic messages.
pub open spec fn spec_render_value(v: NaslValue) -> Seq<char> {
    match v {
        NaslValue::Null => "Null"@,
        NaslValue::Boolean(b) => if b {
            "Boolean(true)"@
        } else {
            "Boolean(false)"@
        },
        NaslValue::Number(n) => "Number("@ + dec_rep_signed(n as int) + ")"@,
        NaslValue::String(s) => "String("@ + s@ + ")"@,
        NaslValue::Data(d) => "Data("@ + dec_rep(d@.len()) + " bytes)"@,
        NaslValue::Array(items) => "Array("@ + dec_rep(items@.len()) + " elements)"@,
    }
}

/// What a register entry is rendered as inside diagnostic messages.
pub open spec fn spec_render_context(c: ContextType) -> Seq<char> {
    match c {
        ContextType::Value(v) => "Value("@ + spec_render_value(v) + ")"@,
        ContextType::Function(name) => "Function("@ + name@ + ")"@,
    }
}

/// Renders a value for diagnostics.
pub fn render_value(v: &NaslValue) -> (r: String)
    ensures
        r@ == spec_render_value(*v),
{
    match v {
        NaslValue::Null => String::from_str("Null"),
        NaslValue::Boolean(b) => {
            if *b {
                String::from_str("Boolean(true)")
            } else {
                String::from_str("Boolean(false)")
            }
        },
        NaslValue::Number(n) => {
            let mut s = String::from_str("Number(");
            let digits = i64_to_dec(*n);
            s.append(digits.as_str());
            s.append(")");
            proof {
                assert(s@ =~= spec_render_value(*v));
            }
            s
        },
        NaslValue::String(text) => {
            let mut s = String::from_str("String(");
            s.append(text.as_str());
            s.append(")");
            proof {
                assert(s@ =~= spec_render_value(*v));
            }
            s
        },
        NaslValue::Data(bytes) => {
            let mut s = String::from_str("Data(");
            let digits = usize_to_dec(bytes.len());
            s.append(digits.as_str());
            s.append(" bytes)");
            proof {
                assert(s@ =~= spec_render_value(*v));
            }
            s
        },
        NaslValue::Array(items) => {
            let mut s = String::from_str("Array(");
            let digits = usize_to_dec(items.len());
            s.append(digits.as_str());
            s.append(" elements)");
            proof {
                assert(s@ =~= spec_render_value(*v));
            }
            s
        },
    }
}

/// Renders a register entry for diagnostics.
pub fn render_context(c: &ContextType) -> (r: String)
    ensures
        r@ == spec_render_context(*c),
{
    match c {
        ContextType::Value(v) => {
            let mut s = String::from_str("Value(");
            let inner = render_value(v);
            s.append(inner.as_str());
            s.append(")");
            proof {
                assert(s@ =~= spec_render_context(*c));
            }
            s
        },
        ContextType::Function(name) => {
            let mut s = String::from_str("Function(");
            s.append(name.as_str());
            s.append(")");
            proof {
                assert(s@ =~= spec_render_context(*c));
            }
            s
        },
    }
}

/// Renders a signed number as its decimal numeral.
pub fn i64_to_dec(x: i64) -> (s: String)
    ensures
        s@ == dec_rep_signed(x as int),
{
    if x >= 0 {
        u64_to_dec(x as u64)
    } else {
        let mag: u64 = (-(x as i128)) as u64;
        proof {
            assert(mag as int == -(x as int));
        }
        let mut s = String::from_str("-");
        let digits = u64_to_dec(mag);
        s.append(digits.as_str());
        proof {
            reveal_strlit("-");
            assert(s@ =~= dec_rep_signed(x as int));
        }
        s
    }
}

} // verus!
