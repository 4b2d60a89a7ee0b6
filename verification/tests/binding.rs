use nasl_core::ArgumentError;
use nasl_core::ContextType;
use nasl_core::FnError;
use nasl_core::FnErrorKind;
use nasl_core::NaslValue;
use nasl_core::Register;
use nasl_core::get_cipher_args;
use nasl_core::get_len;
use nasl_core::get_named_data;
use nasl_core::get_named_number;

fn entry(name: &str, v: NaslValue) -> (String, ContextType) {
    (name.to_string(), ContextType::Value(v))
}

fn wrong_argument_message(e: FnError) -> String {
    match e.kind {
        FnErrorKind::Argument(ArgumentError::WrongArgument(m)) => m,
        other => panic!("expected a WrongArgument error, got {:?}", other),
    }
}

#[test]
fn required_absent_named_argument_is_missing_named() {
    let reg = Register::new(vec![entry("data", NaslValue::Data(vec![1u8]))], vec![]);
    let r = get_named_data(&reg, "key", true);
    match r {
        Err(e) => match e.kind {
            FnErrorKind::Argument(ArgumentError::MissingNamed(names)) => {
                assert_eq!(names, vec!["key".to_string()]);
            }
            other => panic!("expected MissingNamed, got {:?}", other),
        },
        Ok(v) => panic!("expected an error, got {:?}", v),
    }
}

#[test]
fn optional_absent_named_argument_is_no_error() {
    let reg = Register::new(vec![], vec![]);
    let r = get_named_data(&reg, "key", false);
    assert_eq!(r, Ok(None));
}

#[test]
fn wrong_kind_message_names_key_expectation_and_value() {
    let reg = Register::new(vec![entry("key", NaslValue::Number(42))], vec![]);
    let r = get_named_data(&reg, "key", true);
    let m = wrong_argument_message(r.expect_err("a number is not byte data"));
    assert_eq!(
        m,
        "Expected key to be a String or Data Value but it is Value(Number(42))"
    );
    assert!(m.contains("key"));
    assert!(m.contains("a String or Data Value"));
    assert!(m.contains("Number(42)"));
}

#[test]
fn wrong_kind_message_for_numbers() {
    let reg = Register::new(
        vec![entry("len", NaslValue::String("ten".to_string()))],
        vec![],
    );
    let r = get_named_number(&reg, "len", false);
    let m = wrong_argument_message(r.expect_err("text is not a number"));
    assert_eq!(m, "Expected len to be a Number Value but it is Value(String(ten))");
}

#[test]
fn text_where_bytes_expected_yields_utf8_encoding() {
    let text = "caf\u{e9} \u{2603}";
    let reg = Register::new(vec![entry("data", NaslValue::String(text.to_string()))], vec![]);
    let r = get_named_data(&reg, "data", true);
    assert_eq!(r, Ok(Some(text.as_bytes().to_vec())));
}

#[test]
fn data_bytes_are_passed_through_unchanged() {
    let bytes = vec![0u8, 255u8, 7u8];
    let reg = Register::new(vec![entry("data", NaslValue::Data(bytes.clone()))], vec![]);
    let r = get_named_data(&reg, "data", true);
    assert_eq!(r, Ok(Some(bytes)));
}

#[test]
fn number_in_range_is_narrowed_exactly() {
    let reg = Register::new(vec![entry("len", NaslValue::Number(16))], vec![]);
    assert_eq!(get_len(&reg), Ok(Some(16usize)));
}

#[test]
fn number_out_of_range_reports_min_max_and_value() {
    let reg = Register::new(vec![entry("len", NaslValue::Number(-1))], vec![]);
    let r = get_len(&reg);
    match r {
        Err(e) => match e.kind {
            FnErrorKind::Builtin(nasl_core::BuiltinError::General(m)) => {
                assert_eq!(
                    m,
                    "System only supports numbers between 0 and \
                     18446744073709551615 but was -1"
                );
            }
            other => panic!("expected a range error, got {:?}", other),
        },
        Ok(v) => panic!("expected an error, got {:?}", v),
    }
}

#[test]
fn omitted_len_applies_no_constraint() {
    let reg = Register::new(
        vec![
            entry("key", NaslValue::Data(vec![1u8])),
            entry("data", NaslValue::Data(vec![2u8])),
            entry("iv", NaslValue::Data(vec![3u8])),
        ],
        vec![],
    );
    let args = get_cipher_args(&reg).expect("all required arguments are present");
    assert_eq!(args.key, vec![1u8]);
    assert_eq!(args.data, vec![2u8]);
    assert_eq!(args.iv, vec![3u8]);
    assert_eq!(args.len, None);
}

#[test]
fn absent_key_fails_regardless_of_data_and_iv() {
    let reg = Register::new(
        vec![
            entry("data", NaslValue::Data(vec![2u8])),
            entry("iv", NaslValue::Data(vec![3u8])),
        ],
        vec![],
    );
    let e = get_cipher_args(&reg).expect_err("key is required");
    let ae = ArgumentError::try_from(e).expect("an argument error");
    assert_eq!(ae, ArgumentError::MissingNamed(vec!["key".to_string()]));
}

#[test]
fn negative_len_fails_descriptively_in_cipher_binding() {
    let reg = Register::new(
        vec![
            entry("key", NaslValue::Data(vec![1u8])),
            entry("data", NaslValue::Data(vec![2u8])),
            entry("iv", NaslValue::Data(vec![3u8])),
            entry("len", NaslValue::Number(-1)),
        ],
        vec![],
    );
    let e = get_cipher_args(&reg).expect_err("a negative length is unrepresentable");
    assert!(!e.retryable());
    let m = e.render();
    assert!(m.contains("between 0 and"));
    assert!(m.contains("but was -1"));
}

#[test]
fn duplicate_register_names_resolve_to_the_first_entry() {
    let reg = Register::new(
        vec![
            entry("len", NaslValue::Number(1)),
            entry("len", NaslValue::Number(2)),
        ],
        vec![],
    );
    assert_eq!(get_named_number(&reg, "len", true), Ok(Some(1)));
}

#[test]
fn positional_values_are_kept_in_order() {
    let reg = Register::new(
        vec![],
        vec![NaslValue::Number(1), NaslValue::Boolean(true), NaslValue::Null],
    );
    assert_eq!(reg.positional_len(), 3);
    assert_eq!(reg.positional()[1], NaslValue::Boolean(true));
}

#[test]
fn empty_text_yields_empty_bytes() {
    let reg = Register::new(
        vec![entry("data", NaslValue::String(String::new()))],
        vec![],
    );
    assert_eq!(get_named_data(&reg, "data", true), Ok(Some(vec![])));
}

#[test]
fn function_entry_is_not_byte_data() {
    let reg = Register::new(
        vec![("data".to_string(), ContextType::Function("helper".to_string()))],
        vec![],
    );
    let r = get_named_data(&reg, "data", true);
    let m = wrong_argument_message(r.expect_err("a function reference is not byte data"));
    assert_eq!(
        m,
        "Expected data to be a String or Data Value but it is Function(helper)"
    );
}
