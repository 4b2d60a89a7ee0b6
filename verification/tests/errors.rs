use nasl_core::ArgumentError;
use nasl_core::BuiltinError;
use nasl_core::CallDecision;
use nasl_core::FnError;
use nasl_core::FnErrorKind;
use nasl_core::FunctionError;
use nasl_core::InternalError;
use nasl_core::InterpretError;
use nasl_core::InterpretErrorKind;
use nasl_core::IoErrorKind;
use nasl_core::NaslValue;
use nasl_core::ReturnValue;
use nasl_core::Statement;
use nasl_core::StorageError;
use nasl_core::SyntaxError;
use nasl_core::Token;
use nasl_core::TokenCategory;
use nasl_core::WithErrorInfo;
use nasl_core::classify_call_result;

fn statement_at(line: usize, col: usize) -> Statement {
    Statement {
        start: Token {
            category: TokenCategory::Identifier,
            line,
            col,
        },
    }
}

#[test]
fn retry_tagged_storage_cause_is_retryable() {
    let e = FnError::from(InternalError::Storage(StorageError::Retry(
        "redis briefly away".to_string(),
    )));
    assert!(e.retryable());
}

#[test]
fn other_storage_causes_are_not_retryable() {
    let e = FnError::from(InternalError::Storage(StorageError::ConnectionLost(
        "gone".to_string(),
    )));
    assert!(!e.retryable());
    let e = FnError::from(StorageError::Dirty("half-written".to_string()));
    assert!(!e.retryable());
    let e = FnError::from(StorageError::UnexpectedData("wrong shape".to_string()));
    assert!(!e.retryable());
}

#[test]
fn storage_error_conversion_derives_retry_from_the_tag() {
    let e = FnError::from(StorageError::Retry("busy".to_string()));
    assert!(e.retryable());
    assert_eq!(e.return_value(), &None);
}

#[test]
fn argument_errors_are_never_retryable() {
    let e = FnError::from(ArgumentError::UnexpectedArgument("nope".to_string()));
    assert!(!e.retryable());
    assert_eq!(e.return_value(), &None);
}

#[test]
fn builtin_errors_are_never_retryable() {
    let e = FnError::from(BuiltinError::General("bad padding".to_string()));
    assert!(!e.retryable());
}

#[test]
fn fallback_value_is_returned_unchanged_on_repeated_inspection() {
    let e = FnError::from(BuiltinError::General("soft failure".to_string()));
    let e = e.with(ReturnValue(NaslValue::Number(42)));
    assert_eq!(e.return_value(), &Some(NaslValue::Number(42)));
    assert_eq!(e.return_value(), &Some(NaslValue::Number(42)));
    assert!(!e.retryable());
}

#[test]
fn success_continues_with_the_value() {
    let d = classify_call_result(Ok(NaslValue::Number(5)), 3);
    assert_eq!(d, CallDecision::Continue(NaslValue::Number(5)));
}

#[test]
fn retryable_error_is_retried_while_attempts_remain() {
    let e = FnError::from(StorageError::Retry("busy".to_string()));
    let d = classify_call_result(Err(e), 2);
    assert_eq!(d, CallDecision::Retry);
}

#[test]
fn exhausted_attempts_convert_to_fatal_propagation() {
    let e = FnError::from(StorageError::Retry("busy".to_string()));
    let d = classify_call_result(Err(e), 0);
    match d {
        CallDecision::Propagate(e) => assert!(e.retryable()),
        other => panic!("expected propagation, got {:?}", other),
    }
}

#[test]
fn permanent_error_with_fallback_continues_with_it() {
    let e = FnError::from(BuiltinError::General("soft".to_string()))
        .with(ReturnValue(NaslValue::Null));
    let d = classify_call_result(Err(e), 5);
    assert_eq!(d, CallDecision::ContinueWith(NaslValue::Null));
}

#[test]
fn permanent_error_without_fallback_propagates() {
    let e = FnError::from(ArgumentError::WrongArgument("bad".to_string()));
    let d = classify_call_result(Err(e), 5);
    match d {
        CallDecision::Propagate(e) => {
            assert!(matches!(e.kind, FnErrorKind::Argument(_)));
        }
        other => panic!("expected propagation, got {:?}", other),
    }
}

#[test]
fn recovering_the_wrong_kind_fails() {
    let e = FnError::from(ArgumentError::WrongArgument("bad".to_string()));
    assert_eq!(BuiltinError::try_from(e), Err(()));
    let e = FnError::from(BuiltinError::General("bad".to_string()));
    assert_eq!(InternalError::try_from(e), Err(()));
}

#[test]
fn missing_positionals_render_expected_and_got() {
    let e = ArgumentError::MissingPositionals { expected: 3, got: 1 };
    assert_eq!(e.render(), "Missing positional arguments. Expected 3 but got 1.");
    let e = ArgumentError::TrailingPositionals { expected: 2, got: 4 };
    assert_eq!(e.render(), "Trailing positional arguments. Expected 2 but got 4.");
}

#[test]
fn missing_named_renders_all_names() {
    let e = ArgumentError::MissingNamed(vec!["key".to_string(), "iv".to_string()]);
    assert_eq!(e.render(), "Missing named arguments: key, iv");
}

#[test]
fn unexpected_argument_renders_its_name() {
    let e = ArgumentError::UnexpectedArgument("mode".to_string());
    assert_eq!(e.render(), "Unknown named argument given: mode");
}

#[test]
fn wrong_unnamed_argument_builds_the_positional_message() {
    let e = FnError::wrong_unnamed_argument("a number", "nothing was given");
    assert_eq!(e.render(), "Wrong arguments given: Expected a number but nothing was given");
}

#[test]
fn missing_argument_builds_a_single_missing_named() {
    let e = FnError::missing_argument("key");
    assert_eq!(e.render(), "Missing named arguments: key");
    assert!(!e.retryable());
}

#[test]
fn known_origin_renders_a_location_prefix() {
    let stmt = statement_at(3, 7);
    let e = InterpretError::not_found("port").with_origin(&stmt);
    assert_eq!(e.line_column(), (3, 7));
    assert_eq!(e.line(), 3);
    assert_eq!(e.column(), 7);
    assert_eq!(e.render(), "3:7: Key not found: port");
}

#[test]
fn unknown_origin_renders_no_position_at_all() {
    let e = InterpretError::not_found("port");
    assert_eq!(e.line_column(), (0, 0));
    assert_eq!(e.render(), "Key not found: port");
}

#[test]
fn an_attached_origin_is_never_overwritten() {
    let first = statement_at(1, 2);
    let later = statement_at(9, 9);
    let e = InterpretError::expected_value()
        .with_origin(&first)
        .with_origin(&later);
    assert_eq!(e.origin, Some(first));
    assert_eq!(e.render(), "1:2: Expected a value but got a function.");
}

#[test]
fn include_errors_compose_file_name_and_inner_location() {
    let inner = SyntaxError {
        message: "unexpected end of file".to_string(),
        token: Some(Token {
            category: TokenCategory::UnknownSymbol,
            line: 12,
            col: 4,
        }),
    };
    let e = InterpretError::include_syntax_error("policy.inc", inner);
    assert_eq!(
        e.render(),
        "Error while including file policy.inc, line: 12, col: 4: unexpected end of file"
    );
}

#[test]
fn include_errors_without_a_token_omit_the_location() {
    let inner = SyntaxError {
        message: "empty input".to_string(),
        token: None,
    };
    let e = InterpretError::include_syntax_error("policy.inc", inner);
    assert_eq!(e.render(), "Error while including file policy.inc: empty input");
}

#[test]
fn function_call_errors_render_the_function_name() {
    let cause = FnError::from(BuiltinError::General("bad padding".to_string()));
    let fe = FunctionError::new("aes128_cbc_encrypt", cause);
    assert_eq!(
        fe.render(),
        "Error while calling function 'aes128_cbc_encrypt': bad padding"
    );
    let e = InterpretError::from(fe);
    assert!(matches!(e.kind, InterpretErrorKind::FunctionCallError(_)));
    assert_eq!(e.origin, None);
}

#[test]
fn an_io_cause_collapses_to_a_top_level_io_error() {
    let cause = FnError::from(BuiltinError::Io(IoErrorKind::ConnectionRefused));
    let fe = FunctionError::new("ssh_connect", cause);
    let e = InterpretError::from(fe);
    assert_eq!(e.kind, InterpretErrorKind::IOError(IoErrorKind::ConnectionRefused));
    assert_eq!(e.render(), "connection refused");
}

#[test]
fn a_storage_cause_is_preserved_with_the_function_name() {
    let cause = FnError::from(StorageError::Retry("busy".to_string()));
    let fe = FunctionError::new("get_kb_item", cause);
    let e = InterpretError::from(fe);
    assert_eq!(
        e.render(),
        "Error while calling function 'get_kb_item': retryable storage failure: busy"
    );
}

#[test]
fn lower_layer_errors_enter_the_context_without_an_origin() {
    let e = InterpretError::from(SyntaxError {
        message: "missing semicolon".to_string(),
        token: None,
    });
    assert_eq!(e.origin, None);
    assert_eq!(e.render(), "missing semicolon");

    let e = InterpretError::from(nasl_core::LoadError::NotFound("plugin.nasl".to_string()));
    assert_eq!(e.render(), "script not found: plugin.nasl");

    let e = InterpretError::from(StorageError::ConnectionLost("gone".to_string()));
    assert_eq!(e.render(), "storage connection lost: gone");

    let e = InterpretError::from(IoErrorKind::TimedOut);
    assert_eq!(e.render(), "timed out");
}

#[test]
fn a_formatting_failure_renders_its_fixed_message() {
    let e = InterpretError::new(InterpretErrorKind::FormatError, None);
    assert_eq!(e.render(), "an error occurred when formatting an argument");
}

#[test]
fn constructor_shorthands_carry_their_kinds() {
    let stmt = statement_at(2, 1);
    assert_eq!(
        InterpretError::expected_function().kind,
        InterpretErrorKind::ValueExpectedFunction
    );
    assert_eq!(
        InterpretError::wrong_category(&TokenCategory::Semicolon).render(),
        "Expected the category Semicolon"
    );
    assert_eq!(
        InterpretError::unsupported(&stmt, "an array").render(),
        "2:1: Expected the type an array"
    );
    assert_eq!(
        InterpretError::unparse_regex("fo[").render(),
        "Invalid regular expression: fo["
    );
    let e = InterpretError::from(TokenCategory::Comma);
    assert_eq!(e.render(), "Expected the category Comma");
}
