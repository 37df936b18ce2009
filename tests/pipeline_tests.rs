use rust_multiplatform_template_lib::template::{run_pipeline, EchoPhase};
use rust_multiplatform_template_lib::{
    echo, is_signalled, CancellationToken, EchoPipeline, EchoResult, EchoStep, TemplateConfig,
    TemplateError, MAX_INPUT_SIZE,
};
use std::collections::hash_map::DefaultHasher;
use std::hash::{Hash, Hasher};
use std::sync::Arc;

fn std_hash_hex(input: &str) -> String {
    let mut hasher = DefaultHasher::new();
    input.hash(&mut hasher);
    format!("{:x}", hasher.finish())
}

#[test]
fn echo_length_counts_utf8_bytes() {
    let result = echo("h\u{e9}llo \u{1F30D}".to_string(), None).unwrap().unwrap();
    assert_eq!(result.text, "h\u{e9}llo \u{1F30D}");
    assert_eq!(result.length, 11);
    assert!(result.hash.is_none());
}

#[test]
fn empty_input_is_no_outcome_even_with_tiny_limit() {
    let config = TemplateConfig::new(0, true);
    assert!(config.validate_and_echo(String::new(), None).unwrap().is_none());
}

#[test]
fn oversized_hash_is_the_standard_hash_in_hex() {
    let input = "b".repeat(11);
    let config = TemplateConfig::new(10, true);
    match config.validate_and_echo(input.clone(), None) {
        Err(TemplateError::InputTooLarge { size, max, hash }) => {
            assert_eq!(size, 11);
            assert_eq!(max, 10);
            assert_eq!(hash, std_hash_hex(&input));
            assert!(hash.chars().all(|c| c.is_ascii_hexdigit() && !c.is_ascii_uppercase()));
        }
        other => panic!("unexpected result: {:?}", other),
    }
}

#[test]
fn oversized_hash_is_deterministic() {
    let input = "c".repeat(20);
    let first = TemplateError::input_too_large(20, 5, &input);
    let second = TemplateConfig::new(19, false).validate_and_echo(input.clone(), None);
    match (first, second) {
        (
            TemplateError::InputTooLarge { hash: h1, .. },
            Err(TemplateError::InputTooLarge { hash: h2, size, max }),
        ) => {
            assert_eq!(h1, h2);
            assert!(!h1.is_empty());
            assert_eq!(size, 20);
            assert_eq!(max, 19);
        }
        _ => panic!("expected two InputTooLarge errors"),
    }
}

#[test]
fn different_inputs_hash_differently() {
    let a = TemplateError::input_too_large(3, 1, "abc");
    let b = TemplateError::input_too_large(3, 1, "abd");
    assert_ne!(a, b);
}

#[test]
fn size_is_checked_before_content() {
    let input = format!("{}\0", "x".repeat(10));
    let result = TemplateConfig::new(5, true).validate_and_echo(input, None);
    assert!(matches!(result, Err(TemplateError::InputTooLarge { size: 11, max: 5, .. })));
}

#[test]
fn null_preview_of_long_input_is_cut_at_fifty_characters() {
    let input = format!("{}\0{}", "\u{e9}".repeat(40), "z".repeat(30));
    match echo(input.clone(), None) {
        Err(TemplateError::InvalidInput { error_message, input_preview }) => {
            assert_eq!(error_message, "Input contains null bytes");
            let expected: String = input.chars().take(50).collect::<String>() + "...";
            assert_eq!(input_preview, Some(expected));
        }
        other => panic!("unexpected result: {:?}", other),
    }
}

#[test]
fn null_preview_of_short_input_is_the_whole_input() {
    let input = "hello\0world".to_string();
    match echo(input.clone(), None) {
        Err(TemplateError::InvalidInput { error_message, input_preview }) => {
            assert!(error_message.contains("null"));
            assert_eq!(input_preview, Some(input));
        }
        other => panic!("unexpected result: {:?}", other),
    }
}

#[test]
fn preview_of_exactly_fifty_characters_has_no_ellipsis() {
    let input = format!("{}\0", "q".repeat(49));
    let err = TemplateError::invalid_input("bad".to_string(), Some(&input));
    assert_eq!(
        err,
        TemplateError::InvalidInput { error_message: "bad".to_string(), input_preview: Some(input) }
    );
}

#[test]
fn invalid_input_without_text_has_no_preview() {
    let err = TemplateError::invalid_input("bad".to_string(), None);
    assert_eq!(
        err,
        TemplateError::InvalidInput { error_message: "bad".to_string(), input_preview: None }
    );
}

#[test]
fn validation_off_lets_null_characters_through() {
    let config = TemplateConfig::new(100, false);
    let result = config.validate_and_echo("a\0b".to_string(), None).unwrap().unwrap();
    assert_eq!(result.text, "a\0b");
    assert_eq!(result.length, 3);
}

#[test]
fn cancellation_takes_priority_over_size() {
    let token = Arc::new(CancellationToken::new());
    token.cancel();
    let result = echo("a".repeat(MAX_INPUT_SIZE + 1), Some(token));
    assert_eq!(result, Err(TemplateError::operation_cancelled("echo")));
}

#[test]
fn cancellation_takes_priority_over_content() {
    let token = Arc::new(CancellationToken::new());
    token.cancel();
    let result = TemplateConfig::new(100, true).validate_and_echo("x\0".to_string(), Some(token));
    match result {
        Err(TemplateError::OperationCancelled { operation }) => {
            assert_eq!(operation, "validate_and_echo");
        }
        other => panic!("unexpected result: {:?}", other),
    }
}

#[test]
fn unset_token_lets_the_echo_through() {
    let token = Arc::new(CancellationToken::new());
    let result = echo("go".to_string(), Some(token)).unwrap().unwrap();
    assert_eq!(result.text, "go");
}

#[test]
fn cancel_twice_is_the_same_as_once() {
    let once = CancellationToken::new();
    once.cancel();
    let twice = CancellationToken::new();
    twice.cancel();
    twice.cancel();
    assert_eq!(once.is_cancelled(), twice.is_cancelled());
    assert!(twice.is_cancelled());
    let a = run_pipeline("echo", "x".to_string(), 10, true, Some(&once));
    let b = run_pipeline("echo", "x".to_string(), 10, true, Some(&twice));
    assert_eq!(a, b);
}

#[test]
fn clones_share_one_flag() {
    let token = CancellationToken::default();
    let other = token.clone();
    assert!(!other.is_cancelled());
    token.cancel();
    assert!(other.is_cancelled());
    assert!(is_signalled(Some(&other)));
    assert!(!is_signalled(None));
}

#[test]
fn pipeline_suspends_once_then_finishes() {
    let mut p = EchoPipeline::new("echo", "hi".to_string(), 10, true);
    assert_eq!(p.phase, EchoPhase::Start);
    assert!(matches!(p.step(false), EchoStep::Suspend));
    assert_eq!(p.phase, EchoPhase::Suspended);
    match p.step(false) {
        EchoStep::Finished(Ok(Some(r))) => {
            assert_eq!(r.text, "hi");
            assert_eq!(r.length, 2);
        }
        other => panic!("unexpected step: {:?}", other),
    }
    assert_eq!(p.phase, EchoPhase::Done);
}

#[test]
fn pipeline_cancelled_at_first_checkpoint() {
    let mut p = EchoPipeline::new("echo", "a".repeat(50), 10, true);
    match p.step(true) {
        EchoStep::Finished(Err(TemplateError::OperationCancelled { operation })) => {
            assert_eq!(operation, "echo");
        }
        other => panic!("unexpected step: {:?}", other),
    }
    assert_eq!(p.phase, EchoPhase::Done);
}

#[test]
fn pipeline_honours_cancellation_during_suspension() {
    let token = CancellationToken::new();
    let mut p = EchoPipeline::new("echo", "ok".to_string(), 10, true);
    assert!(matches!(p.step(is_signalled(Some(&token))), EchoStep::Suspend));
    token.cancel();
    match p.step(is_signalled(Some(&token))) {
        EchoStep::Finished(Err(TemplateError::OperationCancelled { operation })) => {
            assert_eq!(operation, "echo");
        }
        other => panic!("unexpected step: {:?}", other),
    }
}

#[test]
fn default_config_matches_library_limit() {
    let config = TemplateConfig::default();
    assert_eq!(config.max_input_size(), 1_000_000);
    assert!(config.enable_validation());
}

#[test]
fn echo_result_new_and_with_hash() {
    let r = EchoResult::new("abc".to_string());
    assert_eq!(r.text, "abc");
    assert_eq!(r.length, 3);
    assert!(r.timestamp > 0);
    assert!(r.hash.is_none());
    let stamped = r.timestamp;
    let h = r.with_hash("ff".to_string());
    assert_eq!(h.hash, Some("ff".to_string()));
    assert_eq!(h.text, "abc");
    assert_eq!(h.timestamp, stamped);
}

#[test]
fn operation_cancelled_keeps_the_name() {
    let err = TemplateError::operation_cancelled("batch");
    assert_eq!(err, TemplateError::OperationCancelled { operation: "batch".to_string() });
}
