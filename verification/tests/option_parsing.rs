use cargo_erlangapp::find_option;
use cargo_erlangapp::find_option_value;

fn find_option_value_wrapper(args: &[&str], key: &str) -> Option<String> {
    let argsv: Vec<String> = args.into_iter().cloned().map(From::from).collect();
    find_option_value(&argsv, key)
}

#[test]
fn test_find_option_value() {
    assert_eq!(None, find_option_value_wrapper(&[], "key"));
    assert_eq!(None, find_option_value_wrapper(&["asdfasdfasdfsdf"], "key"));
    assert_eq!(None, find_option_value_wrapper(&["asdfasdfasdfsdf", "sdfsf"], "key"));
    assert_eq!(None, find_option_value_wrapper(&["asdfasdfasdfsdf", "sdfsf", "sdfsdf"], "key"));
    assert_eq!(Some("value".to_string()), find_option_value_wrapper(&["key=value"], "key"));
    assert_eq!(Some("value".to_string()), find_option_value_wrapper(&["key", "=value"], "key"));
    assert_eq!(Some("value".to_string()), find_option_value_wrapper(&["key=", "value"], "key"));
    assert_eq!(Some("value".to_string()), find_option_value_wrapper(&["key", "=", "value"], "key"));
    assert_eq!(None, find_option_value_wrapper(&["key", "value"], "key"));
    assert_eq!(None, find_option_value_wrapper(&["key", "="], "key"));
    assert_eq!(None, find_option_value_wrapper(&["key"], "key"));
    assert_eq!(None, find_option_value_wrapper(&["key="], "key"));
}

#[test]
fn test_target_four_spellings() {
    let triple = Some("x86_64-unknown-linux-gnu".to_string());
    assert_eq!(
        triple,
        find_option_value_wrapper(&["--target=x86_64-unknown-linux-gnu"], "--target")
    );
    assert_eq!(
        triple,
        find_option_value_wrapper(&["--target=", "x86_64-unknown-linux-gnu"], "--target")
    );
    assert_eq!(
        triple,
        find_option_value_wrapper(&["--target", "=x86_64-unknown-linux-gnu"], "--target")
    );
    assert_eq!(
        triple,
        find_option_value_wrapper(&["--target", "=", "x86_64-unknown-linux-gnu"], "--target")
    );
}

#[test]
fn test_malformed_occurrence_then_found() {
    // The bare `key` resolves under no form; the scan passes it and its
    // successor and still finds the later proper occurrence.
    assert_eq!(
        Some("late".to_string()),
        find_option_value_wrapper(&["key", "other", "key=late"], "key")
    );
    // A malformed occurrence consumes its successor as well.
    assert_eq!(None, find_option_value_wrapper(&["key", "stray", "value"], "key"));
}

#[test]
fn test_first_match_wins() {
    assert_eq!(
        Some("first".to_string()),
        find_option_value_wrapper(&["key=first", "key=second"], "key")
    );
}

#[test]
fn test_find_option_exact_argument() {
    let args: Vec<String> = vec!["--release".to_string(), "-v".to_string()];
    assert!(find_option(&args, "--release"));
    assert!(!find_option(&args, "--debug"));
    assert!(!find_option(&args, "--rel"));
    assert!(!find_option(&[], "--release"));
}
