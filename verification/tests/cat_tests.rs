use catr::{format_output, get_args, process_all, process_input, process_line};

fn lines(texts: &[&str]) -> Vec<String> {
    texts.iter().map(|t| t.to_string()).collect()
}

#[test]
fn plain_two_lines() {
    let input = lines(&["hello", "world"]);
    let out = process_input(false, false, &input);
    assert_eq!(out, "hello\nworld\n");
}

#[test]
fn number_all_two_lines() {
    let input = lines(&["hello", "world"]);
    let out = process_input(true, false, &input);
    assert_eq!(out, "     1\thello\n     2\tworld\n");
}

#[test]
fn number_nonblank_skips_blank() {
    let input = lines(&["a", "", "b"]);
    let out = process_input(false, true, &input);
    assert_eq!(out, "     1\ta\n\n     2\tb\n");
}

#[test]
fn both_flags_blank_line_keeps_stale_count() {
    let input = lines(&["", "a"]);
    let out = process_input(true, true, &input);
    assert_eq!(out, "     0\t\n     1\ta\n");
}

#[test]
fn empty_input_renders_nothing() {
    let input: Vec<String> = Vec::new();
    assert_eq!(process_input(false, false, &input), "");
    assert_eq!(process_input(true, false, &input), "");
    assert_eq!(process_input(false, true, &input), "");
}

#[test]
fn blank_lines_only_with_nonblank_flag() {
    let input = lines(&["", ""]);
    let out = process_input(false, true, &input);
    assert_eq!(out, "\n\n");
}

#[test]
fn plain_output_is_concatenation() {
    let input = lines(&["one", "two", "three"]);
    let out = process_input(false, false, &input);
    assert_eq!(out, "one\ntwo\nthree\n");
}

#[test]
fn second_run_repeats_first() {
    let input = lines(&["x", "", "y"]);
    let first = process_input(true, true, &input);
    let second = process_input(true, true, &input);
    assert_eq!(first, second);
}

#[test]
fn counter_restarts_at_input_boundary() {
    let inputs = vec![lines(&["x", "y"]), lines(&["z"])];
    let out = process_all(true, false, &inputs);
    assert_eq!(out, "     1\tx\n     2\ty\n     1\tz\n");
}

#[test]
fn multi_input_equals_inputs_side_by_side() {
    let first = lines(&["a", ""]);
    let second = lines(&["b"]);
    let inputs = vec![first.clone(), second.clone()];
    let joined = process_all(false, true, &inputs);
    let side_by_side = format!(
        "{}{}",
        process_input(false, true, &first),
        process_input(false, true, &second)
    );
    assert_eq!(joined, side_by_side);
}

#[test]
fn format_output_numbered() {
    assert_eq!(format_output(1, "hello", true), "     1\thello\n");
    assert_eq!(format_output(42, "x", true), "    42\tx\n");
}

#[test]
fn format_output_bare() {
    assert_eq!(format_output(7, "hello", false), "hello\n");
    assert_eq!(format_output(0, "", false), "\n");
}

#[test]
fn format_output_wide_number_keeps_all_digits() {
    assert_eq!(format_output(123456, "w", true), "123456\tw\n");
    assert_eq!(format_output(1234567, "w", true), "1234567\tw\n");
}

#[test]
fn process_line_counts_and_renders() {
    let (count, record) = process_line(true, false, 0, "hello");
    assert_eq!(count, 1);
    assert_eq!(record, "     1\thello\n");
    let (count, record) = process_line(false, true, 3, "");
    assert_eq!(count, 3);
    assert_eq!(record, "\n");
    let (count, record) = process_line(false, false, 3, "tail");
    assert_eq!(count, 4);
    assert_eq!(record, "tail\n");
}

#[test]
fn open_failure_message_names_input_and_cause() {
    let msg = catr::diag::open_failure_message("missing.txt", "No such file or directory");
    assert_eq!(msg, "Failed to open missing.txt: No such file or directory");
}

#[test]
fn get_args_defaults_to_stdin() {
    let config = get_args(Vec::new()).unwrap();
    assert_eq!(config.files, vec!["-".to_string()]);
    assert!(!config.number);
    assert!(!config.number_nonblank);
}

#[test]
fn get_args_short_number_flag() {
    let config = get_args(vec!["-n".to_string(), "a.txt".to_string()]).unwrap();
    assert!(config.number);
    assert!(!config.number_nonblank);
    assert_eq!(config.files, vec!["a.txt".to_string()]);
}

#[test]
fn get_args_long_flags() {
    let config = get_args(vec!["--number".to_string(), "--number-nonblank".to_string()]).unwrap();
    assert!(config.number);
    assert!(config.number_nonblank);
    assert_eq!(config.files, vec!["-".to_string()]);
}

#[test]
fn get_args_keeps_file_order() {
    let config = get_args(vec![
        "b.txt".to_string(),
        "-b".to_string(),
        "-".to_string(),
        "a.txt".to_string(),
    ])
    .unwrap();
    assert!(!config.number);
    assert!(config.number_nonblank);
    assert_eq!(
        config.files,
        vec!["b.txt".to_string(), "-".to_string(), "a.txt".to_string()]
    );
}

#[test]
fn get_args_rejects_unknown_flag() {
    let err = get_args(vec!["-x".to_string()]).unwrap_err();
    assert_eq!(err.arg, "-x");
    assert_eq!(err.message(), "invalid argument '-x'");
}

#[test]
fn get_args_reports_first_unknown_flag() {
    let err = get_args(vec![
        "a.txt".to_string(),
        "--wrong".to_string(),
        "-z".to_string(),
    ])
    .unwrap_err();
    assert_eq!(err.arg, "--wrong");
}

#[test]
fn get_args_accepts_any_file_name() {
    let config = get_args(vec!["missing.txt".to_string(), "valid.txt".to_string()]).unwrap();
    assert_eq!(
        config.files,
        vec!["missing.txt".to_string(), "valid.txt".to_string()]
    );
}

#[test]
fn get_args_empty_token_names_a_file() {
    let config = get_args(vec!["".to_string()]).unwrap();
    assert_eq!(config.files, vec!["".to_string()]);
}
