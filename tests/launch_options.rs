use send_to_vrc::error::AppError;
use send_to_vrc::launch_options::{parse_launch_options, LaunchOptionsMode};

#[test]
fn parses_no_args() {
    let result = parse_launch_options(vec!["app".to_string()]).unwrap();

    assert_eq!(result.mode, LaunchOptionsMode::Default);
}

#[test]
fn parses_no_subcommand_with_file() {
    let result = parse_launch_options(vec!["app".to_string(), "file.txt".to_string()]).unwrap();

    assert_eq!(
        result.mode,
        LaunchOptionsMode::Send {
            file: "file.txt".to_string()
        }
    );
}

#[test]
fn parses_send_subcommand() {
    let result = parse_launch_options(vec![
        "app".to_string(),
        "send".to_string(),
        "file.txt".to_string(),
    ])
    .unwrap();

    assert_eq!(
        result.mode,
        LaunchOptionsMode::Send {
            file: "file.txt".to_string()
        }
    );
}

#[test]
fn parses_capture_subcommand() {
    let result = parse_launch_options(vec!["app".to_string(), "capture".to_string()]).unwrap();

    assert_eq!(result.mode, LaunchOptionsMode::Capture);
}

#[test]
fn parses_empty_argument_list_as_default() {
    let result = parse_launch_options(vec![]).unwrap();
    assert_eq!(result.mode, LaunchOptionsMode::Default);
}

#[test]
fn send_without_file_is_refused() {
    let result = parse_launch_options(vec!["app".to_string(), "send".to_string()]);
    assert!(matches!(result, Err(AppError::Unknown(_))));
}

#[test]
fn capture_with_argument_is_refused() {
    let result = parse_launch_options(vec![
        "app".to_string(),
        "capture".to_string(),
        "x".to_string(),
    ]);
    assert!(matches!(result, Err(AppError::Unknown(_))));
}

#[test]
fn file_with_extra_argument_is_refused() {
    let result = parse_launch_options(vec![
        "app".to_string(),
        "a.png".to_string(),
        "b.png".to_string(),
    ]);
    assert!(matches!(result, Err(AppError::Unknown(_))));
}

#[test]
fn send_ignores_arguments_after_the_file() {
    let result = parse_launch_options(vec![
        "app".to_string(),
        "send".to_string(),
        "a.png".to_string(),
        "b.png".to_string(),
    ])
    .unwrap();
    assert_eq!(
        result.mode,
        LaunchOptionsMode::Send {
            file: "a.png".to_string()
        }
    );
}

#[test]
fn error_message_joins_context_and_cause() {
    let e = AppError::from_error_with_message("Failed to open image", "not found");
    assert!(matches!(e, AppError::Unknown(_)));
    assert_eq!(e.message(), "Failed to open image: not found");
}
