use build_schemes::logs::{compile_commands_path, err_log_file_name, log_file_name, LOG_DIR};

#[test]
fn log_files_are_named_after_the_scheme() {
    assert_eq!(log_file_name("AppTests"), "AppTests.log");
    assert_eq!(err_log_file_name("AppTests"), "AppTests.err.log");
    assert_ne!(log_file_name("App"), err_log_file_name("App"));
}

#[test]
fn compile_commands_go_into_the_log_directory() {
    assert_eq!(
        compile_commands_path(LOG_DIR, "App"),
        "buildlogs/App_compile_commands.json"
    );
}
