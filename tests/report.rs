use build_schemes::report::status_line;

#[test]
fn status_line_paints_success_green() {
    colored::control::set_override(true);
    assert_eq!(status_line("App", true), "\r\x1b[32mApp\x1b[0m");
}

#[test]
fn status_line_paints_failure_red() {
    colored::control::set_override(true);
    assert_eq!(status_line("App", false), "\r\x1b[31mApp\x1b[0m");
}
