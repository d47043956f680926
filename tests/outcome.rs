use build_schemes::outcome::{is_success_line, outcome_of_exit, outcome_of_output, OutputScan};

fn lines(items: &[&str]) -> Vec<String> {
    items.iter().map(|s| s.to_string()).collect()
}

#[test]
fn marker_line_means_success_whatever_the_exit_status() {
    let output = lines(&["CompileSwift normal arm64", "** BUILD SUCCEEDED **", "exit 65"]);
    assert!(outcome_of_output(&output));
}

#[test]
fn output_without_marker_is_a_failure() {
    let output = lines(&["CompileSwift normal arm64", "** BUILD FAILED **"]);
    assert!(!outcome_of_output(&output));
    assert!(!outcome_of_output(&Vec::new()));
}

#[test]
fn marker_must_start_the_line() {
    assert!(is_success_line("** BUILD SUCCEEDED ** [12.3 sec]"));
    assert!(!is_success_line("  ** BUILD SUCCEEDED **"));
    assert!(!is_success_line("** BUILD SUCCEEDED *"));
    assert!(!is_success_line("** build succeeded **"));
}

#[test]
fn scan_writes_each_line_with_a_newline_and_remembers_success() {
    let mut scan = OutputScan::new();
    assert!(!scan.outcome());
    assert_eq!(scan.observe("Building"), "Building\n");
    assert!(!scan.outcome());
    assert_eq!(scan.observe("** BUILD SUCCEEDED **"), "** BUILD SUCCEEDED **\n");
    assert!(scan.outcome());
    assert_eq!(scan.observe("later"), "later\n");
    assert!(scan.outcome());
}

#[test]
fn chained_outcome_follows_the_build_exit_status() {
    assert!(outcome_of_exit(true, false));
    assert!(!outcome_of_exit(false, true));
}
