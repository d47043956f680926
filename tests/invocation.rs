use build_schemes::invocation::{parse_args, parse_patterns, ArgError};

fn args(items: &[&str]) -> Vec<String> {
    items.iter().map(|s| s.to_string()).collect()
}

#[test]
fn missing_workspace_is_an_error() {
    let r = parse_args(&args(&["build"]));
    assert!(matches!(r, Err(ArgError::MissingWorkspace)));
    let r = parse_args(&Vec::new());
    assert!(matches!(r, Err(ArgError::MissingWorkspace)));
}

#[test]
fn missing_workspace_message_names_the_argument() {
    assert_eq!(ArgError::MissingWorkspace.message(), "Missing workspace argument");
}

#[test]
fn workspace_alone_selects_all_schemes() {
    let inv = parse_args(&args(&["build", "Demo.xcworkspace"])).unwrap();
    assert_eq!(inv.workspace, "Demo.xcworkspace");
    assert!(inv.patterns.is_none());
}

#[test]
fn pattern_argument_is_split_on_commas() {
    let inv = parse_args(&args(&["build", "Demo.xcworkspace", "App,Core,Net"])).unwrap();
    assert_eq!(inv.workspace, "Demo.xcworkspace");
    assert_eq!(inv.patterns, Some(args(&["App", "Core", "Net"])));
}

#[test]
fn splitting_keeps_empty_pieces() {
    assert_eq!(parse_patterns(""), args(&[""]));
    assert_eq!(parse_patterns("App"), args(&["App"]));
    assert_eq!(parse_patterns("App,"), args(&["App", ""]));
    assert_eq!(parse_patterns(",,x"), args(&["", "", "x"]));
}

#[test]
fn extra_arguments_are_ignored() {
    let inv = parse_args(&args(&["build", "W", "A", "extra"])).unwrap();
    assert_eq!(inv.workspace, "W");
    assert_eq!(inv.patterns, Some(args(&["A"])));
}
