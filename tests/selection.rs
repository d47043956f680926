use build_schemes::selection::{filter_schemes, matches_any_pattern};

fn names(items: &[&str]) -> Vec<String> {
    items.iter().map(|s| s.to_string()).collect()
}

#[test]
fn no_pattern_set_selects_everything() {
    let schemes = names(&["Zeta", "Alpha", "Mid"]);
    assert_eq!(filter_schemes(&schemes, &None), schemes);
}

#[test]
fn empty_pattern_set_selects_nothing() {
    let schemes = names(&["Zeta", "Alpha"]);
    assert!(filter_schemes(&schemes, &Some(Vec::new())).is_empty());
}

#[test]
fn selection_keeps_order_and_never_grows() {
    let schemes = names(&["NetTests", "Core", "Net", "UI", "CoreTests"]);
    let patterns = Some(names(&["Core", "Net"]));
    let picked = filter_schemes(&schemes, &patterns);
    assert_eq!(picked, names(&["NetTests", "Core", "Net", "CoreTests"]));
    assert!(picked.len() <= schemes.len());
}

#[test]
fn prefix_match_is_case_sensitive_and_literal() {
    let patterns = names(&["app", "A*"]);
    assert!(!matches_any_pattern("App", &patterns));
    assert!(matches_any_pattern("app", &patterns));
    assert!(!matches_any_pattern("AB", &patterns));
    assert!(matches_any_pattern("A*B", &patterns));
}

#[test]
fn empty_pattern_matches_every_scheme() {
    let patterns = names(&[""]);
    assert!(matches_any_pattern("Anything", &patterns));
    assert!(matches_any_pattern("", &patterns));
}

#[test]
fn pattern_longer_than_name_does_not_match() {
    let patterns = names(&["AppTests"]);
    assert!(!matches_any_pattern("App", &patterns));
}

#[test]
fn empty_scheme_list_selects_nothing() {
    let patterns = Some(names(&["App"]));
    assert!(filter_schemes(&Vec::new(), &patterns).is_empty());
}
