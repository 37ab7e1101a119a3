use space_traders::text::{join, same_text};

#[test]
fn join_of_nothing_is_empty() {
    assert_eq!(join(&vec![], " "), "");
}

#[test]
fn join_of_one_has_no_gap() {
    assert_eq!(join(&vec!["IRON".to_string()], " "), "IRON");
}

#[test]
fn join_puts_the_gap_between_items() {
    let parts = vec!["IRON".to_string(), "COPPER".to_string(), "GOLD".to_string()];
    assert_eq!(join(&parts, " "), "IRON COPPER GOLD");
    assert_eq!(join(&parts, ", "), "IRON, COPPER, GOLD");
}

#[test]
fn join_keeps_empty_items() {
    let parts = vec!["".to_string(), "A".to_string(), "".to_string()];
    assert_eq!(join(&parts, "-"), "-A-");
}

#[test]
fn same_text_is_exact() {
    assert!(same_text("GAS_GIANT", "GAS_GIANT"));
    assert!(!same_text("GAS_GIANT", "gas_giant"));
    assert!(!same_text("GAS_GIANT", "GAS_GIANT "));
    assert!(!same_text("", "x"));
    assert!(same_text("", ""));
}
