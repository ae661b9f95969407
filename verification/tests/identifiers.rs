use transit_topo::identifiers::{is_item_id, item_id};

#[test]
fn item_id_is_q_and_the_number() {
    assert_eq!(item_id(0), "Q0");
    assert_eq!(item_id(6), "Q6");
    assert_eq!(item_id(42), "Q42");
    assert_eq!(item_id(1000), "Q1000");
    assert_eq!(item_id(u64::MAX), "Q18446744073709551615");
}

#[test]
fn item_id_form_is_recognised() {
    assert!(is_item_id("Q1"));
    assert!(is_item_id("Q42"));
    assert!(is_item_id("Q007"));
    assert!(is_item_id(&item_id(123456)));
}

#[test]
fn other_forms_are_not_item_ids() {
    assert!(!is_item_id(""));
    assert!(!is_item_id("Q"));
    assert!(!is_item_id("42"));
    assert!(!is_item_id("q42"));
    assert!(!is_item_id("Q4x2"));
    assert!(!is_item_id("Q42 "));
    assert!(!is_item_id("P42"));
    assert!(!is_item_id("Régie des transports"));
    assert!(!is_item_id("Q٤٢"));
}
