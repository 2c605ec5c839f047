use cassettes::error::{CatalogError, StorageFault};
use cassettes::tape::{fields_filled, is_descending, Tape, TapeList};

fn tape(id: u32, title: &str, label: &str) -> Tape {
    Tape {
        id,
        title: title.to_string(),
        tape: label.to_string(),
        created_at: "2020-07-14 21:05:00".to_string(),
    }
}

fn list_of(ids: &[u32]) -> TapeList {
    let rows: Vec<Tape> = ids.iter().map(|id| tape(*id, "t", "l")).collect();
    TapeList::from_rows(rows).unwrap()
}

#[test]
fn a_record_is_made_of_its_four_values() {
    let made = Tape::new(
        7,
        "Alien".to_string(),
        "VHS-001".to_string(),
        "2020-07-14 21:05:00".to_string(),
    );
    assert_eq!(made, tape(7, "Alien", "VHS-001"));
    assert_eq!(made.created_at, "2020-07-14 21:05:00");
}

#[test]
fn fields_are_filled_only_when_both_hold_text() {
    assert!(fields_filled("Alien", "VHS-001"));
    assert!(!fields_filled("", "VHS-001"));
    assert!(!fields_filled("Alien", ""));
    assert!(!fields_filled("", ""));
    assert!(fields_filled(" ", " "));
}

#[test]
fn descending_ids_are_recognised() {
    assert!(is_descending(&vec![]));
    assert!(is_descending(&vec![tape(7, "a", "b")]));
    assert!(is_descending(&vec![tape(9, "a", "b"), tape(4, "c", "d"), tape(1, "e", "f")]));
    assert!(!is_descending(&vec![tape(1, "a", "b"), tape(2, "c", "d")]));
    assert!(!is_descending(&vec![tape(5, "a", "b"), tape(5, "c", "d")]));
    assert!(!is_descending(&vec![tape(9, "a", "b"), tape(4, "c", "d"), tape(6, "e", "f")]));
}

#[test]
fn a_list_is_made_of_rows_in_order() {
    let rows = vec![tape(3, "Matrix", "A1"), tape(2, "Alien", "B2")];
    let list = TapeList::from_rows(rows.clone()).unwrap();
    assert_eq!(list.len(), 2);
    assert_eq!(list.rows(), &rows);
    assert_eq!(list.get(0), Some(&rows[0]));
    assert_eq!(list.get(1), Some(&rows[1]));
    assert_eq!(list.get(2), None);
    assert_eq!(list.first(), Some(&rows[0]));
}

#[test]
fn rows_out_of_order_make_no_list() {
    let ascending = vec![tape(2, "Alien", "B2"), tape(3, "Matrix", "A1")];
    assert!(matches!(
        TapeList::from_rows(ascending),
        Err(CatalogError::Storage(StorageFault::Unordered))
    ));
    let twice = vec![tape(3, "Alien", "B2"), tape(3, "Matrix", "A1")];
    assert!(matches!(
        TapeList::from_rows(twice),
        Err(CatalogError::Storage(StorageFault::Unordered))
    ));
}

#[test]
fn the_empty_list_holds_nothing() {
    let list = TapeList::new();
    assert_eq!(list.len(), 0);
    assert_eq!(list.first(), None);
    assert_eq!(list.get(0), None);
    assert_eq!(list.position(1), None);
    assert_eq!(list.find(1), None);
    assert!(list.rows().is_empty());
}

#[test]
fn every_id_is_found_at_its_place() {
    let ids = [90, 71, 70, 33, 12, 5, 4, 1];
    let list = list_of(&ids);
    for (place, id) in ids.iter().enumerate() {
        assert_eq!(list.position(*id), Some(place));
        assert_eq!(list.find(*id).map(|t| t.id), Some(*id));
    }
}

#[test]
fn ids_that_are_not_listed_are_not_found() {
    let list = list_of(&[90, 71, 70, 33, 12, 5, 4, 1]);
    for id in [0, 2, 3, 6, 13, 34, 69, 72, 89, 91, u32::MAX] {
        assert_eq!(list.position(id), None);
        assert_eq!(list.find(id), None);
    }
}

#[test]
fn lists_of_one_and_two_are_searched() {
    let one = list_of(&[5]);
    assert_eq!(one.position(5), Some(0));
    assert_eq!(one.position(4), None);
    assert_eq!(one.position(6), None);
    let two = list_of(&[u32::MAX, 0]);
    assert_eq!(two.position(u32::MAX), Some(0));
    assert_eq!(two.position(0), Some(1));
    assert_eq!(two.position(1), None);
}
