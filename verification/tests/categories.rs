use quotes_api::categories::{create_at, delete, read, read_by_id, update_at, Create};
use quotes_api::store::{Status, Table};

#[allow(non_snake_case)]
fn payload(name: &str, secId: i32) -> Create {
    Create {
        name: name.to_string(),
        aname: format!("{}-ar", name),
        secId,
        IMG: format!("{}.png", name),
    }
}

#[test]
fn read_by_parent_returns_exactly_the_matching_rows() {
    let mut t: Table<Create> = Table::new();
    create_at(&mut t, payload("drinks", 1), 10);
    create_at(&mut t, payload("mains", 2), 11);
    create_at(&mut t, payload("desserts", 1), 12);

    let of_section_one = read_by_id(&t, 1);
    assert_eq!(of_section_one.len(), 2);
    assert_eq!(of_section_one[0].name, "drinks");
    assert_eq!(of_section_one[0].id, 1);
    assert_eq!(of_section_one[1].name, "desserts");
    assert_eq!(of_section_one[1].id, 3);
    assert!(of_section_one.iter().all(|c| c.secId == 1));
}

#[test]
fn read_by_parent_with_no_match_is_empty_not_an_error() {
    let mut t: Table<Create> = Table::new();
    create_at(&mut t, payload("drinks", 1), 10);
    assert_eq!(read_by_id(&t, 9).len(), 0);
    let empty: Table<Create> = Table::new();
    assert_eq!(read_by_id(&empty, 1).len(), 0);
}

#[test]
fn category_create_echoes_all_fields() {
    let mut t: Table<Create> = Table::new();
    let echoed = create_at(&mut t, payload("drinks", 4), 99);
    assert_eq!(echoed.name, "drinks");
    assert_eq!(echoed.aname, "drinks-ar");
    assert_eq!(echoed.secId, 4);
    assert_eq!(echoed.IMG, "drinks.png");
    assert_eq!(echoed.created_at, 99);
    assert_eq!(echoed.updated_at, 99);
}

#[test]
fn category_update_round_trip_shows_new_fields() {
    let mut t: Table<Create> = Table::new();
    create_at(&mut t, payload("drinks", 1), 10);
    let (st, echoed) = update_at(&mut t, 1, payload("beverages", 2), 20);
    assert_eq!(st, Status::Success);
    assert_eq!(echoed.name, "beverages");
    assert_eq!(echoed.secId, 2);

    let all = read(&t);
    assert_eq!(all.len(), 1);
    assert_eq!(all[0].name, "beverages");
    assert_eq!(all[0].secId, 2);
    assert_eq!(all[0].created_at, 10);
    assert_eq!(all[0].updated_at, 20);
}

#[test]
fn category_update_and_delete_of_missing_id_are_not_found() {
    let mut t: Table<Create> = Table::new();
    let (st, _) = update_at(&mut t, 5, payload("x", 1), 20);
    assert_eq!(st, Status::NotFound);
    assert_eq!(delete(&mut t, 5), Status::NotFound);
    assert_eq!(read(&t).len(), 0);
}

#[test]
fn category_delete_removes_the_row_from_filtered_reads_too() {
    let mut t: Table<Create> = Table::new();
    create_at(&mut t, payload("drinks", 1), 10);
    create_at(&mut t, payload("desserts", 1), 11);
    assert_eq!(delete(&mut t, 1), Status::Success);
    let left = read_by_id(&t, 1);
    assert_eq!(left.len(), 1);
    assert_eq!(left[0].name, "desserts");
}
