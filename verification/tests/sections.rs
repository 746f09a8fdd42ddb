use quotes_api::sections::{create, create_at, delete, read, update, update_at, Create};
use quotes_api::store::{Status, Table};

fn payload(name: &str) -> Create {
    Create { name: name.to_string(), aname: format!("{}-ar", name) }
}

#[test]
fn section_create_then_read_all_round_trip() {
    let mut t: Table<Create> = Table::new();
    let echoed = create_at(&mut t, payload("starters"), 300);
    assert_eq!(echoed.name, "starters");
    assert_eq!(echoed.aname, "starters-ar");
    assert_eq!(echoed.created_at, 300);
    assert_eq!(echoed.updated_at, 300);

    let all = read(&t);
    assert_eq!(all.len(), 1);
    assert_eq!(all[0].id, 1);
    assert_eq!(all[0].name, "starters");
    assert_eq!(all[0].aname, "starters-ar");
    assert_eq!(all[0].created_at, 300);
    assert_eq!(all[0].updated_at, 300);
}

#[test]
fn section_create_with_wall_clock_sets_equal_timestamps() {
    let mut t: Table<Create> = Table::new();
    let echoed = create(&mut t, payload("starters"));
    assert_eq!(echoed.created_at, echoed.updated_at);
    let all = read(&t);
    assert_eq!(all.len(), 1);
    assert_eq!(all[0].created_at, all[0].updated_at);
}

#[test]
fn section_update_echoes_the_new_values() {
    let mut t: Table<Create> = Table::new();
    create_at(&mut t, payload("starters"), 300);
    let (st, echoed) = update_at(&mut t, 1, payload("appetisers"), 400);
    assert_eq!(st, Status::Success);
    assert_eq!(echoed.name, "appetisers");
    assert_eq!(echoed.aname, "appetisers-ar");
    assert_eq!(echoed.created_at, 400);
    assert_eq!(echoed.updated_at, 400);

    let all = read(&t);
    assert_eq!(all[0].name, "appetisers");
    assert_eq!(all[0].created_at, 300);
    assert_eq!(all[0].updated_at, 400);
}

#[test]
fn section_update_missing_id_is_not_found_and_changes_nothing() {
    let mut t: Table<Create> = Table::new();
    create_at(&mut t, payload("starters"), 300);
    let (st, _) = update(&mut t, 3, payload("other"));
    assert_eq!(st, Status::NotFound);
    let all = read(&t);
    assert_eq!(all.len(), 1);
    assert_eq!(all[0].name, "starters");
    assert_eq!(all[0].updated_at, 300);
}

#[test]
fn section_delete_round_trip() {
    let mut t: Table<Create> = Table::new();
    create_at(&mut t, payload("starters"), 300);
    create_at(&mut t, payload("mains"), 301);
    assert_eq!(delete(&mut t, 9), Status::NotFound);
    assert_eq!(delete(&mut t, 1), Status::Success);
    let all = read(&t);
    assert_eq!(all.len(), 1);
    assert_eq!(all[0].name, "mains");
}
