use quotes_api::handlers::{create, create_at, delete, read, update, update_at, Create};
use quotes_api::store::{Status, Table};

fn payload(book: &str, quote: &str) -> Create {
    Create { book: book.to_string(), quote: quote.to_string() }
}

#[test]
fn read_all_of_empty_table_is_empty() {
    let t: Table<Create> = Table::new();
    assert_eq!(read(&t).len(), 0);
}

#[test]
fn create_then_read_all_contains_the_record() {
    let mut t: Table<Create> = Table::new();
    let echoed = create_at(&mut t, payload("Dune", "Fear is the mind-killer"), 1_000);
    assert_eq!(echoed.book, "Dune");
    assert_eq!(echoed.quote, "Fear is the mind-killer");
    assert_eq!(echoed.created_at, 1_000);
    assert_eq!(echoed.updated_at, 1_000);

    let all = read(&t);
    assert_eq!(all.len(), 1);
    assert_eq!(all[0].id, 1);
    assert_eq!(all[0].book, "Dune");
    assert_eq!(all[0].quote, "Fear is the mind-killer");
    assert_eq!(all[0].created_at, 1_000);
    assert_eq!(all[0].updated_at, 1_000);
}

#[test]
fn quotes_add_scenario_with_wall_clock() {
    // The concrete scenario behind POST /quotes/add followed by GET
    // /quotes/all, with the instant sampled from the real clock.
    let mut t: Table<Create> = Table::new();
    let echoed = create(&mut t, payload("Dune", "Fear is the mind-killer"));
    assert_eq!(echoed.book, "Dune");
    assert_eq!(echoed.quote, "Fear is the mind-killer");
    assert_eq!(echoed.created_at, echoed.updated_at);

    let all = read(&t);
    assert_eq!(all.len(), 1);
    assert_eq!(all[0].book, "Dune");
    assert_eq!(all[0].quote, "Fear is the mind-killer");
    assert_eq!(all[0].created_at, echoed.created_at);
    assert_eq!(all[0].updated_at, echoed.created_at);
}

#[test]
fn update_missing_id_is_not_found_and_changes_nothing() {
    let mut t: Table<Create> = Table::new();
    create_at(&mut t, payload("Dune", "Fear is the mind-killer"), 1_000);
    let st = update_at(&mut t, 42, payload("Other", "Nothing"), 2_000);
    assert_eq!(st, Status::NotFound);

    let all = read(&t);
    assert_eq!(all.len(), 1);
    assert_eq!(all[0].book, "Dune");
    assert_eq!(all[0].quote, "Fear is the mind-killer");
    assert_eq!(all[0].updated_at, 1_000);
}

#[test]
fn update_existing_id_replaces_fields_and_advances_updated_at() {
    let mut t: Table<Create> = Table::new();
    create_at(&mut t, payload("Dune", "Fear is the mind-killer"), 1_000);
    let st = update_at(&mut t, 1, payload("Dune", "He who controls the spice"), 2_000);
    assert_eq!(st, Status::Success);

    let all = read(&t);
    assert_eq!(all.len(), 1);
    assert_eq!(all[0].id, 1);
    assert_eq!(all[0].quote, "He who controls the spice");
    assert_eq!(all[0].created_at, 1_000);
    assert_eq!(all[0].updated_at, 2_000);
    assert!(all[0].updated_at > all[0].created_at);
}

#[test]
fn delete_missing_id_is_not_found() {
    let mut t: Table<Create> = Table::new();
    create_at(&mut t, payload("Dune", "Fear is the mind-killer"), 1_000);
    assert_eq!(delete(&mut t, 7), Status::NotFound);
    assert_eq!(read(&t).len(), 1);
}

#[test]
fn delete_existing_id_removes_exactly_one_row() {
    let mut t: Table<Create> = Table::new();
    create_at(&mut t, payload("Dune", "Fear is the mind-killer"), 1_000);
    create_at(&mut t, payload("Hamlet", "To be, or not to be"), 1_500);
    assert_eq!(delete(&mut t, 1), Status::Success);

    let all = read(&t);
    assert_eq!(all.len(), 1);
    assert!(all.iter().all(|q| q.id != 1));
    assert_eq!(all[0].book, "Hamlet");
}

#[test]
fn ids_are_assigned_in_increasing_order_and_survive_deletes() {
    let mut t: Table<Create> = Table::new();
    create_at(&mut t, payload("A", "a"), 1);
    create_at(&mut t, payload("B", "b"), 2);
    assert_eq!(delete(&mut t, 2), Status::Success);
    create_at(&mut t, payload("C", "c"), 3);
    let all = read(&t);
    assert_eq!(all.len(), 2);
    assert_eq!(all[0].id, 1);
    assert_eq!(all[1].id, 3);
}

#[test]
fn update_with_wall_clock_replaces_the_fields() {
    let mut t: Table<Create> = Table::new();
    create(&mut t, payload("Dune", "Fear is the mind-killer"));
    let st = update(&mut t, 1, payload("Dune", "He who controls the spice"));
    assert_eq!(st, Status::Success);
    let all = read(&t);
    assert_eq!(all.len(), 1);
    assert_eq!(all[0].quote, "He who controls the spice");
}
