use quotes_api::items::{create_at, delete, read, read_by_id, update_at, Create};
use quotes_api::store::{Status, Table};

#[allow(non_snake_case)]
fn payload(name: &str, catId: i32, price: &str) -> Create {
    Create {
        catId,
        name: name.to_string(),
        aname: format!("{}-ar", name),
        IMG: format!("{}.png", name),
        price: price.to_string(),
        desc: format!("a {}", name),
        adesc: format!("a {} ar", name),
    }
}

#[test]
fn item_create_then_read_all_round_trip() {
    let mut t: Table<Create> = Table::new();
    let echoed = create_at(&mut t, payload("tea", 3, "2.50"), 500);
    assert_eq!(echoed.name, "tea");
    assert_eq!(echoed.catId, 3);
    assert_eq!(echoed.price, "2.50");
    assert_eq!(echoed.desc, "a tea");
    assert_eq!(echoed.adesc, "a tea ar");
    assert_eq!(echoed.created_at, 500);
    assert_eq!(echoed.updated_at, 500);

    let all = read(&t);
    assert_eq!(all.len(), 1);
    assert_eq!(all[0].id, 1);
    assert_eq!(all[0].catId, 3);
    assert_eq!(all[0].name, "tea");
    assert_eq!(all[0].IMG, "tea.png");
    assert_eq!(all[0].price, "2.50");
    assert_eq!(all[0].created_at, 500);
    assert_eq!(all[0].updated_at, 500);
}

#[test]
fn item_read_by_parent_filters_on_cat_id() {
    let mut t: Table<Create> = Table::new();
    create_at(&mut t, payload("tea", 3, "2.50"), 500);
    create_at(&mut t, payload("cake", 4, "5.00"), 501);
    create_at(&mut t, payload("coffee", 3, "3.00"), 502);

    let of_cat_three = read_by_id(&t, 3);
    assert_eq!(of_cat_three.len(), 2);
    assert_eq!(of_cat_three[0].name, "tea");
    assert_eq!(of_cat_three[1].name, "coffee");
    assert!(of_cat_three.iter().all(|i| i.catId == 3));
    assert_eq!(read_by_id(&t, 8).len(), 0);
}

#[test]
fn item_update_replaces_every_user_field() {
    let mut t: Table<Create> = Table::new();
    create_at(&mut t, payload("tea", 3, "2.50"), 500);
    let (st, _) = update_at(&mut t, 1, payload("green tea", 4, "2.75"), 600);
    assert_eq!(st, Status::Success);

    let all = read(&t);
    assert_eq!(all.len(), 1);
    assert_eq!(all[0].name, "green tea");
    assert_eq!(all[0].catId, 4);
    assert_eq!(all[0].price, "2.75");
    assert_eq!(all[0].created_at, 500);
    assert_eq!(all[0].updated_at, 600);
}

#[test]
fn item_update_and_delete_missing_id_are_not_found() {
    let mut t: Table<Create> = Table::new();
    create_at(&mut t, payload("tea", 3, "2.50"), 500);
    let (st, _) = update_at(&mut t, 2, payload("x", 1, "0"), 600);
    assert_eq!(st, Status::NotFound);
    assert_eq!(delete(&mut t, 2), Status::NotFound);
    let all = read(&t);
    assert_eq!(all.len(), 1);
    assert_eq!(all[0].name, "tea");
    assert_eq!(all[0].updated_at, 500);
}

#[test]
fn item_delete_existing_id_removes_it() {
    let mut t: Table<Create> = Table::new();
    create_at(&mut t, payload("tea", 3, "2.50"), 500);
    create_at(&mut t, payload("cake", 4, "5.00"), 501);
    assert_eq!(delete(&mut t, 1), Status::Success);
    let all = read(&t);
    assert_eq!(all.len(), 1);
    assert_eq!(all[0].name, "cake");
}
