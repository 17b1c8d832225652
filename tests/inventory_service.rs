use rust_orm::models::inventory_model::{Inventory, InventoryForm};
use rust_orm::models::product_model::{Price, Product};
use rust_orm::outcome::{found_or_absent, RepoError, StoreFailure};
use rust_orm::services::inventory_service::{
    compose_inventory, plan_inventory_update, product_ids, single_inventory,
};

fn product(id: i32, name: &str) -> Product {
    Product {
        product_id: id,
        product_name: name.to_string(),
        product_desc: Some("desc".to_string()),
        product_category: "testcategory".to_string(),
        product_price: Price { bits: 10.99f32.to_bits() },
    }
}

fn inv(inventory_id: i32, product_id: i32, quantity: i32) -> Inventory {
    Inventory { inventory_id, product_id, quantity }
}

#[test]
fn listing_pairs_product_with_its_inventory() {
    let listing = compose_inventory(vec![product(7, "testprod")], &vec![inv(1, 7, 5)])
        .expect("one row per product");
    assert_eq!(listing.len(), 1);
    assert_eq!(listing[0].0.product_name, "testprod");
    assert_eq!(listing[0].1.map(|i| i.quantity), Some(5));
}

#[test]
fn listing_keeps_product_order_and_marks_missing_inventory() {
    let products = vec![product(3, "c"), product(1, "a"), product(2, "b")];
    let rows = vec![inv(10, 2, 4), inv(11, 3, 8)];
    let listing = compose_inventory(products, &rows).expect("one row per product");
    let ids: Vec<i32> = listing.iter().map(|(p, _)| p.product_id).collect();
    assert_eq!(ids, vec![3, 1, 2]);
    assert_eq!(listing[0].1, Some(inv(11, 3, 8)));
    assert_eq!(listing[1].1, None);
    assert_eq!(listing[2].1, Some(inv(10, 2, 4)));
}

#[test]
fn listing_ignores_rows_of_unlisted_products() {
    let listing = compose_inventory(vec![product(1, "a")], &vec![inv(1, 99, 4), inv(2, 99, 5)])
        .expect("listed products own no duplicate rows");
    assert_eq!(listing.len(), 1);
    assert_eq!(listing[0].1, None);
}

#[test]
fn listing_of_no_products_is_empty() {
    let listing = compose_inventory(Vec::new(), &vec![inv(1, 1, 1)]).expect("nothing listed");
    assert!(listing.is_empty());
}

#[test]
fn two_rows_for_one_product_fail_the_listing() {
    let products = vec![product(1, "a"), product(2, "b")];
    let rows = vec![inv(1, 2, 5), inv(2, 1, 1), inv(3, 2, 6)];
    assert_eq!(
        compose_inventory(products, &rows),
        Err(RepoError::IntegrityViolation { product_id: 2, rows: 2 })
    );
}

#[test]
fn listing_names_first_product_with_duplicates() {
    let products = vec![product(4, "d"), product(5, "e")];
    let rows = vec![inv(1, 5, 1), inv(2, 5, 1), inv(3, 4, 1), inv(4, 4, 1), inv(5, 4, 1)];
    assert_eq!(
        compose_inventory(products, &rows),
        Err(RepoError::IntegrityViolation { product_id: 4, rows: 3 })
    );
}

#[test]
fn lookup_by_product_id() {
    let rows = vec![inv(1, 8, 2), inv(2, 7, 5)];
    assert_eq!(single_inventory(&rows, 7), Ok(Some(inv(2, 7, 5))));
    assert_eq!(single_inventory(&rows, 6), Ok(None));
    assert_eq!(single_inventory(&Vec::new(), 6), Ok(None));
}

#[test]
fn lookup_by_product_id_with_two_rows_is_integrity_violation() {
    let rows = vec![inv(1, 7, 5), inv(2, 7, 3)];
    assert_eq!(
        single_inventory(&rows, 7),
        Err(RepoError::IntegrityViolation { product_id: 7, rows: 2 })
    );
}

#[test]
fn quantity_update_keeps_ids() {
    let form = InventoryForm { product_id: None, quantity: Some(3) };
    assert_eq!(plan_inventory_update(Some(inv(1, 7, 5)), form), Ok(inv(1, 7, 3)));
    let moved = InventoryForm { product_id: Some(9), quantity: None };
    assert_eq!(moved.apply_to(inv(1, 7, 5)), inv(1, 9, 5));
}

#[test]
fn update_of_missing_inventory_is_not_found() {
    let form = InventoryForm { product_id: None, quantity: Some(3) };
    assert_eq!(plan_inventory_update(None, form), Err(RepoError::NotFound));
}

#[test]
fn removed_inventory_lookup_is_absent() {
    let res: Result<Inventory, StoreFailure> = Err(StoreFailure::NoRows);
    assert_eq!(found_or_absent(res), Ok(None));
}

#[test]
fn ids_of_products_in_order() {
    assert_eq!(product_ids(&vec![product(5, "a"), product(2, "b")]), vec![5, 2]);
    assert!(product_ids(&Vec::new()).is_empty());
}
