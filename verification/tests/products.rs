use storefront::products::price::Price;
use storefront::products::product::Product;
use storefront::products::products_repository::{MemoryProductsRepository, ProductRepository};
use storefront::products::Error;

fn money(value: f64) -> Price {
    Price::from_bits(value.to_bits())
}

fn names(products: &[Product]) -> Vec<String> {
    products.iter().map(|p| p.name.clone()).collect()
}

#[test]
fn new_repository_is_empty() {
    let repo = MemoryProductsRepository::new();
    assert!(repo.get_products().unwrap().is_empty());
    assert!(!repo.is_exhausted());
}

#[test]
fn add_returns_the_created_product() {
    let mut repo = MemoryProductsRepository::new();
    let widget = repo.add_product("Widget".to_string(), money(10.0)).unwrap();
    assert_eq!(widget.id, 1);
    assert_eq!(widget.name, "Widget");
    assert_eq!(widget.price, money(10.0));
}

#[test]
fn adds_with_distinct_names_all_succeed_and_are_listed_in_order() {
    let mut repo = MemoryProductsRepository::new();
    let wanted = ["Widget", "Gadget", "Sprocket", "Cog", "Flange"];
    for (k, name) in wanted.iter().enumerate() {
        let created = repo.add_product(name.to_string(), money(1.5 + k as f64)).unwrap();
        assert_eq!(created.id, k as u128 + 1);
    }
    let listed = repo.get_products().unwrap();
    assert_eq!(names(&listed), wanted);
    for (k, product) in listed.iter().enumerate() {
        assert_eq!(product.id, k as u128 + 1);
        assert_eq!(product.price, money(1.5 + k as f64));
    }
}

#[test]
fn add_with_a_taken_name_is_already_exists_whatever_the_price() {
    let mut repo = MemoryProductsRepository::new();
    repo.add_product("Widget".to_string(), money(10.0)).unwrap();
    for price in [10.0, 0.5, 99999.0, f64::INFINITY] {
        match repo.add_product("Widget".to_string(), money(price)) {
            Err(Error::AlreadyExists(message)) => {
                assert_eq!(message, "Product with name 'Widget' already exists")
            }
            other => panic!("{:?}", other),
        }
    }
    assert_eq!(repo.get_products().unwrap().len(), 1);
}

#[test]
fn add_with_a_taken_name_and_a_bad_price_is_invalid_input() {
    let mut repo = MemoryProductsRepository::new();
    repo.add_product("Widget".to_string(), money(10.0)).unwrap();
    assert!(matches!(
        repo.add_product("Widget".to_string(), money(0.0)),
        Err(Error::InvalidInput(_))
    ));
}

#[test]
fn add_rejects_an_empty_name_and_a_price_that_is_not_positive() {
    let mut repo = MemoryProductsRepository::new();
    for (name, price) in [("", 10.0), ("Widget", 0.0), ("Widget", -1.0), ("Widget", f64::NAN)] {
        match repo.add_product(name.to_string(), money(price)) {
            Err(Error::InvalidInput(message)) => assert_eq!(
                message,
                "Name cannot be empty and price must be greater than zero"
            ),
            other => panic!("{:?}", other),
        }
    }
    assert!(repo.get_products().unwrap().is_empty());
    assert_eq!(repo.add_product("Widget".to_string(), money(10.0)).unwrap().id, 1);
}

#[test]
fn a_deleted_id_is_never_given_out_again() {
    let mut repo = MemoryProductsRepository::new();
    let widget = repo.add_product("Widget".to_string(), money(10.0)).unwrap();
    let gadget = repo.add_product("Gadget".to_string(), money(20.0)).unwrap();
    repo.delete_product(gadget.id).unwrap();
    let again = repo.add_product("Gadget".to_string(), money(20.0)).unwrap();
    assert_eq!(again.id, 3);
    assert_ne!(again.id, gadget.id);
    repo.delete_product(widget.id).unwrap();
    repo.delete_product(again.id).unwrap();
    assert!(repo.get_products().unwrap().is_empty());
    let fresh = repo.add_product("Cog".to_string(), money(1.0)).unwrap();
    assert_eq!(fresh.id, 4);
    assert!(matches!(repo.get_product_by_id(gadget.id), Err(Error::NotFound(_))));
}

#[test]
fn a_lookup_by_id_gives_the_product_that_was_added() {
    let mut repo = MemoryProductsRepository::new();
    repo.add_product("Widget".to_string(), money(10.0)).unwrap();
    let added = repo.add_product("Gadget".to_string(), money(20.0)).unwrap();
    let found = repo.get_product_by_id(added.id).unwrap();
    assert_eq!(found.id, added.id);
    assert_eq!(found.name, added.name);
    assert_eq!(found.price, added.price);
}

#[test]
fn a_lookup_by_an_unknown_id_is_not_found() {
    let mut repo = MemoryProductsRepository::new();
    repo.add_product("Widget".to_string(), money(10.0)).unwrap();
    match repo.get_product_by_id(7) {
        Err(Error::NotFound(message)) => assert_eq!(
            message,
            "Product with id 00000000-0000-0000-0000-000000000007 not found"
        ),
        other => panic!("{:?}", other),
    }
    match repo.get_product_by_id(0x0123_4567_89ab_cdef_fedc_ba98_7654_3210) {
        Err(Error::NotFound(message)) => assert_eq!(
            message,
            "Product with id 01234567-89ab-cdef-fedc-ba9876543210 not found"
        ),
        other => panic!("{:?}", other),
    }
}

#[test]
fn update_replaces_name_and_price_and_keeps_id_and_place() {
    let mut repo = MemoryProductsRepository::new();
    repo.add_product("Widget".to_string(), money(10.0)).unwrap();
    let gadget = repo.add_product("Gadget".to_string(), money(20.0)).unwrap();
    repo.add_product("Cog".to_string(), money(30.0)).unwrap();
    let updated = repo.update_product(gadget.id, "Gizmo".to_string(), money(25.0)).unwrap();
    assert_eq!(updated.id, gadget.id);
    assert_eq!(updated.name, "Gizmo");
    assert_eq!(updated.price, money(25.0));
    let listed = repo.get_products().unwrap();
    assert_eq!(names(&listed), ["Widget", "Gizmo", "Cog"]);
    assert_eq!(listed[1].id, 2);
    assert_eq!(listed[1].price, money(25.0));
}

#[test]
fn update_may_keep_the_name() {
    let mut repo = MemoryProductsRepository::new();
    let widget = repo.add_product("Widget".to_string(), money(10.0)).unwrap();
    let updated = repo.update_product(widget.id, "Widget".to_string(), money(11.0)).unwrap();
    assert_eq!(updated.name, "Widget");
    assert_eq!(updated.price, money(11.0));
}

#[test]
fn update_of_an_unknown_id_is_not_found_even_with_bad_fields() {
    let mut repo = MemoryProductsRepository::new();
    repo.add_product("Widget".to_string(), money(10.0)).unwrap();
    assert!(matches!(
        repo.update_product(9, "Gadget".to_string(), money(1.0)),
        Err(Error::NotFound(_))
    ));
    assert!(matches!(repo.update_product(9, "".to_string(), money(0.0)), Err(Error::NotFound(_))));
}

#[test]
fn update_with_bad_fields_is_invalid_input_and_changes_nothing() {
    let mut repo = MemoryProductsRepository::new();
    let widget = repo.add_product("Widget".to_string(), money(10.0)).unwrap();
    for (name, price) in [("", 10.0), ("Gadget", 0.0), ("Gadget", -3.0)] {
        assert!(matches!(
            repo.update_product(widget.id, name.to_string(), money(price)),
            Err(Error::InvalidInput(_))
        ));
    }
    let found = repo.get_product_by_id(widget.id).unwrap();
    assert_eq!(found.name, "Widget");
    assert_eq!(found.price, money(10.0));
}

#[test]
fn update_to_the_name_of_another_product_is_already_exists() {
    let mut repo = MemoryProductsRepository::new();
    repo.add_product("Widget".to_string(), money(10.0)).unwrap();
    let gadget = repo.add_product("Gadget".to_string(), money(20.0)).unwrap();
    match repo.update_product(gadget.id, "Widget".to_string(), money(20.0)) {
        Err(Error::AlreadyExists(message)) => {
            assert_eq!(message, "Product with name 'Widget' already exists")
        }
        other => panic!("{:?}", other),
    }
    assert_eq!(names(&repo.get_products().unwrap()), ["Widget", "Gadget"]);
}

#[test]
fn delete_removes_the_product_and_keeps_the_order_of_the_rest() {
    let mut repo = MemoryProductsRepository::new();
    repo.add_product("Widget".to_string(), money(10.0)).unwrap();
    let gadget = repo.add_product("Gadget".to_string(), money(20.0)).unwrap();
    repo.add_product("Cog".to_string(), money(30.0)).unwrap();
    repo.delete_product(gadget.id).unwrap();
    assert_eq!(names(&repo.get_products().unwrap()), ["Widget", "Cog"]);
    assert!(matches!(repo.delete_product(gadget.id), Err(Error::NotFound(_))));
    assert!(matches!(repo.delete_product(99), Err(Error::NotFound(_))));
}

#[test]
fn a_deleted_name_is_free_again() {
    let mut repo = MemoryProductsRepository::new();
    let widget = repo.add_product("Widget".to_string(), money(10.0)).unwrap();
    repo.delete_product(widget.id).unwrap();
    assert_eq!(repo.add_product("Widget".to_string(), money(12.0)).unwrap().id, 2);
}

#[test]
fn product_new_keeps_its_fields() {
    let product = Product::new(5, "Widget".to_string(), money(10.0));
    assert_eq!(product.id, 5);
    assert_eq!(product.name, "Widget");
    assert_eq!(product.price.to_bits(), 10.0f64.to_bits());
    let copy = product.clone();
    assert_eq!(copy.id, 5);
    assert_eq!(copy.name, "Widget");
}
