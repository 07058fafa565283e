use storefront::products::price::Price;
use storefront::products::products_repository::MemoryProductsRepository;
use storefront::user::add_users;
use storefront::user::user::User;
use storefront::user::user_service::{CreateUserRequest, HashedRegistration, LoginRequest};
use storefront::utils::password_handler::hash_password;
use storefront::web::product_routes::{ProductRequest, ProductRoutes};
use storefront::web::reply::Status;
use storefront::web::user_routes::{prepare_registration, verify_candidate, UserRoutes};

fn item(name: &str, price: f64) -> ProductRequest {
    ProductRequest { name: name.to_string(), price: Price::from_bits(price.to_bits()) }
}

fn registration(username: &str, password: &str) -> CreateUserRequest {
    CreateUserRequest {
        username: username.to_string(),
        email: format!("{}@x.com", username),
        password: password.to_string(),
    }
}

fn credentials(username: &str, password: &str) -> LoginRequest {
    LoginRequest { username: username.to_string(), password: password.to_string() }
}

#[test]
fn create_answers_201_with_the_product() {
    let mut routes = ProductRoutes::new(MemoryProductsRepository::new());
    let reply = routes.create(item("Widget", 10.0));
    assert_eq!(reply.status, Status::Created);
    let product = reply.body.unwrap();
    assert_eq!(product.id, 1);
    assert_eq!(product.name, "Widget");
}

#[test]
fn create_answers_400_and_409() {
    let mut routes = ProductRoutes::new(MemoryProductsRepository::new());
    routes.create(item("Widget", 10.0));
    let invalid = routes.create(item("", 10.0));
    assert_eq!(invalid.status, Status::BadRequest);
    assert!(invalid.body.is_none());
    let taken = routes.create(item("Widget", 12.0));
    assert_eq!(taken.status, Status::Conflict);
    assert!(taken.body.is_none());
}

#[test]
fn list_answers_200_with_all_products() {
    let mut routes = ProductRoutes::new(MemoryProductsRepository::new());
    routes.create(item("Widget", 10.0));
    routes.create(item("Gadget", 20.0));
    let reply = routes.list();
    assert_eq!(reply.status, Status::Success);
    let products = reply.body.unwrap();
    assert_eq!(products.len(), 2);
    assert_eq!(products[0].name, "Widget");
    assert_eq!(products[1].name, "Gadget");
}

#[test]
fn get_answers_200_or_404() {
    let mut routes = ProductRoutes::new(MemoryProductsRepository::new());
    routes.create(item("Widget", 10.0));
    let found = routes.get(1);
    assert_eq!(found.status, Status::Success);
    assert_eq!(found.body.unwrap().name, "Widget");
    let missing = routes.get(2);
    assert_eq!(missing.status, Status::NotFound);
    assert!(missing.body.is_none());
}

#[test]
fn update_answers_200_400_404_and_409() {
    let mut routes = ProductRoutes::new(MemoryProductsRepository::new());
    routes.create(item("Widget", 10.0));
    routes.create(item("Gadget", 20.0));
    let updated = routes.update(2, item("Gizmo", 21.0));
    assert_eq!(updated.status, Status::Success);
    assert_eq!(updated.body.unwrap().name, "Gizmo");
    assert_eq!(routes.update(2, item("Gizmo", 0.0)).status, Status::BadRequest);
    assert_eq!(routes.update(5, item("Gizmo", 1.0)).status, Status::NotFound);
    assert_eq!(routes.update(2, item("Widget", 1.0)).status, Status::Conflict);
}

#[test]
fn delete_answers_204_or_404() {
    let mut routes = ProductRoutes::new(MemoryProductsRepository::new());
    routes.create(item("Widget", 10.0));
    let deleted = routes.delete(1);
    assert_eq!(deleted.status, Status::NoContent);
    assert!(deleted.body.is_none());
    assert_eq!(routes.delete(1).status, Status::NotFound);
    assert!(routes.list().body.unwrap().is_empty());
}

#[test]
fn register_answers_201_400_and_409() {
    let mut routes = UserRoutes::new(add_users());
    let created = routes.register(registration("alice", "longenough1"));
    assert_eq!(created.status, Status::Created);
    let info = created.body.unwrap();
    assert_eq!(info.username, "alice");
    assert_eq!(info.email, "alice@x.com");
    assert_eq!(info.last_login, None);
    let short = routes.register(registration("bob", "short"));
    assert_eq!(short.status, Status::BadRequest);
    assert!(short.body.is_none());
    let taken = routes.register(registration("alice", "longenough1"));
    assert_eq!(taken.status, Status::Conflict);
    assert!(taken.body.is_none());
}

#[test]
fn login_answers_200_with_a_bearer_token_or_401() {
    let mut routes = UserRoutes::new(add_users());
    routes.register(registration("alice", "longenough1"));
    let accepted = routes.login(credentials("alice", "longenough1"));
    assert_eq!(accepted.status, Status::Success);
    let header = accepted.authorization.unwrap();
    assert!(header.starts_with("Bearer "), "{}", header);
    assert_eq!(header.len(), 7 + 36);
    let refused = routes.login(credentials("alice", "wrongpass"));
    assert_eq!(refused.status, Status::Unauthorized);
    assert!(refused.authorization.is_none());
    assert_eq!(routes.login(credentials("nobody", "whatever")).status, Status::Unauthorized);
    assert_eq!(routes.login(credentials("", "")).status, Status::Unauthorized);
}

#[test]
fn registration_step_by_step() {
    let mut routes = UserRoutes::new(add_users());
    let hashed = match prepare_registration(registration("alice", "longenough1")) {
        Ok(hashed) => hashed,
        Err(reply) => panic!("{:?}", reply.status),
    };
    assert_eq!(hashed.username, "alice");
    assert_eq!(hashed.email, "alice@x.com");
    assert_ne!(hashed.hash, "longenough1");
    let reply = routes.complete_registration(hashed);
    assert_eq!(reply.status, Status::Created);
    assert_eq!(reply.body.unwrap().username, "alice");
    let again = routes.complete_registration(HashedRegistration {
        username: "alice".to_string(),
        email: "other@x.com".to_string(),
        hash: "hash".to_string(),
    });
    assert_eq!(again.status, Status::Conflict);
    assert!(again.body.is_none());
    match prepare_registration(registration("bob", "short")) {
        Ok(hashed) => panic!("{}", hashed.hash),
        Err(reply) => {
            assert_eq!(reply.status, Status::BadRequest);
            assert!(reply.body.is_none());
        }
    }
}

#[test]
fn login_step_by_step() {
    let mut routes = UserRoutes::new(add_users());
    routes.register(registration("alice", "longenough1"));
    let item = credentials("alice", "longenough1");
    let candidate = match routes.find_candidate(&item) {
        Ok(user) => user,
        Err(reply) => panic!("{:?}", reply.status),
    };
    assert_eq!(candidate.username, "alice");
    let user = match verify_candidate(candidate.clone(), &item) {
        Ok(user) => user,
        Err(reply) => panic!("{:?}", reply.status),
    };
    assert_eq!(user, candidate);
    let reply = routes.open_session(&user);
    assert_eq!(reply.status, Status::Success);
    assert!(reply.authorization.unwrap().starts_with("Bearer "));
    match verify_candidate(candidate, &credentials("alice", "wrongpass")) {
        Ok(user) => panic!("{:?}", user),
        Err(reply) => {
            assert_eq!(reply.status, Status::Unauthorized);
            assert!(reply.authorization.is_none());
        }
    }
    match routes.find_candidate(&credentials("nobody", "whatever")) {
        Ok(user) => panic!("{:?}", user),
        Err(reply) => assert_eq!(reply.status, Status::Unauthorized),
    }
}

#[test]
fn login_with_an_unreadable_stored_hash_answers_500() {
    let broken = User {
        id: 1,
        username: "mallory".to_string(),
        email: "m@x.com".to_string(),
        password: "not-a-hash".to_string(),
    };
    match verify_candidate(broken, &credentials("mallory", "longenough1")) {
        Ok(user) => panic!("{:?}", user),
        Err(reply) => assert_eq!(reply.status, Status::ServerError),
    }
    assert!(hash_password("longenough1").is_some());
}
