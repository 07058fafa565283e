use storefront::utils::text::decimal_string;
use storefront::web::reply::Status;
use storefront::web::user_routes::bearer_header;

#[test]
fn decimal_string_writes_the_digits() {
    assert_eq!(decimal_string(0), "0");
    assert_eq!(decimal_string(7), "7");
    assert_eq!(decimal_string(10), "10");
    assert_eq!(decimal_string(909), "909");
    assert_eq!(decimal_string(1234567890), "1234567890");
    assert_eq!(decimal_string(u32::MAX), "4294967295");
}

#[test]
fn decimal_string_agrees_with_display() {
    let mut n: u32 = 1;
    for _ in 0..200 {
        assert_eq!(decimal_string(n), format!("{}", n));
        n = n.wrapping_mul(2654435761).wrapping_add(12345);
    }
}

#[test]
fn status_codes() {
    assert_eq!(Status::Success.code(), 200);
    assert_eq!(Status::Created.code(), 201);
    assert_eq!(Status::NoContent.code(), 204);
    assert_eq!(Status::BadRequest.code(), 400);
    assert_eq!(Status::Unauthorized.code(), 401);
    assert_eq!(Status::NotFound.code(), 404);
    assert_eq!(Status::Conflict.code(), 409);
    assert_eq!(Status::ServerError.code(), 500);
}

#[test]
fn bearer_header_puts_the_scheme_first() {
    assert_eq!(bearer_header("abc"), "Bearer abc");
    assert_eq!(bearer_header(""), "Bearer ");
}
