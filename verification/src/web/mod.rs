pub mod product_routes;
pub mod reply;
pub mod user_routes;
