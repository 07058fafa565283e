pub mod clock;
pub mod identifier;
pub mod password_handler;
pub mod text;
