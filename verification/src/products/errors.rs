use crate::utils::identifier::{hyphenated, hyphenated_string};
use vstd::prelude::*;
use vstd::string::StringExecFns;

verus! {

/// Why an operation on products failed. Each variant carries a message for
/// the person who reads the log.
#[derive(Debug)]
pub enum Error {
    /// No product has the id that was asked for.
    NotFound(String),
    /// The name is taken by another product.
    AlreadyExists(String),
    /// The name is empty or the price is not greater than zero.
    InvalidInput(String),
}

/// The mathematical content of an [`Error`].
pub enum ErrorView {
    NotFound(Seq<char>),
    AlreadyExists(Seq<char>),
    InvalidInput(Seq<char>),
}

impl View for Error {
    type V = ErrorView;

    open spec fn view(&self) -> ErrorView {
        match self {
            Error::NotFound(m) => ErrorView::NotFound(m@),
            Error::AlreadyExists(m) => ErrorView::AlreadyExists(m@),
            Error::InvalidInput(m) => ErrorView::InvalidInput(m@),
        }
    }
}

impl ErrorView {
    /// The name is empty or the price is not greater than zero.
    pub open spec fn invalid_fields() -> ErrorView {
        ErrorView::InvalidInput("Name cannot be empty and price must be greater than zero"@)
    }

    /// The name is taken.
    pub open spec fn name_taken(name: Seq<char>) -> ErrorView {
        ErrorView::AlreadyExists("Product with name '"@ + name + "' already exists"@)
    }

    /// No product has this id.
    pub open spec fn unknown_id(id: u128) -> ErrorView {
        ErrorView::NotFound("Product with id "@ + hyphenated(id) + " not found"@)
    }
}

impl Error {
    pub fn invalid_fields() -> (e: Error)
        ensures
            e@ == ErrorView::invalid_fields(),
    {
        Error::InvalidInput(
            String::from_str("Name cannot be empty and price must be greater than zero"),
        )
    }

    pub fn name_taken(name: &str) -> (e: Error)
        ensures
            e@ == ErrorView::name_taken(name@),
    {
        Error::AlreadyExists(
            String::from_str("Product with name '").concat(name).concat("' already exists"),
        )
    }

    pub fn unknown_id(id: u128) -> (e: Error)
        ensures
            e@ == ErrorView::unknown_id(id),
    {
        let text = hyphenated_string(id);
        Error::NotFound(String::from_str("Product with id ").concat(text.as_str()).concat(" not found"))
    }
}

} // verus!
