use crate::utils::text::{decimal, decimal_string};
use vstd::prelude::*;
use vstd::string::StringExecFns;

verus! {

/// Why an operation on users failed. Each variant carries a message for
/// the person who reads the log.
#[derive(Debug)]
pub enum Error {
    /// No user has the id or username that was asked for.
    NotFound(String),
    /// The username is taken.
    AlreadyExists(String),
    /// A field of the request breaks a validation rule.
    InvalidInput(String),
    /// Unknown username or wrong password; the two are not told apart.
    InvalidCredentials(String),
    /// The password hasher itself failed.
    HashingError(String),
}

/// The mathematical content of an [`Error`].
pub enum ErrorView {
    NotFound(Seq<char>),
    AlreadyExists(Seq<char>),
    InvalidInput(Seq<char>),
    InvalidCredentials(Seq<char>),
    HashingError(Seq<char>),
}

impl View for Error {
    type V = ErrorView;

    open spec fn view(&self) -> ErrorView {
        match self {
            Error::NotFound(m) => ErrorView::NotFound(m@),
            Error::AlreadyExists(m) => ErrorView::AlreadyExists(m@),
            Error::InvalidInput(m) => ErrorView::InvalidInput(m@),
            Error::InvalidCredentials(m) => ErrorView::InvalidCredentials(m@),
            Error::HashingError(m) => ErrorView::HashingError(m@),
        }
    }
}

impl ErrorView {
    /// A repository was given an empty username or email.
    pub open spec fn blank_identity() -> ErrorView {
        ErrorView::InvalidInput("Username and email cannot be empty"@)
    }

    /// A registration request has an empty field.
    pub open spec fn blank_registration() -> ErrorView {
        ErrorView::InvalidInput("Username, email, and password cannot be empty"@)
    }

    /// A registration request has a password that is too short.
    pub open spec fn short_password() -> ErrorView {
        ErrorView::InvalidInput("Password must be at least 8 characters long"@)
    }

    /// The username is taken.
    pub open spec fn username_taken(username: Seq<char>) -> ErrorView {
        ErrorView::AlreadyExists("User with username '"@ + username + "' already exists"@)
    }

    /// No user has this username.
    pub open spec fn unknown_username(username: Seq<char>) -> ErrorView {
        ErrorView::NotFound("User with username '"@ + username + "' not found"@)
    }

    /// No user has this id.
    pub open spec fn unknown_id(id: u32) -> ErrorView {
        ErrorView::NotFound("User with ID '"@ + decimal(id as nat) + "' not found"@)
    }

    /// A login was refused. The message is the same whatever the reason.
    pub open spec fn bad_credentials() -> ErrorView {
        ErrorView::InvalidCredentials("Invalid username or password"@)
    }

    /// The hasher could not hash a new password.
    pub open spec fn hashing_failed() -> ErrorView {
        ErrorView::HashingError("Failed to hash password"@)
    }

    /// The hasher could not read the stored hash.
    pub open spec fn verification_failed() -> ErrorView {
        ErrorView::HashingError("Password verification failed"@)
    }
}

impl Error {
    pub fn blank_identity() -> (e: Error)
        ensures
            e@ == ErrorView::blank_identity(),
    {
        Error::InvalidInput(String::from_str("Username and email cannot be empty"))
    }

    pub fn blank_registration() -> (e: Error)
        ensures
            e@ == ErrorView::blank_registration(),
    {
        Error::InvalidInput(String::from_str("Username, email, and password cannot be empty"))
    }

    pub fn short_password() -> (e: Error)
        ensures
            e@ == ErrorView::short_password(),
    {
        Error::InvalidInput(String::from_str("Password must be at least 8 characters long"))
    }

    pub fn username_taken(username: &str) -> (e: Error)
        ensures
            e@ == ErrorView::username_taken(username@),
    {
        Error::AlreadyExists(
            String::from_str("User with username '").concat(username).concat("' already exists"),
        )
    }

    pub fn unknown_username(username: &str) -> (e: Error)
        ensures
            e@ == ErrorView::unknown_username(username@),
    {
        Error::NotFound(
            String::from_str("User with username '").concat(username).concat("' not found"),
        )
    }

    pub fn unknown_id(id: u32) -> (e: Error)
        ensures
            e@ == ErrorView::unknown_id(id),
    {
        let text = decimal_string(id);
        Error::NotFound(
            String::from_str("User with ID '").concat(text.as_str()).concat("' not found"),
        )
    }

    pub fn bad_credentials() -> (e: Error)
        ensures
            e@ == ErrorView::bad_credentials(),
    {
        Error::InvalidCredentials(String::from_str("Invalid username or password"))
    }

    pub fn hashing_failed() -> (e: Error)
        ensures
            e@ == ErrorView::hashing_failed(),
    {
        Error::HashingError(String::from_str("Failed to hash password"))
    }

    pub fn verification_failed() -> (e: Error)
        ensures
            e@ == ErrorView::verification_failed(),
    {
        Error::HashingError(String::from_str("Password verification failed"))
    }
}

} // verus!
