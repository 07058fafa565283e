pub mod errors;
pub mod laws;
pub mod session_store;
pub mod user;
pub mod user_repository;
pub mod user_service;

pub use errors::Error;

use crate::user::user_repository::{Directory, MemoryUserRepository};
use crate::user::user_service::{UserInfoView, UserService};
use vstd::prelude::*;

verus! {

/// A user service on a new repository in memory, with no user and no
/// session.
pub fn add_users() -> (service: UserService<MemoryUserRepository>)
    ensures
        service.directory().wf(),
        service.directory() == Directory::empty(),
        service.sessions() == Map::<u128, UserInfoView>::empty(),
{
    UserService::new(MemoryUserRepository::new())
}

} // verus!
