use crate::user::errors::{Error, ErrorView};
use crate::user::user::{user_views, User, UserView};
use vstd::prelude::*;

verus! {

/// What a user repository holds: the users in the order in which they were
/// added, and the greatest id that was ever given out.
pub struct Directory {
    pub users: Seq<UserView>,
    pub last_id: u32,
}

impl Directory {
    /// The directory of a new repository.
    pub open spec fn empty() -> Directory {
        Directory { users: Seq::empty(), last_id: 0 }
    }

    /// Ids start at one, grow with the order of insertion and never exceed
    /// `last_id`; no username occurs twice; no username or email is empty.
    pub open spec fn wf(self) -> bool {
        &&& forall|i: int|
            0 <= i < self.users.len() ==> 1 <= (#[trigger] self.users[i]).id <= self.last_id
        &&& forall|i: int|
            0 <= i < self.users.len() ==> (#[trigger] self.users[i]).username.len() > 0
                && self.users[i].email.len() > 0
        &&& forall|i: int, j: int|
            0 <= i < j < self.users.len() ==> (#[trigger] self.users[i]).id
                < (#[trigger] self.users[j]).id
        &&& forall|i: int, j: int|
            0 <= i < j < self.users.len() ==> (#[trigger] self.users[i]).username
                != (#[trigger] self.users[j]).username
    }

    /// An id is left to give to the next user.
    pub open spec fn can_assign(self) -> bool {
        self.last_id < u32::MAX
    }

    pub open spec fn has_username(self, username: Seq<char>) -> bool {
        exists|i: int| 0 <= i < self.users.len() && (#[trigger] self.users[i]).username == username
    }

    pub open spec fn has_id(self, id: u32) -> bool {
        exists|i: int| 0 <= i < self.users.len() && (#[trigger] self.users[i]).id == id
    }

    /// The user with this username, where there is one.
    pub open spec fn by_username(self, username: Seq<char>) -> Option<UserView> {
        if self.has_username(username) {
            Some(
                self.users[choose|i: int|
                    0 <= i < self.users.len() && (#[trigger] self.users[i]).username == username],
            )
        } else {
            None
        }
    }

    /// The user with this id, where there is one.
    pub open spec fn by_id(self, id: u32) -> Option<UserView> {
        if self.has_id(id) {
            Some(
                self.users[choose|i: int|
                    0 <= i < self.users.len() && (#[trigger] self.users[i]).id == id],
            )
        } else {
            None
        }
    }

    /// What `get_user_by_username` answers.
    pub open spec fn find_username(self, username: Seq<char>) -> Result<UserView, ErrorView> {
        match self.by_username(username) {
            Some(user) => Ok(user),
            None => Err(ErrorView::unknown_username(username)),
        }
    }

    /// What `get_user_by_id` answers.
    pub open spec fn find_id(self, id: u32) -> Result<UserView, ErrorView> {
        match self.by_id(id) {
            Some(user) => Ok(user),
            None => Err(ErrorView::unknown_id(id)),
        }
    }

    /// The user that the next successful `add_user` creates.
    pub open spec fn next_user(
        self,
        username: Seq<char>,
        email: Seq<char>,
        password: Seq<char>,
    ) -> UserView {
        UserView { id: (self.last_id + 1) as u32, username, email, password }
    }

    /// What `add_user` answers.
    pub open spec fn add_outcome(
        self,
        username: Seq<char>,
        email: Seq<char>,
        password: Seq<char>,
    ) -> Result<UserView, ErrorView> {
        if username.len() == 0 || email.len() == 0 {
            Err(ErrorView::blank_identity())
        } else if self.has_username(username) {
            Err(ErrorView::username_taken(username))
        } else {
            Ok(self.next_user(username, email, password))
        }
    }

    /// The directory after `add_user`: on success the new user stands at the
    /// end and its id is the greatest given out; on failure nothing changed.
    pub open spec fn add(self, username: Seq<char>, email: Seq<char>, password: Seq<char>)
        -> Directory {
        match self.add_outcome(username, email, password) {
            Ok(user) => Directory { users: self.users.push(user), last_id: user.id },
            Err(_) => self,
        }
    }
}

/// A well-formed directory that can still give out an id stays well-formed
/// when a user is added.
pub proof fn lemma_add_keeps_wf(
    dir: Directory,
    username: Seq<char>,
    email: Seq<char>,
    password: Seq<char>,
)
    requires
        dir.wf(),
        dir.can_assign(),
    ensures
        dir.add(username, email, password).wf(),
{
    let after = dir.add(username, email, password);
    if dir.add_outcome(username, email, password) is Ok {
        let user = dir.next_user(username, email, password);
        assert(after.users == dir.users.push(user));
        assert forall|i: int, j: int| 0 <= i < j < after.users.len() implies (
        #[trigger] after.users[i]).username != (#[trigger] after.users[j]).username by {
            if j == dir.users.len() {
                assert(dir.users[i].username != username);
            }
        }
    }
}

/// The view of what a repository call returned.
pub open spec fn user_result(result: Result<User, Error>) -> Result<UserView, ErrorView> {
    match result {
        Ok(user) => Ok(user@),
        Err(e) => Err(e@),
    }
}

/// A store of users, each with an id of its own and a username of its own.
///
/// What a repository holds is well-formed at all times; every method says
/// so of the directory that it was called on.
pub trait UserRepository {
    /// What the repository holds.
    spec fn directory(&self) -> Directory;

    /// Adds a user. `password` is the hash that is to be stored.
    ///
    /// Fails with `InvalidInput` if the username or the email is empty, and
    /// with `AlreadyExists` if the username is taken. The new user gets an
    /// id greater than any given out before.
    fn add_user(&mut self, username: String, email: String, password: String) -> (result: Result<
        User,
        Error,
    >)
        requires
            old(self).directory().can_assign(),
        ensures
            old(self).directory().wf(),
            user_result(result) == old(self).directory().add_outcome(
                username@,
                email@,
                password@,
            ),
            final(self).directory() == old(self).directory().add(username@, email@, password@),
            final(self).directory().wf(),
    ;

    /// The user with this username, or `NotFound`.
    fn get_user_by_username(&self, username: String) -> (result: Result<User, Error>)
        ensures
            self.directory().wf(),
            user_result(result) == self.directory().find_username(username@),
    ;

    /// All users, in the order in which they were added.
    fn get_all_users(&self) -> (result: Result<Vec<User>, Error>)
        ensures
            self.directory().wf(),
            result matches Ok(users) && user_views(users@) == self.directory().users,
    ;

    /// The user with this id, or `NotFound`.
    fn get_user_by_id(&self, id: u32) -> (result: Result<User, Error>)
        ensures
            self.directory().wf(),
            user_result(result) == self.directory().find_id(id),
    ;

    /// Whether the ids are used up, so that `add_user` may not be called.
    fn is_exhausted(&self) -> (yes: bool)
        ensures
            self.directory().wf(),
            yes == !self.directory().can_assign(),
    ;
}

/// A user repository that lives in memory.
pub struct MemoryUserRepository {
    users: Vec<User>,
    last_id: u32,
}

impl MemoryUserRepository {
    #[verifier::type_invariant]
    spec fn well_formed(self) -> bool {
        (Directory { users: user_views(self.users@), last_id: self.last_id }).wf()
    }

    pub fn new() -> (repo: Self)
        ensures
            repo.directory() == Directory::empty(),
            repo.directory().wf(),
    {
        let repo = MemoryUserRepository { users: Vec::new(), last_id: 0 };
        assert(repo.directory().users =~= Seq::empty());
        repo
    }

    /// The place of the user with this username.
    fn position_of_username(&self, username: &String) -> (found: Option<usize>)
        ensures
            match found {
                Some(at) => at < self.users.len() && self.users[at as int].username@ == username@,
                None => !self.directory().has_username(username@),
            },
    {
        let mut at: usize = 0;
        while at < self.users.len()
            invariant
                at <= self.users.len(),
                forall|i: int| 0 <= i < at ==> self.users[i].username@ != username@,
            decreases self.users.len() - at,
        {
            if self.users[at].username == *username {
                return Some(at);
            }
            at += 1;
        }
        assert forall|i: int| 0 <= i < self.directory().users.len() implies (
        #[trigger] self.directory().users[i]).username != username@ by {
            assert(self.directory().users[i] == self.users[i]@);
        }
        None
    }

    /// The place of the user with this id.
    fn position_of_id(&self, id: u32) -> (found: Option<usize>)
        ensures
            match found {
                Some(at) => at < self.users.len() && self.users[at as int].id == id,
                None => !self.directory().has_id(id),
            },
    {
        let mut at: usize = 0;
        while at < self.users.len()
            invariant
                at <= self.users.len(),
                forall|i: int| 0 <= i < at ==> self.users[i].id != id,
            decreases self.users.len() - at,
        {
            if self.users[at].id == id {
                return Some(at);
            }
            at += 1;
        }
        assert forall|i: int| 0 <= i < self.directory().users.len() implies (
        #[trigger] self.directory().users[i]).id != id by {
            assert(self.directory().users[i] == self.users[i]@);
        }
        None
    }
}

impl UserRepository for MemoryUserRepository {
    closed spec fn directory(&self) -> Directory {
        Directory { users: user_views(self.users@), last_id: self.last_id }
    }

    fn add_user(&mut self, username: String, email: String, password: String) -> (result: Result<
        User,
        Error,
    >) {
        proof {
            use_type_invariant(&*self);
            lemma_add_keeps_wf(self.directory(), username@, email@, password@);
        }
        if username.as_str().is_empty() || email.as_str().is_empty() {
            return Err(Error::blank_identity());
        }
        if let Some(taken) = self.position_of_username(&username) {
            assert(self.directory().users[taken as int] == self.users[taken as int]@);
            return Err(Error::username_taken(username.as_str()));
        }
        let id: u32 = self.last_id + 1;
        let user = User { id, username, email, password };
        let copy = user.clone();
        let mut users: Vec<User> = Vec::new();
        std::mem::swap(&mut users, &mut self.users);
        users.push(user);
        assert(user_views(users@) =~= old(self).directory().users.push(copy@));
        self.last_id = id;
        self.users = users;
        Ok(copy)
    }

    fn get_user_by_username(&self, username: String) -> (result: Result<User, Error>) {
        proof {
            use_type_invariant(self);
        }
        match self.position_of_username(&username) {
            Some(at) => {
                assert(self.directory().users[at as int] == self.users[at as int]@);
                Ok(self.users[at].clone())
            },
            None => Err(Error::unknown_username(username.as_str())),
        }
    }

    fn get_all_users(&self) -> (result: Result<Vec<User>, Error>) {
        proof {
            use_type_invariant(self);
        }
        let mut users: Vec<User> = Vec::new();
        let mut at: usize = 0;
        while at < self.users.len()
            invariant
                at <= self.users.len(),
                users.len() == at,
                forall|i: int| 0 <= i < at ==> users[i] == self.users[i],
            decreases self.users.len() - at,
        {
            users.push(self.users[at].clone());
            at += 1;
        }
        assert(user_views(users@) =~= self.directory().users);
        Ok(users)
    }

    fn get_user_by_id(&self, id: u32) -> (result: Result<User, Error>) {
        proof {
            use_type_invariant(self);
        }
        match self.position_of_id(id) {
            Some(at) => {
                assert(self.directory().users[at as int] == self.users[at as int]@);
                Ok(self.users[at].clone())
            },
            None => Err(Error::unknown_id(id)),
        }
    }

    fn is_exhausted(&self) -> (yes: bool) {
        proof {
            use_type_invariant(self);
        }
        self.last_id == u32::MAX
    }
}

} // verus!
