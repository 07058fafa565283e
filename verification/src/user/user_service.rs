use crate::user::errors::{Error, ErrorView};
use crate::user::session_store::SessionStore;
use crate::user::user::{User, UserView};
use crate::user::user_repository::{user_result, Directory, UserRepository};
use crate::utils::clock;
use crate::utils::clock::Timestamp;
use crate::utils::identifier;
use crate::utils::identifier::hyphenated;
use crate::utils::password_handler::{argon2_verdict, hash_password, verify_password};
use vstd::prelude::*;
use vstd::string::StrSliceExecFns;

verus! {

/// The least number of characters in a password.
pub const MIN_PASSWORD_LENGTH: usize = 8;

/// What the service tells of a user: never the password or its hash.
/// `last_login` is set in the copy that a session keeps.
#[derive(Debug)]
pub struct UserInfo {
    pub username: String,
    pub email: String,
    pub last_login: Option<Timestamp>,
}

/// The mathematical content of a [`UserInfo`].
pub struct UserInfoView {
    pub username: Seq<char>,
    pub email: Seq<char>,
    pub last_login: Option<Timestamp>,
}

impl View for UserInfo {
    type V = UserInfoView;

    open spec fn view(&self) -> UserInfoView {
        UserInfoView {
            username: self.username@,
            email: self.email@,
            last_login: self.last_login,
        }
    }
}

impl Clone for UserInfo {
    fn clone(&self) -> (copy: UserInfo)
        ensures
            copy == *self,
    {
        UserInfo {
            username: self.username.clone(),
            email: self.email.clone(),
            last_login: self.last_login,
        }
    }
}

/// A request to register a user, with the password in plain text.
pub struct CreateUserRequest {
    pub username: String,
    pub email: String,
    pub password: String,
}

/// A request to log in, with the password in plain text.
pub struct LoginRequest {
    pub username: String,
    pub password: String,
}

/// A registration that passed the checks and whose password was hashed.
/// It no longer holds the password.
pub struct HashedRegistration {
    pub username: String,
    pub email: String,
    pub hash: String,
}

impl UserView {
    /// What is told of this user.
    pub open spec fn info(self) -> UserInfoView {
        UserInfoView { username: self.username, email: self.email, last_login: None }
    }

    /// What a session of this user that was opened at `at` keeps.
    pub open spec fn session(self, at: Timestamp) -> UserInfoView {
        UserInfoView { username: self.username, email: self.email, last_login: Some(at) }
    }
}

/// The views of a sequence of summaries, in the same order.
pub open spec fn info_views(infos: Seq<UserInfo>) -> Seq<UserInfoView> {
    infos.map_values(|info: UserInfo| info@)
}

/// The view of what a service call returned.
pub open spec fn info_result(result: Result<UserInfo, Error>) -> Result<UserInfoView, ErrorView> {
    match result {
        Ok(info) => Ok(info@),
        Err(e) => Err(e@),
    }
}

/// The view of what `login` returned.
pub open spec fn token_result(result: Result<String, Error>) -> Result<Seq<char>, ErrorView> {
    match result {
        Ok(text) => Ok(text@),
        Err(e) => Err(e@),
    }
}

/// What is told of the user that a repository call found.
pub open spec fn summary(found: Result<UserView, ErrorView>) -> Result<UserInfoView, ErrorView> {
    match found {
        Ok(user) => Ok(user.info()),
        Err(e) => Err(e),
    }
}

/// What is wrong with a registration request, if anything: a field is
/// empty, or the password has fewer than `MIN_PASSWORD_LENGTH` characters.
pub open spec fn registration_fault(
    username: Seq<char>,
    email: Seq<char>,
    password: Seq<char>,
) -> Option<ErrorView> {
    if username.len() == 0 || email.len() == 0 || password.len() == 0 {
        Some(ErrorView::blank_registration())
    } else if password.len() < MIN_PASSWORD_LENGTH {
        Some(ErrorView::short_password())
    } else {
        None
    }
}

/// `prepared` is what comes of checking a registration request and
/// hashing its password: the fault of the request; or `HashingError`
/// where the hasher failed; or the username and the email with a hash that
/// is accepted for the password.
pub open spec fn registration_prepared(
    username: Seq<char>,
    email: Seq<char>,
    password: Seq<char>,
    prepared: Result<HashedRegistration, Error>,
) -> bool {
    match registration_fault(username, email, password) {
        Some(fault) => prepared matches Err(e) && e@ == fault,
        None => match prepared {
            Ok(hashed) => hashed.username@ == username && hashed.email@ == email && argon2_verdict(
                password,
                hashed.hash@,
            ) == Some(true),
            Err(e) => e@ == ErrorView::hashing_failed(),
        },
    }
}

/// What `register_user` does: `answer` is its answer and `after` the
/// directory it leaves, for a request with these fields on `before`.
///
/// A faulty request is answered with its fault. Otherwise the hasher
/// failed, or it gave a hash that is accepted for the password and the
/// repository was asked to add the user with that hash.
pub open spec fn registration(
    before: Directory,
    after: Directory,
    username: Seq<char>,
    email: Seq<char>,
    password: Seq<char>,
    answer: Result<UserInfoView, ErrorView>,
) -> bool {
    match registration_fault(username, email, password) {
        Some(fault) => answer == Err::<UserInfoView, ErrorView>(fault) && after == before,
        None => {
            ||| answer == Err::<UserInfoView, ErrorView>(ErrorView::hashing_failed()) && after
                == before
            ||| exists|hash: Seq<char>|
                argon2_verdict(password, hash) == Some(true) && answer == summary(
                    before.add_outcome(username, email, hash),
                ) && after == #[trigger] before.add(username, email, hash)
        },
    }
}

/// The user that a login request may be for, before the password is
/// looked at: the request has a username and a password, and the username
/// is that of a user.
pub open spec fn candidate_outcome(dir: Directory, username: Seq<char>, password: Seq<char>)
    -> Result<UserView, ErrorView> {
    if username.len() == 0 || password.len() == 0 {
        Err(ErrorView::bad_credentials())
    } else {
        match dir.by_username(username) {
            Some(user) => Ok(user),
            None => Err(ErrorView::bad_credentials()),
        }
    }
}

/// What a login is answered once the user is found and the hasher has
/// spoken: the user on a match, `InvalidCredentials` on a mismatch,
/// `HashingError` where the hasher could not read the stored hash.
pub open spec fn credentials_outcome(user: UserView, verdict: Option<bool>) -> Result<
    UserView,
    ErrorView,
> {
    match verdict {
        Some(true) => Ok(user),
        Some(false) => Err(ErrorView::bad_credentials()),
        None => Err(ErrorView::verification_failed()),
    }
}

/// Whether a password is that of a user.
pub open spec fn verification_outcome(user: UserView, password: Seq<char>) -> Result<
    UserView,
    ErrorView,
> {
    credentials_outcome(user, argon2_verdict(password, user.password))
}

/// Whether a username and a password are those of a user of `dir`. An
/// unknown username and a wrong password give the same answer.
pub open spec fn control_outcome(dir: Directory, username: Seq<char>, password: Seq<char>)
    -> Result<UserView, ErrorView> {
    match dir.by_username(username) {
        Some(user) => verification_outcome(user, password),
        None => Err(ErrorView::bad_credentials()),
    }
}

/// The user that a login request is accepted for, or why it is refused.
pub open spec fn login_outcome(dir: Directory, username: Seq<char>, password: Seq<char>)
    -> Result<UserView, ErrorView> {
    match candidate_outcome(dir, username, password) {
        Ok(user) => verification_outcome(user, password),
        Err(fault) => Err(fault),
    }
}

/// `after` is `before` with one more session of `user`, under a token that
/// was free in `before` and whose hyphenated form is `text`.
pub open spec fn session_opened(
    before: Map<u128, UserInfoView>,
    after: Map<u128, UserInfoView>,
    user: UserView,
    text: Seq<char>,
) -> bool {
    exists|token: u128, at: Timestamp|
        text == hyphenated(token) && !before.contains_key(token) && after
            == #[trigger] before.insert(token, user.session(at))
}

/// What `login` does: `answer` is its answer and `after` the sessions it
/// leaves, for a request with this username and password on the users of
/// `dir` and the sessions `before`.
pub open spec fn logged_in(
    dir: Directory,
    before: Map<u128, UserInfoView>,
    after: Map<u128, UserInfoView>,
    username: Seq<char>,
    password: Seq<char>,
    answer: Result<Seq<char>, ErrorView>,
) -> bool {
    match login_outcome(dir, username, password) {
        Ok(user) => answer matches Ok(text) && session_opened(before, after, user, text),
        Err(fault) => answer == Err::<Seq<char>, ErrorView>(fault) && after == before,
    }
}

impl CreateUserRequest {
    /// Checks the request: no field may be empty, and the password must
    /// have `MIN_PASSWORD_LENGTH` characters or more.
    pub fn check(&self) -> (result: Result<(), Error>)
        ensures
            match registration_fault(self.username@, self.email@, self.password@) {
                Some(fault) => result matches Err(e) && e@ == fault,
                None => result is Ok,
            },
    {
        if self.username.as_str().is_empty() || self.email.as_str().is_empty()
            || self.password.as_str().is_empty() {
            return Err(Error::blank_registration());
        }
        if self.password.as_str().unicode_len() < MIN_PASSWORD_LENGTH {
            return Err(Error::short_password());
        }
        Ok(())
    }

    /// Checks the request and hashes the password.
    pub fn hash(self) -> (prepared: Result<HashedRegistration, Error>)
        ensures
            registration_prepared(self.username@, self.email@, self.password@, prepared),
    {
        match self.check() {
            Ok(()) => {
                let hash = hash_password(self.password.as_str());
                self.with_hash(hash)
            },
            Err(e) => Err(e),
        }
    }

    /// The registration under the hash that the hasher gave, or
    /// `HashingError` where it gave none.
    pub fn with_hash(self, hash: Option<String>) -> (prepared: Result<HashedRegistration, Error>)
        ensures
            match hash {
                Some(text) => prepared matches Ok(hashed) && hashed.username@ == self.username@
                    && hashed.email@ == self.email@ && hashed.hash@ == text@,
                None => prepared matches Err(e) && e@ == ErrorView::hashing_failed(),
            },
    {
        match hash {
            Some(text) => Ok(
                HashedRegistration { username: self.username, email: self.email, hash: text },
            ),
            None => Err(Error::hashing_failed()),
        }
    }
}

/// What a login is answered once the user is found and the hasher has
/// spoken: the user on a match, `InvalidCredentials` on a mismatch,
/// `HashingError` where the hasher could not read the stored hash.
pub fn check_credentials(user: User, verdict: Option<bool>) -> (result: Result<User, Error>)
    ensures
        user_result(result) == credentials_outcome(user@, verdict),
{
    match verdict {
        Some(true) => Ok(user),
        Some(false) => Err(Error::bad_credentials()),
        None => Err(Error::verification_failed()),
    }
}

/// Checks a password against the stored hash of a user.
pub fn verify_user(user: User, password: &str) -> (result: Result<User, Error>)
    ensures
        user_result(result) == verification_outcome(user@, password@),
{
    let verdict = verify_password(password, user.password.clone());
    check_credentials(user, verdict)
}

/// Registration and login on top of a user repository and a session
/// store.
///
/// Passwords are hashed and verified outside the calls into the
/// repository. `register_user` and `login` do all their steps in one call;
/// a caller that keeps the service behind a lock can take the steps one by
/// one and hold the lock only for those that take `self`.
pub struct UserService<R: UserRepository> {
    repository: R,
    tokens: SessionStore,
}

impl<R: UserRepository> UserService<R> {
    /// What the repository of the service holds.
    pub closed spec fn directory(&self) -> Directory {
        self.repository.directory()
    }

    /// The sessions that were opened, by token.
    pub closed spec fn sessions(&self) -> Map<u128, UserInfoView> {
        self.tokens@
    }

    pub fn new(repository: R) -> (service: Self)
        ensures
            service.directory() == repository.directory(),
            service.sessions() == Map::<u128, UserInfoView>::empty(),
    {
        UserService { repository, tokens: SessionStore::new() }
    }

    /// Whether the ids are used up, so that no user may be registered.
    pub fn is_exhausted(&self) -> (yes: bool)
        ensures
            self.directory().wf(),
            yes == !self.directory().can_assign(),
    {
        self.repository.is_exhausted()
    }

    /// The session under this token.
    pub fn session(&self, token: u128) -> (found: Option<UserInfo>)
        ensures
            match found {
                Some(session) => self.sessions().contains_key(token) && self.sessions()[token]
                    == session@,
                None => !self.sessions().contains_key(token),
            },
    {
        self.tokens.session(token)
    }

    /// Registers a user under the hash of the password.
    ///
    /// A request with an empty field or a password of fewer than
    /// `MIN_PASSWORD_LENGTH` characters is refused as `InvalidInput`.
    /// Otherwise the password is hashed and the user is stored as
    /// `store_registration` says.
    pub fn register_user(&mut self, request: CreateUserRequest) -> (result: Result<UserInfo, Error>)
        requires
            old(self).directory().can_assign(),
        ensures
            final(self).sessions() == old(self).sessions(),
            registration(
                old(self).directory(),
                final(self).directory(),
                request.username@,
                request.email@,
                request.password@,
                info_result(result),
            ),
    {
        match request.hash() {
            Ok(hashed) => self.store_registration(hashed),
            Err(e) => Err(e),
        }
    }

    /// Stores a user whose registration was checked and whose password
    /// was hashed, and tells of the new user.
    ///
    /// Fails as `add_user` of the repository does.
    pub fn store_registration(&mut self, hashed: HashedRegistration) -> (result: Result<
        UserInfo,
        Error,
    >)
        requires
            old(self).directory().can_assign(),
        ensures
            old(self).directory().wf(),
            final(self).directory().wf(),
            final(self).sessions() == old(self).sessions(),
            info_result(result) == summary(
                old(self).directory().add_outcome(hashed.username@, hashed.email@, hashed.hash@),
            ),
            final(self).directory() == old(self).directory().add(
                hashed.username@,
                hashed.email@,
                hashed.hash@,
            ),
    {
        match self.repository.add_user(hashed.username, hashed.email, hashed.hash) {
            Ok(user) => Ok(
                UserInfo { username: user.username, email: user.email, last_login: None },
            ),
            Err(e) => Err(e),
        }
    }

    /// Logs a user in and returns the token of the new session in
    /// hyphenated form.
    ///
    /// The request is refused as `login_outcome` says. For an accepted
    /// request a session with the time of the login is opened under a token
    /// that was never handed out before.
    pub fn login(&mut self, request: LoginRequest) -> (result: Result<String, Error>)
        ensures
            final(self).directory() == old(self).directory(),
            logged_in(
                old(self).directory(),
                old(self).sessions(),
                final(self).sessions(),
                request.username@,
                request.password@,
                token_result(result),
            ),
    {
        let user = match self.login_candidate(&request) {
            Ok(user) => user,
            Err(e) => {
                return Err(e);
            },
        };
        match verify_user(user, request.password.as_str()) {
            Ok(user) => Ok(self.start_session(&user)),
            Err(e) => Err(e),
        }
    }

    /// The user that a login request may be for, before the password is
    /// looked at. A request without a username or a password and a request
    /// for an unknown username are refused with the same answer.
    pub fn login_candidate(&self, request: &LoginRequest) -> (result: Result<User, Error>)
        ensures
            user_result(result) == candidate_outcome(
                self.directory(),
                request.username@,
                request.password@,
            ),
    {
        if request.username.as_str().is_empty() || request.password.as_str().is_empty() {
            return Err(Error::bad_credentials());
        }
        match self.repository.get_user_by_username(request.username.clone()) {
            Ok(user) => Ok(user),
            Err(_) => Err(Error::bad_credentials()),
        }
    }

    /// Finds the user with this username and checks the password against
    /// the stored hash.
    pub fn control_user(&self, username: String, password: String) -> (result: Result<User, Error>)
        ensures
            self.directory().wf(),
            user_result(result) == control_outcome(self.directory(), username@, password@),
    {
        match self.repository.get_user_by_username(username) {
            Ok(user) => verify_user(user, password.as_str()),
            Err(_) => Err(Error::bad_credentials()),
        }
    }

    /// Opens a session of `user` at the present time and returns its token
    /// in hyphenated form.
    pub fn start_session(&mut self, user: &User) -> (text: String)
        ensures
            session_opened(old(self).sessions(), final(self).sessions(), user@, text@),
            final(self).directory() == old(self).directory(),
    {
        let at = clock::now();
        let token = self.open_session(user, at);
        identifier::hyphenated_string(token)
    }

    /// Opens a session of `user` with `at` as the time of the login, under
    /// a token that was never handed out before.
    pub fn open_session(&mut self, user: &User, at: Timestamp) -> (token: u128)
        ensures
            !old(self).sessions().contains_key(token),
            final(self).sessions() == old(self).sessions().insert(token, user@.session(at)),
            final(self).directory() == old(self).directory(),
    {
        let session = UserInfo {
            username: user.username.clone(),
            email: user.email.clone(),
            last_login: Some(at),
        };
        self.tokens.issue(session)
    }

    /// What is told of the user with this username, or `NotFound`.
    pub fn get_user_info(&self, username: String) -> (result: Result<UserInfo, Error>)
        ensures
            self.directory().wf(),
            info_result(result) == summary(self.directory().find_username(username@)),
    {
        match self.repository.get_user_by_username(username) {
            Ok(user) => Ok(
                UserInfo { username: user.username, email: user.email, last_login: None },
            ),
            Err(e) => Err(e),
        }
    }

    /// What is told of each user, in the order in which they registered.
    pub fn get_all_users(&self) -> (result: Result<Vec<UserInfo>, Error>)
        ensures
            self.directory().wf(),
            result matches Ok(infos) && info_views(infos@) == self.directory().users.map_values(
                |user: UserView| user.info(),
            ),
    {
        match self.repository.get_all_users() {
            Ok(users) => {
                let mut infos: Vec<UserInfo> = Vec::new();
                let mut at: usize = 0;
                while at < users.len()
                    invariant
                        at <= users.len(),
                        infos.len() == at,
                        forall|i: int| 0 <= i < at ==> (#[trigger] infos[i])@ == users[i]@.info(),
                    decreases users.len() - at,
                {
                    infos.push(
                        UserInfo {
                            username: users[at].username.clone(),
                            email: users[at].email.clone(),
                            last_login: None,
                        },
                    );
                    at += 1;
                }
                assert(info_views(infos@) =~= self.directory().users.map_values(
                    |user: UserView| user.info(),
                )) by {
                    assert(self.directory().users.len() == users.len());
                    assert forall|i: int| 0 <= i < users.len() implies info_views(infos@)[i]
                        == self.directory().users[i].info() by {
                        assert(crate::user::user::user_views(users@)[i] == users[i]@);
                    }
                }
                Ok(infos)
            },
            Err(e) => Err(e),
        }
    }

    /// What is told of the user with this id, or `NotFound`.
    pub fn get_user_by_id(&self, id: u32) -> (result: Result<UserInfo, Error>)
        ensures
            self.directory().wf(),
            info_result(result) == summary(self.directory().find_id(id)),
    {
        match self.repository.get_user_by_id(id) {
            Ok(user) => Ok(
                UserInfo { username: user.username, email: user.email, last_login: None },
            ),
            Err(e) => Err(e),
        }
    }
}

} // verus!
