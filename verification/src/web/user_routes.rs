use crate::user::errors::{Error, ErrorView};
use crate::user::user::{User, UserView};
use crate::user::user_repository::{Directory, UserRepository};
use crate::user::user_service::{
    candidate_outcome, login_outcome, registration_fault, session_opened, verification_outcome,
    verify_user, CreateUserRequest, HashedRegistration, LoginRequest, UserInfo, UserInfoView,
    UserService,
};
use crate::utils::password_handler::argon2_verdict;
use crate::web::reply::{Reply, Status};
use vstd::prelude::*;
use vstd::string::StringExecFns;

verus! {

/// What the login route answers: a status and, after a login, the value of
/// the `Authorization` header.
pub struct LoginReply {
    pub status: Status,
    pub authorization: Option<String>,
}

/// The status that stands for an error of the user service.
pub open spec fn error_status(e: ErrorView) -> Status {
    match e {
        ErrorView::NotFound(_) => Status::NotFound,
        ErrorView::AlreadyExists(_) => Status::Conflict,
        ErrorView::InvalidInput(_) => Status::BadRequest,
        ErrorView::InvalidCredentials(_) => Status::Unauthorized,
        ErrorView::HashingError(_) => Status::ServerError,
    }
}

/// The value of the `Authorization` header that carries a token.
pub open spec fn bearer(token: Seq<char>) -> Seq<char> {
    "Bearer "@ + token
}

/// The status and the view of the body of a reply.
pub open spec fn reply_view(reply: Reply<UserInfo>) -> (Status, Option<UserInfoView>) {
    (
        reply.status,
        match reply.body {
            Some(info) => Some(info@),
            None => None,
        },
    )
}

/// The status and the view of the header of a reply to a login.
pub open spec fn login_view(reply: LoginReply) -> (Status, Option<Seq<char>>) {
    (
        reply.status,
        match reply.authorization {
            Some(header) => Some(header@),
            None => None,
        },
    )
}

/// The reply that refuses a request because of `fault`.
pub open spec fn refusal<T>(fault: ErrorView) -> (Status, Option<T>) {
    (error_status(fault), None)
}

/// What the register route answers once the repository has spoken:
/// status 201 with the summary of the new user, or the status of the error.
pub open spec fn stored_reply(outcome: Result<UserView, ErrorView>) -> (
    Status,
    Option<UserInfoView>,
) {
    match outcome {
        Ok(user) => (Status::Created, Some(user.info())),
        Err(e) => refusal(e),
    }
}

/// What the register route does: `reply` is its reply and `after` the
/// directory it leaves, for a request with these fields on `before`.
///
/// A faulty request is refused with the status of its fault. Otherwise the
/// reply is status 500 and nothing changed, which is the answer where the
/// hasher fails and where no id is left to give out; or the hasher gave a
/// hash that is accepted for the password, an id was left, and the
/// repository was asked to add the user with that hash.
pub open spec fn register_answered(
    before: Directory,
    after: Directory,
    username: Seq<char>,
    email: Seq<char>,
    password: Seq<char>,
    reply: (Status, Option<UserInfoView>),
) -> bool {
    match registration_fault(username, email, password) {
        Some(fault) => reply == refusal::<UserInfoView>(fault) && after == before,
        None => {
            ||| reply == (Status::ServerError, None::<UserInfoView>) && after == before
            ||| before.can_assign() && exists|hash: Seq<char>|
                argon2_verdict(password, hash) == Some(true) && reply == stored_reply(
                    before.add_outcome(username, email, hash),
                ) && after == #[trigger] before.add(username, email, hash)
        },
    }
}

/// What the login route does: `reply` is its reply and `after` the
/// sessions it leaves, for a request with this username and password on
/// the users of `dir` and the sessions `before`.
pub open spec fn login_answered(
    dir: Directory,
    before: Map<u128, UserInfoView>,
    after: Map<u128, UserInfoView>,
    username: Seq<char>,
    password: Seq<char>,
    reply: (Status, Option<Seq<char>>),
) -> bool {
    match login_outcome(dir, username, password) {
        Ok(user) => session_answered(before, after, user, reply),
        Err(fault) => reply == refusal::<Seq<char>>(fault) && after == before,
    }
}

/// `reply` is status 200 with a token in the header, and `after` is
/// `before` with one more session of `user` under that token.
pub open spec fn session_answered(
    before: Map<u128, UserInfoView>,
    after: Map<u128, UserInfoView>,
    user: UserView,
    reply: (Status, Option<Seq<char>>),
) -> bool {
    exists|text: Seq<char>|
        reply == (Status::Success, Some(bearer(text))) && #[trigger] session_opened(
            before,
            after,
            user,
            text,
        )
}

/// The status that stands for an error of the user service.
pub fn status_of(e: &Error) -> (status: Status)
    ensures
        status == error_status(e@),
{
    match e {
        Error::NotFound(_) => Status::NotFound,
        Error::AlreadyExists(_) => Status::Conflict,
        Error::InvalidInput(_) => Status::BadRequest,
        Error::InvalidCredentials(_) => Status::Unauthorized,
        Error::HashingError(_) => Status::ServerError,
    }
}

/// The value of the `Authorization` header that carries a token.
pub fn bearer_header(token: &str) -> (header: String)
    ensures
        header@ == bearer(token@),
{
    String::from_str("Bearer ").concat(token)
}

/// The first step of the register route, which needs no user: checks the
/// request and hashes the password. A request that goes no further is
/// answered with the reply in `Err`.
pub fn prepare_registration(item: CreateUserRequest) -> (prepared: Result<
    HashedRegistration,
    Reply<UserInfo>,
>)
    ensures
        match registration_fault(item.username@, item.email@, item.password@) {
            Some(fault) => prepared matches Err(reply) && reply_view(reply) == refusal::<
                UserInfoView,
            >(fault),
            None => match prepared {
                Ok(hashed) => hashed.username@ == item.username@ && hashed.email@ == item.email@
                    && argon2_verdict(item.password@, hashed.hash@) == Some(true),
                Err(reply) => reply_view(reply) == (Status::ServerError, None::<UserInfoView>),
            },
        },
{
    match item.hash() {
        Ok(hashed) => Ok(hashed),
        Err(e) => Err(Reply { status: status_of(&e), body: None }),
    }
}

/// The second step of the login route, which needs no user store: checks
/// the password against the stored hash of the user that the first step
/// found. A request that goes no further is answered with the reply in
/// `Err`.
pub fn verify_candidate(user: User, item: &LoginRequest) -> (verified: Result<User, LoginReply>)
    ensures
        match verification_outcome(user@, item.password@) {
            Ok(same) => verified matches Ok(found) && found@ == same,
            Err(fault) => verified matches Err(reply) && login_view(reply) == refusal::<Seq<char>>(
                fault,
            ),
        },
{
    match verify_user(user, item.password.as_str()) {
        Ok(user) => Ok(user),
        Err(e) => Err(LoginReply { status: status_of(&e), authorization: None }),
    }
}

/// The routes for registration and login, without the transport: each
/// takes what was read from a request and says what is to be answered.
///
/// `register` and `login` do a whole request. Each is also offered step by
/// step, so that a caller that keeps the routes behind a lock need not hold
/// it while a password is hashed or verified: `prepare_registration`, then
/// `complete_registration`; and `find_candidate`, then `verify_candidate`,
/// then `open_session`.
pub struct UserRoutes<R: UserRepository> {
    user_service: UserService<R>,
}

impl<R: UserRepository> UserRoutes<R> {
    /// The users of the service behind the routes.
    pub closed spec fn directory(&self) -> Directory {
        self.user_service.directory()
    }

    /// The sessions of the service behind the routes.
    pub closed spec fn sessions(&self) -> Map<u128, UserInfoView> {
        self.user_service.sessions()
    }

    pub fn new(user_service: UserService<R>) -> (routes: Self)
        ensures
            routes.directory() == user_service.directory(),
            routes.sessions() == user_service.sessions(),
    {
        UserRoutes { user_service }
    }

    /// Registers a user and answers with the summary and status 201.
    ///
    /// Where the hasher fails, and where no id is left to give out, nobody
    /// is registered and the answer is status 500.
    pub fn register(&mut self, item: CreateUserRequest) -> (reply: Reply<UserInfo>)
        ensures
            final(self).sessions() == old(self).sessions(),
            register_answered(
                old(self).directory(),
                final(self).directory(),
                item.username@,
                item.email@,
                item.password@,
                reply_view(reply),
            ),
    {
        match prepare_registration(item) {
            Ok(hashed) => self.complete_registration(hashed),
            Err(reply) => reply,
        }
    }

    /// The second step of the register route: stores the user and answers
    /// with the summary and status 201, or with the status of the error.
    /// Where no id is left to give out, nothing is stored and the answer is
    /// status 500.
    pub fn complete_registration(&mut self, hashed: HashedRegistration) -> (reply: Reply<UserInfo>)
        ensures
            old(self).directory().wf(),
            final(self).directory().wf(),
            final(self).sessions() == old(self).sessions(),
            reply_view(reply) == if old(self).directory().can_assign() {
                stored_reply(
                    old(self).directory().add_outcome(
                        hashed.username@,
                        hashed.email@,
                        hashed.hash@,
                    ),
                )
            } else {
                (Status::ServerError, None::<UserInfoView>)
            },
            final(self).directory() == if old(self).directory().can_assign() {
                old(self).directory().add(hashed.username@, hashed.email@, hashed.hash@)
            } else {
                old(self).directory()
            },
    {
        if self.user_service.is_exhausted() {
            Reply { status: Status::ServerError, body: None }
        } else {
            match self.user_service.store_registration(hashed) {
                Ok(info) => Reply { status: Status::Created, body: Some(info) },
                Err(e) => Reply { status: status_of(&e), body: None },
            }
        }
    }

    /// Logs a user in and answers with status 200 and the token in the
    /// `Authorization` header.
    pub fn login(&mut self, item: LoginRequest) -> (reply: LoginReply)
        ensures
            final(self).directory() == old(self).directory(),
            login_answered(
                old(self).directory(),
                old(self).sessions(),
                final(self).sessions(),
                item.username@,
                item.password@,
                login_view(reply),
            ),
    {
        let user = match self.find_candidate(&item) {
            Ok(user) => user,
            Err(reply) => {
                return reply;
            },
        };
        match verify_candidate(user, &item) {
            Ok(user) => self.open_session(&user),
            Err(reply) => reply,
        }
    }

    /// The first step of the login route: the user that the request may be
    /// for, before the password is looked at. A request that goes no
    /// further is answered with the reply in `Err`.
    pub fn find_candidate(&self, item: &LoginRequest) -> (found: Result<User, LoginReply>)
        ensures
            match candidate_outcome(self.directory(), item.username@, item.password@) {
                Ok(user) => found matches Ok(candidate) && candidate@ == user,
                Err(fault) => found matches Err(reply) && login_view(reply) == refusal::<Seq<char>>(
                    fault,
                ),
            },
    {
        match self.user_service.login_candidate(item) {
            Ok(user) => Ok(user),
            Err(e) => Err(LoginReply { status: status_of(&e), authorization: None }),
        }
    }

    /// The third step of the login route: opens a session of the user and
    /// answers with status 200 and the token in the `Authorization` header.
    pub fn open_session(&mut self, user: &User) -> (reply: LoginReply)
        ensures
            final(self).directory() == old(self).directory(),
            session_answered(
                old(self).sessions(),
                final(self).sessions(),
                user@,
                login_view(reply),
            ),
    {
        let token = self.user_service.start_session(user);
        let header = bearer_header(token.as_str());
        assert(session_opened(old(self).sessions(), self.sessions(), user@, token@));
        LoginReply { status: Status::Success, authorization: Some(header) }
    }
}

} // verus!
