use crate::user::errors::ErrorView;
use crate::user::user::UserView;
use crate::user::user_repository::{lemma_add_keeps_wf, Directory};
use crate::user::user_service::{login_outcome, registration_fault, session_opened, UserInfoView};
use crate::utils::clock::Timestamp;
use crate::utils::identifier::{hyphenated, lemma_hyphenated_is_injective};
use crate::utils::password_handler::argon2_verdict;
use vstd::prelude::*;

verus! {

impl Directory {
    /// The directory after one `add_user` for each entry, a username, an
    /// email and a password hash, in the order of the entries.
    pub open spec fn add_all(self, entries: Seq<(Seq<char>, Seq<char>, Seq<char>)>) -> Directory
        decreases entries.len(),
    {
        if entries.len() == 0 {
            self
        } else {
            self.add_all(entries.drop_last()).add(
                entries.last().0,
                entries.last().1,
                entries.last().2,
            )
        }
    }

    /// The user that entry `k` becomes when the entries are added to this
    /// directory and every call succeeds.
    pub open spec fn created(self, entries: Seq<(Seq<char>, Seq<char>, Seq<char>)>, k: int)
        -> UserView {
        UserView {
            id: (self.last_id + 1 + k) as u32,
            username: entries[k].0,
            email: entries[k].1,
            password: entries[k].2,
        }
    }
}

/// Adding users with a username and an email that are not empty, under
/// usernames that differ from one another and from those in the directory,
/// succeeds call by call, as long as ids are left. Afterwards the directory
/// lists what it listed before and then the new users in the order of the
/// calls, with ids that count up from the last one given out.
pub proof fn lemma_adds_with_new_usernames(
    dir: Directory,
    entries: Seq<(Seq<char>, Seq<char>, Seq<char>)>,
)
    requires
        dir.wf(),
        dir.last_id + entries.len() <= u32::MAX,
        forall|k: int|
            0 <= k < entries.len() ==> (#[trigger] entries[k]).0.len() > 0 && entries[k].1.len()
                > 0,
        forall|k: int| 0 <= k < entries.len() ==> !dir.has_username((#[trigger] entries[k]).0),
        forall|k: int, l: int|
            0 <= k < l < entries.len() ==> (#[trigger] entries[k]).0 != (#[trigger] entries[l]).0,
    ensures
        forall|k: int|
            0 <= k < entries.len() ==> (#[trigger] dir.add_all(entries.take(k))).add_outcome(
                entries[k].0,
                entries[k].1,
                entries[k].2,
            ) == Ok::<UserView, ErrorView>(dir.created(entries, k)),
        dir.add_all(entries).users == dir.users + Seq::new(
            entries.len(),
            |k: int| dir.created(entries, k),
        ),
        dir.add_all(entries).last_id == dir.last_id + entries.len(),
        dir.add_all(entries).wf(),
    decreases entries.len(),
{
    let news = Seq::new(entries.len(), |k: int| dir.created(entries, k));
    if entries.len() == 0 {
        assert(dir.users + news =~= dir.users);
    } else {
        let fewer = entries.drop_last();
        let last = entries.last();
        let n = fewer.len() as int;
        lemma_adds_with_new_usernames(dir, fewer);
        let before = dir.add_all(fewer);
        let fewer_news = Seq::new(fewer.len(), |k: int| dir.created(fewer, k));
        assert(before.users == dir.users + fewer_news);
        assert(entries[n] == last);
        assert(!before.has_username(last.0)) by {
            assert forall|i: int| 0 <= i < before.users.len() implies (
            #[trigger] before.users[i]).username != last.0 by {
                if i < dir.users.len() {
                    assert(before.users[i] == dir.users[i]);
                } else {
                    let k = i - dir.users.len();
                    assert(before.users[i] == fewer_news[k]);
                    assert(fewer[k] == entries[k]);
                }
            }
        }
        assert(before.add_outcome(last.0, last.1, last.2) == Ok::<UserView, ErrorView>(
            dir.created(entries, n),
        ));
        lemma_add_keeps_wf(before, last.0, last.1, last.2);
        assert(dir.add_all(entries).users =~= dir.users + news) by {
            assert forall|k: int| 0 <= k < n implies fewer_news[k] == news[k] by {
                assert(fewer[k] == entries[k]);
            }
        }
        assert forall|k: int| 0 <= k < entries.len() implies (#[trigger] dir.add_all(
            entries.take(k),
        )).add_outcome(entries[k].0, entries[k].1, entries[k].2) == Ok::<UserView, ErrorView>(
            dir.created(entries, k),
        ) by {
            if k < n {
                assert(entries.take(k) =~= fewer.take(k));
                assert(fewer[k] == entries[k]);
                assert(dir.add_all(fewer.take(k)).add_outcome(fewer[k].0, fewer[k].1, fewer[k].2)
                    == Ok::<UserView, ErrorView>(dir.created(fewer, k)));
            } else {
                assert(entries.take(k) =~= fewer);
            }
        }
    }
}

/// A user whose username is taken is refused as `AlreadyExists`, whatever
/// the email, as long as it is not empty, and whatever the password hash;
/// the directory stays as it is.
pub proof fn lemma_taken_username_is_refused(
    dir: Directory,
    username: Seq<char>,
    email: Seq<char>,
    password: Seq<char>,
)
    requires
        dir.wf(),
        dir.has_username(username),
        email.len() > 0,
    ensures
        dir.add_outcome(username, email, password) == Err::<UserView, ErrorView>(
            ErrorView::username_taken(username),
        ),
        dir.add(username, email, password) == dir,
{
}

/// After a user was added, a second user under the same username is
/// refused as `AlreadyExists`.
pub proof fn lemma_second_add_is_refused(
    dir: Directory,
    username: Seq<char>,
    email: Seq<char>,
    password: Seq<char>,
    other_email: Seq<char>,
    other_password: Seq<char>,
)
    requires
        dir.wf(),
        dir.can_assign(),
        dir.add_outcome(username, email, password) is Ok,
        other_email.len() > 0,
    ensures
        dir.add(username, email, password).add_outcome(username, other_email, other_password)
            == Err::<UserView, ErrorView>(ErrorView::username_taken(username)),
{
    let user = dir.next_user(username, email, password);
    let after = dir.add(username, email, password);
    assert(after.users == dir.users.push(user));
    assert(after.users[dir.users.len() as int].username == username);
}

/// The id of a new user is greater than every id that the directory holds
/// or ever gave out.
pub proof fn lemma_new_id_is_greater(
    dir: Directory,
    username: Seq<char>,
    email: Seq<char>,
    password: Seq<char>,
)
    requires
        dir.wf(),
        dir.can_assign(),
        dir.add_outcome(username, email, password) is Ok,
    ensures
        dir.add_outcome(username, email, password)->Ok_0.id == dir.last_id + 1,
        forall|i: int|
            0 <= i < dir.users.len() ==> (#[trigger] dir.users[i]).id < dir.add_outcome(
                username,
                email,
                password,
            )->Ok_0.id,
{
}

/// A user that was just added is what a lookup by its id gives, and what
/// a lookup by its username gives.
pub proof fn lemma_added_user_is_found(
    dir: Directory,
    username: Seq<char>,
    email: Seq<char>,
    password: Seq<char>,
)
    requires
        dir.wf(),
        dir.can_assign(),
        dir.add_outcome(username, email, password) is Ok,
    ensures
        dir.add(username, email, password).find_id(
            dir.add_outcome(username, email, password)->Ok_0.id,
        ) == dir.add_outcome(username, email, password),
        dir.add(username, email, password).find_username(username) == dir.add_outcome(
            username,
            email,
            password,
        ),
{
    let user = dir.add_outcome(username, email, password)->Ok_0;
    let after = dir.add(username, email, password);
    lemma_add_keeps_wf(dir, username, email, password);
    let n = dir.users.len() as int;
    assert(after.users == dir.users.push(user));
    assert(after.users[n] == user);
    assert(after.has_id(user.id));
    assert(after.has_username(username));
    let by_id = choose|i: int| 0 <= i < after.users.len() && (#[trigger] after.users[i]).id == user.id;
    if by_id < n {
        assert(after.users[by_id].id < after.users[n].id);
    }
    let by_name = choose|i: int|
        0 <= i < after.users.len() && (#[trigger] after.users[i]).username == username;
    if by_name < n {
        assert(after.users[by_name].username != after.users[n].username);
    }
}

/// A user who was added under a hash that is accepted for a password can
/// log in with that password.
pub proof fn lemma_added_user_can_log_in(
    dir: Directory,
    username: Seq<char>,
    email: Seq<char>,
    hash: Seq<char>,
    password: Seq<char>,
)
    requires
        dir.wf(),
        dir.can_assign(),
        dir.add_outcome(username, email, hash) is Ok,
        argon2_verdict(password, hash) == Some(true),
        password.len() > 0,
    ensures
        login_outcome(dir.add(username, email, hash), username, password) == dir.add_outcome(
            username,
            email,
            hash,
        ),
{
    lemma_added_user_is_found(dir, username, email, hash);
}

/// A login under a username that nobody has and a login with a wrong
/// password are refused with the same answer.
pub proof fn lemma_refusals_are_alike(
    dir: Directory,
    unknown: Seq<char>,
    any_password: Seq<char>,
    known: Seq<char>,
    wrong_password: Seq<char>,
)
    requires
        !dir.has_username(unknown),
        dir.by_username(known) matches Some(user) && argon2_verdict(wrong_password, user.password)
            == Some(false),
    ensures
        login_outcome(dir, unknown, any_password) == Err::<UserView, ErrorView>(
            ErrorView::bad_credentials(),
        ),
        login_outcome(dir, known, wrong_password) == login_outcome(dir, unknown, any_password),
{
}

/// The token that a login returns is not empty and differs from the token
/// of every session that was open before.
pub proof fn lemma_login_token_is_new(
    before: Map<u128, UserInfoView>,
    after: Map<u128, UserInfoView>,
    user: UserView,
    text: Seq<char>,
)
    requires
        session_opened(before, after, user, text),
    ensures
        text.len() == 36,
        forall|token: u128| before.contains_key(token) ==> #[trigger] hyphenated(token) != text,
{
    let (new, at) = choose|new: u128, at: Timestamp|
        text == hyphenated(new) && !before.contains_key(new) && after == #[trigger] before.insert(
            new,
            user.session(at),
        );
    assert forall|token: u128| before.contains_key(token) implies #[trigger] hyphenated(token)
        != text by {
        if hyphenated(token) == text {
            lemma_hyphenated_is_injective(token, new);
        }
    }
}

/// A registration with an empty field or with a password of fewer than
/// eight characters is faulty.
pub proof fn lemma_short_password_is_a_fault(
    username: Seq<char>,
    email: Seq<char>,
    password: Seq<char>,
)
    requires
        password.len() < 8,
    ensures
        registration_fault(username, email, password) is Some,
        username.len() > 0 && email.len() > 0 && password.len() > 0 ==> registration_fault(
            username,
            email,
            password,
        ) == Some(ErrorView::short_password()),
{
}

} // verus!
