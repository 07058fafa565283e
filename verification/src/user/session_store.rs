use crate::user::user_service::{UserInfo, UserInfoView};
use crate::utils::identifier;
use std::collections::HashMap;
use vstd::prelude::*;
use vstd::set_lib::lemma_len_subset;

verus! {

broadcast use vstd::std_specs::hash::group_hash_axioms;

/// How many random tokens `issue` draws before it takes the first free
/// token that follows the last one drawn.
pub const RANDOM_DRAWS: u32 = 8;

/// The token `steps` places after `start`, going round after the greatest.
pub open spec fn probe(start: u128, steps: nat) -> u128 {
    if start + steps <= u128::MAX {
        (start + steps) as u128
    } else {
        (start + steps - u128::MAX - 1) as u128
    }
}

/// The first `count` tokens from `start` on.
pub open spec fn probed(start: u128, count: nat) -> Set<u128> {
    Set::new(|token: u128| exists|steps: nat| steps < count && token == probe(start, steps))
}

/// The first `count` tokens from `start` on are `count` different tokens.
proof fn lemma_probed_len(start: u128, count: nat)
    requires
        count <= u128::MAX,
    ensures
        probed(start, count).finite(),
        probed(start, count).len() == count,
    decreases count,
{
    if count == 0 {
        assert(probed(start, count) =~= Set::empty());
    } else {
        let fewer = (count - 1) as nat;
        lemma_probed_len(start, fewer);
        let last = probe(start, fewer);
        assert(!probed(start, fewer).contains(last));
        assert forall|token: u128| probed(start, count).contains(token) implies probed(
            start,
            fewer,
        ).insert(last).contains(token) by {
            let steps = choose|steps: nat| steps < count && token == probe(start, steps);
            if steps < fewer {
                assert(probed(start, fewer).contains(token));
            }
        }
        assert forall|token: u128|
            probed(start, fewer).insert(last).contains(token) implies probed(
            start,
            count,
        ).contains(token) by {
            if token == last {
                assert(fewer < count && token == probe(start, fewer));
            } else {
                let steps = choose|steps: nat| steps < fewer && token == probe(start, steps);
                assert(steps < count && token == probe(start, steps));
            }
        }
        assert(probed(start, count) =~= probed(start, fewer).insert(last));
    }
}

/// The sessions that were opened, each under the token that was handed out
/// for it. A session is never changed or removed.
pub struct SessionStore {
    sessions: HashMap<u128, UserInfo>,
}

impl View for SessionStore {
    type V = Map<u128, UserInfoView>;

    closed spec fn view(&self) -> Map<u128, UserInfoView> {
        self.sessions@.map_values(|session: UserInfo| session@)
    }
}

impl SessionStore {
    pub fn new() -> (store: Self)
        ensures
            store@ == Map::<u128, UserInfoView>::empty(),
    {
        let store = SessionStore { sessions: HashMap::new() };
        assert(store@ =~= Map::<u128, UserInfoView>::empty());
        store
    }

    /// The number of sessions.
    pub fn len(&self) -> (count: usize)
        ensures
            count == self@.len(),
            self@.dom().finite(),
    {
        assert(self@.dom() =~= self.sessions@.dom());
        self.sessions.len()
    }

    /// Whether a session stands under this token.
    pub fn is_issued(&self, token: u128) -> (yes: bool)
        ensures
            yes == self@.contains_key(token),
    {
        self.sessions.contains_key(&token)
    }

    /// The session under this token.
    pub fn session(&self, token: u128) -> (found: Option<UserInfo>)
        ensures
            match found {
                Some(session) => self@.contains_key(token) && self@[token] == session@,
                None => !self@.contains_key(token),
            },
    {
        match self.sessions.get(&token) {
            Some(session) => Some(session.clone()),
            None => None,
        }
    }

    /// Puts a session under `token` unless the token is taken; then the
    /// store stays as it is and the session is handed back.
    pub fn record(&mut self, token: u128, session: UserInfo) -> (rejected: Option<UserInfo>)
        ensures
            old(self)@.contains_key(token) ==> rejected == Some(session) && final(self)@ == old(
                self,
            )@,
            !old(self)@.contains_key(token) ==> rejected.is_none() && final(self)@ == old(
                self,
            )@.insert(token, session@),
    {
        if self.sessions.contains_key(&token) {
            Some(session)
        } else {
            self.sessions.insert(token, session);
            assert(self@ =~= old(self)@.insert(token, session@));
            None
        }
    }

    /// The first token from `start` on that is free.
    pub fn first_free_from(&self, start: u128) -> (token: u128)
        ensures
            !self@.contains_key(token),
            exists|steps: nat|
                token == probe(start, steps) && forall|fewer: nat|
                    fewer < steps ==> self@.contains_key(#[trigger] probe(start, fewer)),
    {
        let held = self.sessions.len();
        let mut candidate = start;
        let mut tried: usize = 0;
        while self.sessions.contains_key(&candidate)
            invariant
                candidate == probe(start, tried as nat),
                forall|fewer: nat|
                    fewer < tried ==> self.sessions@.contains_key(#[trigger] probe(start, fewer)),
                tried <= held == self.sessions@.len(),
            decreases held - tried,
        {
            proof {
                let next = (tried + 1) as nat;
                lemma_probed_len(start, next);
                assert forall|token: u128| probed(start, next).contains(
                    token,
                ) implies self.sessions@.dom().contains(token) by {
                    let steps = choose|steps: nat| steps < next && token == probe(start, steps);
                    assert(self.sessions@.contains_key(probe(start, steps)));
                }
                lemma_len_subset(probed(start, next), self.sessions@.dom());
            }
            candidate = if candidate == u128::MAX {
                0
            } else {
                candidate + 1
            };
            tried = tried + 1;
        }
        assert(self@.dom() =~= self.sessions@.dom());
        candidate
    }

    /// Opens a session under a token that was never handed out before, and
    /// returns the token.
    ///
    /// The token is random. Should each of `RANDOM_DRAWS` draws give a token
    /// that is taken, the first free token after the last draw is used.
    pub fn issue(&mut self, session: UserInfo) -> (token: u128)
        ensures
            !old(self)@.contains_key(token),
            final(self)@ == old(self)@.insert(token, session@),
    {
        let mut drawn = identifier::random();
        let mut draws: u32 = 1;
        while draws < RANDOM_DRAWS && self.sessions.contains_key(&drawn)
            invariant
                1 <= draws <= RANDOM_DRAWS,
                *self == *old(self),
            decreases RANDOM_DRAWS - draws,
        {
            drawn = identifier::random();
            draws = draws + 1;
        }
        let token = self.first_free_from(drawn);
        self.sessions.insert(token, session);
        assert(self@ =~= old(self)@.insert(token, session@));
        token
    }
}

} // verus!
