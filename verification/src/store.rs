//! The session state store: the one copy of the credentials of a running
//! session, written out in full whenever it changes.
//!
//! What the push channel, a user identity and the device identity hold is
//! the business of those who issue them; the store carries them as `P`, `K`
//! and `D` and looks into none of them.

use vstd::prelude::*;

verus! {

/// One identity of the user.
#[derive(Debug, PartialEq, Eq)]
pub struct UserIdentity<K> {
    /// Whether the identity is registered with a service.
    pub registered: bool,
    pub keys: K,
}

/// What a session needs to pick up where it left off. The first of `users`
/// is the primary identity.
#[derive(Debug, PartialEq, Eq)]
pub struct SessionState<P, K, D> {
    pub push: P,
    pub users: Vec<UserIdentity<K>>,
    pub identity: D,
}

impl<P, K, D> SessionState<P, K, D> {
    /// `self` with `users` in place of its identities, and nothing else
    /// changed.
    pub open spec fn with_users(self, users: Vec<UserIdentity<K>>) -> SessionState<P, K, D> {
        SessionState { push: self.push, users, identity: self.identity }
    }
}

/// Whether the primary identity has yet to be registered.
pub fn needs_registration<K>(users: &Vec<UserIdentity<K>>) -> (r: bool)
    requires
        users@.len() > 0,
    ensures
        r == !users@[0].registered,
{
    !users[0].registered
}

/// Holds the state of a running session. There is always at least one
/// user identity in it.
#[derive(Debug)]
pub struct SessionStore<P, K, D> {
    state: SessionState<P, K, D>,
}

impl<P, K, D> SessionStore<P, K, D> {
    #[verifier::type_invariant]
    spec fn has_primary(self) -> bool {
        self.state.users@.len() > 0
    }

    /// The state that is held.
    pub closed spec fn state(self) -> SessionState<P, K, D> {
        self.state
    }

    /// Takes up the state of a session and writes it out. `write` is
    /// called once, on the state that the store then holds, and what it
    /// returns is handed back.
    pub fn establish<R, F: FnOnce(&SessionState<P, K, D>) -> R>(
        push: P,
        users: Vec<UserIdentity<K>>,
        identity: D,
        write: F,
    ) -> (r: (SessionStore<P, K, D>, R))
        requires
            users@.len() > 0,
            call_requires(write, (&SessionState { push, users, identity },)),
        ensures
            r.0.state() == (SessionState { push, users, identity }),
            call_ensures(write, (&r.0.state(),), r.1),
    {
        let store = SessionStore { state: SessionState { push, users, identity } };
        let outcome = write(&store.state);
        (store, outcome)
    }

    /// The whole state, for writing out.
    pub fn snapshot(&self) -> (r: &SessionState<P, K, D>)
        ensures
            *r == self.state(),
            r.users@.len() > 0,
    {
        proof {
            use_type_invariant(self);
        }
        &self.state
    }

    /// The primary identity.
    pub fn primary(&self) -> (r: &UserIdentity<K>)
        ensures
            *r == self.state().users@[0],
    {
        proof {
            use_type_invariant(self);
        }
        &self.state.users[0]
    }

    /// The identities were rotated: `new_identities` take the place of the
    /// old ones, and the state is written out in full before this returns.
    /// `write` is called once, on the state that holds the new identities,
    /// and what it returns is handed back.
    pub fn on_identity_rotated<R, F: FnOnce(&SessionState<P, K, D>) -> R>(
        &mut self,
        new_identities: Vec<UserIdentity<K>>,
        write: F,
    ) -> (outcome: R)
        requires
            new_identities@.len() > 0,
            call_requires(write, (&old(self).state().with_users(new_identities),)),
        ensures
            final(self).state() == old(self).state().with_users(new_identities),
            call_ensures(write, (&final(self).state(),), outcome),
    {
        self.state.users = new_identities;
        write(&self.state)
    }
}

} // verus!
