//! Protocol orchestrator: sequences the four protocol operations against
//! the prover-supplied values, the verifier and the two session stores.
//!
//! Per authentication attempt the states are registered, challenge issued,
//! then verified (accept or reject). Group parameters are generated once,
//! on the first initialise call, and immutable afterwards; every per-request
//! failure is surfaced as a recoverable [`AuthError`], never a crash.

use vstd::prelude::*;
use crate::store::{Authentication, AuthenticationStore, RegistrationSecret, RegistrationStore, Store};
use crate::verification::{ChaumPedersenVerifier, ZKPVerifier};
use crate::zkp_crypto::{generate_keys, random_in_range, ChaumPedersenAttrs};

verus! {

/// Why an authentication attempt did not yield a session token.
#[derive(Clone, Copy, Debug, PartialEq, Eq, Structural)]
pub enum AuthError {
    /// The session identifier matches no pending authentication: a client
    /// error, the request is rejected without touching any state.
    UnknownSession,
    /// State the server itself should have kept is missing: no group
    /// parameters were initialised, or the pending entry names a user with
    /// no registration. An internal inconsistency, not a security decision.
    ServerFault,
    /// The verifier rejected the response: authentication denied.
    Rejected,
}

/// Relies on `uuid::Uuid::new_v4` and the hyphenated `Display` format of
/// `uuid::Uuid`: a freshly drawn random identifier, rendered as 36
/// characters. Nothing further can be promised of a random value.
#[verifier::external_body]
fn new_session_id() -> (r: String)
    ensures
        r@.len() == 36,
{
    uuid::Uuid::new_v4().to_string()
}

/// The authentication backend: the process-wide group parameters, once
/// initialised, and the two session maps.
pub struct MyAuth {
    registration_store: RegistrationStore,
    authentication_store: AuthenticationStore,
    params: Option<ChaumPedersenAttrs>,
}

impl MyAuth {
    /// The registrations map, keyed by user identity.
    pub closed spec fn registrations(&self) -> Map<Seq<char>, RegistrationSecret> {
        self.registration_store.contents()
    }

    /// The pending authentications map, keyed by session identifier.
    pub closed spec fn pending(&self) -> Map<Seq<char>, Authentication> {
        self.authentication_store.contents()
    }

    /// The group parameters, `None` until the first initialise call.
    pub closed spec fn group_params(&self) -> Option<ChaumPedersenAttrs> {
        self.params
    }

    /// Whatever parameters are held satisfy the group invariant.
    pub open spec fn wf(&self) -> bool {
        match self.group_params() {
            Some(attrs) => attrs.wf(),
            None => true,
        }
    }

    /// A fresh backend: no parameters, no registrations, nothing pending.
    pub fn new() -> (a: MyAuth)
        ensures
            a.wf(),
            a.group_params() == None::<ChaumPedersenAttrs>,
            a.registrations() == Map::<Seq<char>, RegistrationSecret>::empty(),
            a.pending() == Map::<Seq<char>, Authentication>::empty(),
    {
        MyAuth {
            registration_store: RegistrationStore::new(),
            authentication_store: AuthenticationStore::new(),
            params: None,
        }
    }

    /// Return the process-wide group parameters, generating them on the
    /// first call and returning the identical stored value on every later
    /// one. `None` means generation exhausted its attempt budget: fatal at
    /// startup, the backend must not serve.
    pub fn initialise(&mut self) -> (r: Option<ChaumPedersenAttrs>)
        requires
            old(self).wf(),
        ensures
            final(self).wf(),
            final(self).registrations() == old(self).registrations(),
            final(self).pending() == old(self).pending(),
            match r {
                Some(attrs) => {
                    &&& attrs.wf()
                    &&& final(self).group_params() == Some(attrs)
                    &&& (old(self).group_params() matches Some(prev) ==> attrs == prev)
                },
                None => {
                    &&& old(self).group_params() == None::<ChaumPedersenAttrs>
                    &&& final(self).group_params() == None::<ChaumPedersenAttrs>
                },
            },
    {
        match self.params {
            Some(attrs) => Some(attrs),
            None => {
                match generate_keys() {
                    Some(attrs) => {
                        self.params = Some(attrs);
                        Some(attrs)
                    },
                    None => None,
                }
            },
        }
    }

    /// Upsert the registration commitments for `user`: a re-registration
    /// silently replaces the prior record.
    pub fn register(&mut self, user: String, y1: u64, y2: u64)
        requires
            old(self).wf(),
        ensures
            final(self).wf(),
            final(self).registrations() == old(self).registrations().insert(
                user@,
                (RegistrationSecret { y1, y2 }),
            ),
            final(self).pending() == old(self).pending(),
            final(self).group_params() == old(self).group_params(),
    {
        self.registration_store.insert(user, RegistrationSecret { y1, y2 });
    }

    /// Allocate a fresh opaque session identifier, draw a random challenge,
    /// persist the pending authentication under that identifier, and return
    /// both to the caller. The challenge is kept small so the verifier's
    /// exponentiations stay cheap for the demonstration group.
    pub fn create_authentication_challenge(&mut self, user: String, r1: u64, r2: u64) -> (r: (
        String,
        u64,
    ))
        requires
            old(self).wf(),
        ensures
            final(self).wf(),
            2 <= r.1 < 10,
            final(self).pending() == old(self).pending().insert(
                r.0@,
                (Authentication { r1, r2, c: r.1, user }),
            ),
            final(self).registrations() == old(self).registrations(),
            final(self).group_params() == old(self).group_params(),
    {
        let auth_id = new_session_id();
        let c = random_in_range(2, 10);
        let authentication = Authentication { r1, r2, c, user };
        self.authentication_store.insert(auth_id.clone(), authentication);
        (auth_id, c)
    }

    /// Decide an authentication attempt: look up the pending authentication
    /// by session identifier (a miss is the client's error), look up the
    /// registration it names (a miss is the server's own fault, as is
    /// serving before initialisation), and run the verifier; acceptance
    /// mints a fresh opaque session token.
    pub fn verify_authentication(&self, auth_id: String, s: u64) -> (r: Result<String, AuthError>)
        requires
            self.wf(),
        ensures
            match r {
                Ok(token) => {
                    &&& self.pending().contains_key(auth_id@)
                    &&& self.group_params() matches Some(attrs)
                    &&& self.registrations().contains_key(self.pending()[auth_id@].user@)
                    &&& (ChaumPedersenVerifier { attrs: self.group_params()->Some_0 }).verify_spec(
                        self.registrations()[self.pending()[auth_id@].user@],
                        self.pending()[auth_id@],
                        s,
                    )
                },
                Err(AuthError::UnknownSession) => !self.pending().contains_key(auth_id@),
                Err(AuthError::ServerFault) => {
                    &&& self.pending().contains_key(auth_id@)
                    &&& (self.group_params() is None || !self.registrations().contains_key(
                        self.pending()[auth_id@].user@,
                    ))
                },
                Err(AuthError::Rejected) => {
                    &&& self.pending().contains_key(auth_id@)
                    &&& self.group_params() matches Some(attrs)
                    &&& self.registrations().contains_key(self.pending()[auth_id@].user@)
                    &&& !(ChaumPedersenVerifier { attrs: self.group_params()->Some_0 }).verify_spec(
                        self.registrations()[self.pending()[auth_id@].user@],
                        self.pending()[auth_id@],
                        s,
                    )
                },
            },
    {
        let pending = match self.authentication_store.get(auth_id) {
            Some(value) => value,
            None => {
                return Err(AuthError::UnknownSession);
            },
        };
        let attrs = match self.params {
            Some(attrs) => attrs,
            None => {
                return Err(AuthError::ServerFault);
            },
        };
        let registration = match self.registration_store.get(pending.user.clone()) {
            Some(value) => value,
            None => {
                return Err(AuthError::ServerFault);
            },
        };
        let verifier = ChaumPedersenVerifier { attrs };
        if verifier.verify(registration, &pending, s) {
            Ok(new_session_id())
        } else {
            Err(AuthError::Rejected)
        }
    }
}

} // verus!
