//! Authentication state of a relay connection.

use vstd::prelude::*;

use crate::envelope::PublicKey;

verus! {

/// The identity that a client has proved.
#[derive(Debug, Clone, Copy, PartialEq, Eq)]
pub struct AuthContext {
    /// The authenticated key.
    pub pubkey: PublicKey,
    /// The key of the owner, when the client is an agent.
    pub agent_owner_pubkey: Option<PublicKey>,
}

/// NIP-42 authentication state for a single connection.
#[derive(Debug, Clone, PartialEq, Eq)]
pub enum AuthState {
    /// Challenge has been sent; awaiting a signed AUTH event from the client.
    Pending {
        /// The random challenge string sent to the client.
        challenge: String,
    },
    /// Client has successfully authenticated.
    Authenticated(AuthContext),
    /// Authentication attempt was rejected.
    Failed,
}

impl AuthState {
    /// The key that the client has authenticated as.
    pub open spec fn identity(&self) -> Option<Seq<u8>> {
        match self {
            AuthState::Authenticated(context) => Some(context.pubkey@),
            _ => None,
        }
    }

    /// A client has an identity exactly once it has authenticated, and then it is
    /// the key that it proved, not that of its owner; a challenge that waits for
    /// its answer, and a failed attempt, give none.
    pub proof fn identities_are_proved(
        challenge: String,
        pubkey: PublicKey,
        owner: Option<PublicKey>,
    )
        ensures
            (AuthState::Pending { challenge }).identity() is None,
            AuthState::Failed.identity() is None,
            AuthState::Authenticated(
                AuthContext { pubkey, agent_owner_pubkey: owner },
            ).identity() == Some(pubkey@),
    {
    }

    /// Returns whether authentication has completed successfully.
    pub fn is_authenticated(&self) -> (yes: bool)
        ensures
            yes == self.identity() is Some,
    {
        match self {
            AuthState::Authenticated(_) => true,
            _ => false,
        }
    }

    /// Returns whether the session has authenticated as `pubkey`.
    pub fn is_authenticated_as(&self, pubkey: &[u8]) -> (yes: bool)
        ensures
            yes == (self.identity() == Some(pubkey@)),
    {
        match self {
            AuthState::Authenticated(context) => crate::text::bytes_eq(
                context.pubkey.bytes.as_slice(),
                pubkey,
            ),
            _ => false,
        }
    }
}

}
