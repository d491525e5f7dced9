//! Plain data that the session engine reads and produces.

use vstd::prelude::*;

verus! {

/// A 32-byte account identifier. For an account that authorises sessions by
/// signature, these bytes are also its public key.
pub type AccountId = [u8; 32];

/// An action a delegate may be allowed to perform, as an opaque one-byte tag.
pub type ActionTag = u8;

/// Settings fixed when the storage is created.
#[derive(Clone, Copy, Debug, PartialEq, Eq, Structural)]
pub struct Config {
    /// Gas reserved for the delayed message that cleans a session up.
    pub gas_to_delete_session: u64,
    /// Shortest duration, in milliseconds, that a session may be asked for.
    pub minimum_session_duration_ms: u64,
    /// Length of one block in milliseconds.
    pub ms_per_block: u64,
}

impl Default for Config {
    fn default() -> (config: Self)
        ensures
            config.gas_to_delete_session == 0,
            config.minimum_session_duration_ms == 0,
            config.ms_per_block == 0,
    {
        Config { gas_to_delete_session: 0, minimum_session_duration_ms: 0, ms_per_block: 0 }
    }
}

/// What the host reports about the message being handled and the chain.
#[derive(Clone, Copy, Debug, PartialEq, Eq, Structural)]
pub struct Clock {
    /// Wall-clock time of the current block, in milliseconds.
    pub block_timestamp: u64,
    /// Height of the current block.
    pub block_height: u32,
}

/// The mathematical content of a [`SessionData`].
pub struct SessionView {
    pub key: AccountId,
    pub expires: u64,
    pub allowed_actions: Seq<ActionTag>,
    pub expires_at_block: u32,
}

/// A stored grant: `key` may act for the account the session is filed under.
#[derive(Debug, PartialEq, Eq)]
pub struct SessionData {
    /// The account that acts on the owner's behalf.
    pub key: AccountId,
    /// Wall-clock deadline in milliseconds. Advisory only.
    pub expires: u64,
    /// What the delegate may do, in the order requested. Never empty in storage.
    pub allowed_actions: Vec<ActionTag>,
    /// First block at which the session no longer counts as active.
    pub expires_at_block: u32,
}

impl View for SessionData {
    type V = SessionView;

    open spec fn view(&self) -> SessionView {
        SessionView {
            key: self.key,
            expires: self.expires,
            allowed_actions: self.allowed_actions@,
            expires_at_block: self.expires_at_block,
        }
    }
}

impl Clone for SessionData {
    fn clone(&self) -> (copy: Self)
        ensures
            copy@ == self@,
    {
        SessionData {
            key: self.key,
            expires: self.expires,
            allowed_actions: self.allowed_actions.clone(),
            expires_at_block: self.expires_at_block,
        }
    }
}

/// The mathematical content of a [`SignatureData`].
pub struct SignatureView {
    pub key: AccountId,
    pub duration: u64,
    pub allowed_actions: Seq<ActionTag>,
}

/// A request for a session.
///
/// Sent directly by the owner, `key` names the delegate. Sent by the delegate
/// together with the owner's signature, `key` names the owner.
#[derive(Debug, PartialEq, Eq)]
pub struct SignatureData {
    pub key: AccountId,
    /// Requested lifetime in milliseconds.
    pub duration: u64,
    pub allowed_actions: Vec<ActionTag>,
}

impl View for SignatureData {
    type V = SignatureView;

    open spec fn view(&self) -> SignatureView {
        SignatureView {
            key: self.key,
            duration: self.duration,
            allowed_actions: self.allowed_actions@,
        }
    }
}

impl Clone for SignatureData {
    fn clone(&self) -> (copy: Self)
        ensures
            copy@ == self@,
    {
        SignatureData {
            key: self.key,
            duration: self.duration,
            allowed_actions: self.allowed_actions.clone(),
        }
    }
}

/// What observers are told after a successful operation.
#[derive(Clone, Copy, Debug, PartialEq, Eq, Structural)]
pub enum SessionEvent {
    SessionCreated,
    SessionDeleted,
}

/// Why an operation was refused.
#[derive(Clone, Copy, Debug, PartialEq, Eq, Structural)]
pub enum SessionError {
    /// The signature bytes do not encode a signature.
    BadSignature,
    /// The owner's account bytes do not encode a public key.
    BadPublicKey,
    /// The signature does not match the payload under the owner's key.
    VerificationFailed,
    /// The requested duration is below the configured minimum.
    DurationIsSmall,
    /// The requested duration leads to an expiry that cannot be represented.
    DurationIsLarge,
    /// The request allows no action at all.
    ThereAreNoAllowedMessages,
    /// The cleanup entry point was called by someone other than the program.
    MessageOnlyForProgram,
    /// The session to clean up has not expired yet.
    TooEarlyToDeleteSession,
    /// The caller has no session to cancel.
    NoSession,
    /// The owner still has a session that has not expired.
    AlreadyHaveActiveSession,
    /// The delayed cleanup message could not be sent.
    SendMessageFailed,
    /// The event could not be delivered.
    EmitEventFailed,
}

/// Compares two account identifiers byte by byte.
pub fn same_account(a: &AccountId, b: &AccountId) -> (same: bool)
    ensures
        same == (*a == *b),
{
    let mut i: usize = 0;
    while i < 32
        invariant
            i <= 32,
            forall|j: int| 0 <= j < i ==> a[j] == b[j],
        decreases 32 - i,
    {
        if a[i] != b[i] {
            return false;
        }
        i = i + 1;
    }
    assert(*a =~= *b);
    true
}

} // verus!
