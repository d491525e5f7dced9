//! The session service: creating, cancelling and cleaning up sessions.
//!
//! The service owns the sessions on file and decides. It neither reads the
//! clock nor sends anything: the caller hands in who is asking and what the
//! chain reports, carries out what the service asks for, and reports back
//! how that went.

use vstd::prelude::*;

use crate::expiry::{compute_expiry, expiry_of, Expiry};
use crate::payload::{build_signing_payload, lemma_signing_payload_len, MAX_SIGNED_ACTIONS};
use crate::rules::{
    account_delete_outcome, all_allow_something, cleanup_outcome, cleanup_pending,
    create_refusal, has_active_session, program_delete_outcome, request_refusal,
    sessions_after_account_delete, sessions_after_create, sessions_after_program_delete,
    sessions_after_request, sessions_after_settle, taken_as_valid, PendingView, Sessions,
};
use crate::signature::verify;
use crate::store::{listing_matches, session_entries, SessionMap};
use crate::types::{
    same_account, AccountId, Clock, Config, SessionData, SessionError, SessionEvent, SessionView,
    SignatureData,
};

verus! {

/// The mathematical content of a [`Storage`].
pub struct StorageView {
    pub sessions: Sessions,
    pub config: Config,
}

/// The sessions on file together with the settings they are kept under.
pub struct Storage {
    sessions: SessionMap,
    config: Config,
}

impl View for Storage {
    type V = StorageView;

    closed spec fn view(&self) -> StorageView {
        StorageView { sessions: session_entries(self.sessions), config: self.config }
    }
}

/// What the caller owes after a request was accepted: to schedule the
/// cleanup of the owner's entry [`delay`](Self::delay) blocks ahead with
/// [`gas_limit`](Self::gas_limit), and to report with
/// [`Storage::settle_cleanup`] whether that worked.
///
/// Only [`Storage::create_session`] makes one.
#[must_use]
#[derive(Debug)]
pub struct PendingCleanup {
    account: AccountId,
    gas_limit: u64,
    delay: u32,
    replaced: Option<SessionData>,
}

/// The content of an optional session.
pub open spec fn session_content(session: Option<SessionData>) -> Option<SessionView> {
    match session {
        Some(data) => Some(data@),
        None => None,
    }
}

/// The content of an optional byte string.
pub open spec fn bytes_content(bytes: Option<Vec<u8>>) -> Option<Seq<u8>> {
    match bytes {
        Some(b) => Some(b@),
        None => None,
    }
}

impl View for PendingCleanup {
    type V = PendingView;

    closed spec fn view(&self) -> PendingView {
        PendingView {
            account: self.account,
            gas_limit: self.gas_limit,
            delay: self.delay,
            replaced: session_content(self.replaced),
        }
    }
}

impl PendingCleanup {
    /// Whether what was replaced could have been on file.
    pub open spec fn wf(&self) -> bool {
        self@.replaced is Some ==> self@.replaced.unwrap().allowed_actions.len() > 0
    }

    /// The owner whose entry is to be cleaned up.
    pub fn account(&self) -> (account: AccountId)
        ensures
            account == self@.account,
    {
        self.account
    }

    /// Gas to attach to the delayed message.
    pub fn gas_limit(&self) -> (gas_limit: u64)
        ensures
            gas_limit == self@.gas_limit,
    {
        self.gas_limit
    }

    /// Blocks from now until the session expires.
    pub fn delay(&self) -> (delay: u32)
        ensures
            delay == self@.delay,
    {
        self.delay
    }

    /// The expired entry that the new session overwrote, if there was one.
    pub fn replaced(&self) -> (replaced: Option<&SessionData>)
        ensures
            replaced is Some <==> self@.replaced is Some,
            replaced is Some ==> replaced.unwrap()@ == self@.replaced.unwrap(),
    {
        self.replaced.as_ref()
    }
}

/// What asking whether `account` is free to open a session comes to.
pub open spec fn existence_outcome(sessions: Sessions, account: AccountId, block_height: u32) -> Result<
    (),
    SessionError,
> {
    if has_active_session(sessions, account, block_height) {
        Err(SessionError::AlreadyHaveActiveSession)
    } else {
        Ok(())
    }
}

/// Refuses where `account` has a session that is still active at
/// `block_height`. An expired entry that was not cleaned up yet is no
/// obstacle.
pub fn check_if_session_exists(session_map: &SessionMap, account: &AccountId, block_height: u32) -> (outcome:
    Result<(), SessionError>)
    ensures
        outcome == existence_outcome(session_entries(*session_map), *account, block_height),
{
    match session_map.get(account) {
        Some(session) => {
            if session.expires_at_block > block_height {
                Err(SessionError::AlreadyHaveActiveSession)
            } else {
                Ok(())
            }
        },
        None => Ok(()),
    }
}

/// What the caller reports once it tried to deliver `event`.
pub open spec fn event_outcome(event: SessionEvent, delivered: bool) -> Result<SessionEvent, SessionError> {
    if delivered {
        Ok(event)
    } else {
        Err(SessionError::EmitEventFailed)
    }
}

/// Turns the result of delivering `event` into the operation's answer. What
/// the operation did to the sessions on file stands either way.
pub fn settle_event(event: SessionEvent, delivered: bool) -> (outcome: Result<SessionEvent, SessionError>)
    ensures
        outcome == event_outcome(event, delivered),
{
    if delivered {
        Ok(event)
    } else {
        Err(SessionError::EmitEventFailed)
    }
}

impl Storage {
    /// Whether the storage is in order: blocks have a length, and every
    /// session on file allows something.
    pub open spec fn wf(&self) -> bool {
        &&& self@.config.ms_per_block > 0
        &&& all_allow_something(self@.sessions)
    }

    /// An empty storage under `config`.
    pub fn new(config: Config) -> (storage: Self)
        requires
            config.ms_per_block > 0,
        ensures
            storage.wf(),
            storage@.config == config,
            storage@.sessions =~= Map::empty(),
    {
        Storage { sessions: SessionMap::new(), config }
    }

    /// The settings the storage was created with.
    pub fn config(&self) -> (config: Config)
        ensures
            config == self@.config,
    {
        self.config
    }

    /// The sessions on file, to look at.
    pub fn get_session_map(&self) -> (session_map: &SessionMap)
        ensures
            session_entries(*session_map) == self@.sessions,
    {
        &self.sessions
    }

    /// Looks at everything about a request but its signature: the duration,
    /// the expiry it leads to, the actions, and whether the owner still has
    /// an active session. `signed` says whether the request carries a
    /// signature, which decides who the owner is.
    ///
    /// Returns the deadlines of the session the request would open.
    pub fn check_request(
        &self,
        source: &AccountId,
        clock: &Clock,
        signature_data: &SignatureData,
        signed: bool,
    ) -> (outcome: Result<Expiry, SessionError>)
        requires
            self.wf(),
        ensures
            outcome matches Err(error) ==> request_refusal(
                self@.sessions,
                self@.config,
                *clock,
                *source,
                signature_data@,
                taken_as_valid(signed),
            ) == Some(error),
            outcome matches Ok(expiry) ==> expiry == expiry_of(
                self@.config,
                *clock,
                signature_data.duration,
            ) && request_refusal(
                self@.sessions,
                self@.config,
                *clock,
                *source,
                signature_data@,
                taken_as_valid(signed),
            ) is None,
    {
        if signature_data.duration < self.config.minimum_session_duration_ms {
            return Err(SessionError::DurationIsSmall);
        }
        let expiry = match compute_expiry(&self.config, clock, signature_data.duration) {
            Some(expiry) => expiry,
            None => {
                return Err(SessionError::DurationIsLarge);
            },
        };
        if signature_data.allowed_actions.len() == 0 {
            return Err(SessionError::ThereAreNoAllowedMessages);
        }
        let owner = if signed {
            &signature_data.key
        } else {
            source
        };
        match check_if_session_exists(&self.sessions, owner, clock.block_height) {
            Err(error) => Err(error),
            Ok(_) => Ok(expiry),
        }
    }

    /// Opens a session for a request whose signature, if it carries one, was
    /// checked by the caller: `checked` is what the check came to, and `None`
    /// for a request without a signature.
    ///
    /// The request is looked at first and `checked` last, so a request that
    /// is refused for another reason is refused for that reason whatever the
    /// check came to.
    ///
    /// On success the session is on file and the caller owes a cleanup: see
    /// [`PendingCleanup`]. On refusal nothing has changed.
    pub fn create_session_checked(
        &mut self,
        source: &AccountId,
        clock: &Clock,
        signature_data: SignatureData,
        checked: Option<Result<(), SessionError>>,
    ) -> (outcome: Result<PendingCleanup, SessionError>)
        requires
            old(self).wf(),
        ensures
            final(self).wf(),
            final(self)@.config == old(self)@.config,
            final(self)@.sessions == sessions_after_request(
                old(self)@.sessions,
                old(self)@.config,
                *clock,
                *source,
                signature_data@,
                checked,
            ),
            outcome matches Err(error) ==> request_refusal(
                old(self)@.sessions,
                old(self)@.config,
                *clock,
                *source,
                signature_data@,
                checked,
            ) == Some(error),
            outcome matches Ok(pending) ==> pending.wf() && pending@ == cleanup_pending(
                old(self)@.sessions,
                old(self)@.config,
                *clock,
                *source,
                signature_data@,
                checked is Some,
            ) && request_refusal(
                old(self)@.sessions,
                old(self)@.config,
                *clock,
                *source,
                signature_data@,
                checked,
            ) is None,
    {
        let signed = checked.is_some();
        let expiry = match self.check_request(source, clock, &signature_data, signed) {
            Ok(expiry) => expiry,
            Err(error) => {
                return Err(error);
            },
        };
        match checked {
            Some(Err(error)) => {
                return Err(error);
            },
            _ => {},
        }
        let account = if signed {
            signature_data.key
        } else {
            *source
        };
        let key = if signed {
            *source
        } else {
            signature_data.key
        };
        let session = SessionData {
            key,
            expires: expiry.expires,
            allowed_actions: signature_data.allowed_actions,
            expires_at_block: expiry.expires_at_block,
        };
        let replaced = self.sessions.insert(account, session);
        Ok(
            PendingCleanup {
                account,
                gas_limit: self.config.gas_to_delete_session,
                delay: expiry.number_of_blocks,
                replaced,
            },
        )
    }

    /// Opens a session.
    ///
    /// Without a signature, `source` is the owner and asks for
    /// `signature_data.key` to act for it. With one, `source` is the
    /// delegate and `signature_data.key` the owner, who must have signed the
    /// request as `source` would send it.
    ///
    /// The signature is checked only where nothing else stands in the way of
    /// the request.
    ///
    /// On success the session is on file and the caller owes a cleanup: see
    /// [`PendingCleanup`]. On refusal nothing has changed.
    pub fn create_session(
        &mut self,
        source: &AccountId,
        clock: &Clock,
        signature_data: SignatureData,
        signature: Option<Vec<u8>>,
    ) -> (outcome: Result<PendingCleanup, SessionError>)
        requires
            old(self).wf(),
            signature is Some ==> signature_data.allowed_actions@.len() <= MAX_SIGNED_ACTIONS,
        ensures
            final(self).wf(),
            final(self)@.config == old(self)@.config,
            final(self)@.sessions == sessions_after_create(
                old(self)@.sessions,
                old(self)@.config,
                *clock,
                *source,
                signature_data@,
                bytes_content(signature),
            ),
            outcome matches Err(error) ==> create_refusal(
                old(self)@.sessions,
                old(self)@.config,
                *clock,
                *source,
                signature_data@,
                bytes_content(signature),
            ) == Some(error),
            outcome matches Ok(pending) ==> pending.wf() && pending@ == cleanup_pending(
                old(self)@.sessions,
                old(self)@.config,
                *clock,
                *source,
                signature_data@,
                signature is Some,
            ) && create_refusal(
                old(self)@.sessions,
                old(self)@.config,
                *clock,
                *source,
                signature_data@,
                bytes_content(signature),
            ) is None,
    {
        match self.check_request(source, clock, &signature_data, signature.is_some()) {
            Err(error) => {
                return Err(error);
            },
            Ok(_) => {},
        }
        let checked = match &signature {
            Some(sig_bytes) => {
                let message = build_signing_payload(
                    source,
                    signature_data.duration,
                    &signature_data.allowed_actions,
                );
                proof {
                    lemma_signing_payload_len(
                        *source,
                        signature_data.duration,
                        signature_data.allowed_actions@,
                    );
                }
                Some(verify(sig_bytes.as_slice(), message.as_slice(), signature_data.key.as_slice()))
            },
            None => None,
        };
        self.create_session_checked(source, clock, signature_data, checked)
    }

    /// Closes a request once the caller has tried to schedule the cleanup.
    ///
    /// Where the cleanup is scheduled the grant stands. Where it is not, the
    /// grant is taken back: the entry is as it was before the request.
    pub fn settle_cleanup(&mut self, pending: PendingCleanup, scheduled: bool) -> (outcome: Result<
        SessionEvent,
        SessionError,
    >)
        requires
            old(self).wf(),
            pending.wf(),
        ensures
            final(self).wf(),
            final(self)@.config == old(self)@.config,
            outcome == cleanup_outcome(scheduled),
            final(self)@.sessions == sessions_after_settle(old(self)@.sessions, pending@, scheduled),
    {
        if scheduled {
            return Ok(SessionEvent::SessionCreated);
        }
        match pending.replaced {
            Some(session) => {
                self.sessions.insert(pending.account, session);
            },
            None => {
                self.sessions.remove(&pending.account);
            },
        }
        Err(SessionError::SendMessageFailed)
    }

    /// Cleans up `session_for_account`'s entry at the program's own request.
    ///
    /// `source` is who sent the message and `program_id` the program itself:
    /// anyone else is refused. An entry that is still active at
    /// `block_height` belongs to a later grant and stays on file. Where there
    /// is no entry there is nothing to do, which counts as done.
    pub fn delete_session_from_program(
        &mut self,
        source: &AccountId,
        program_id: &AccountId,
        block_height: u32,
        session_for_account: AccountId,
    ) -> (outcome: Result<SessionEvent, SessionError>)
        requires
            old(self).wf(),
        ensures
            final(self).wf(),
            final(self)@.config == old(self)@.config,
            outcome == program_delete_outcome(
                old(self)@.sessions,
                *source,
                *program_id,
                block_height,
                session_for_account,
            ),
            final(self)@.sessions == sessions_after_program_delete(
                old(self)@.sessions,
                *source,
                *program_id,
                block_height,
                session_for_account,
            ),
    {
        if !same_account(source, program_id) {
            return Err(SessionError::MessageOnlyForProgram);
        }
        let still_active = match self.sessions.get(&session_for_account) {
            Some(session) => session.expires_at_block > block_height,
            None => false,
        };
        if still_active {
            return Err(SessionError::TooEarlyToDeleteSession);
        }
        self.sessions.remove(&session_for_account);
        Ok(SessionEvent::SessionDeleted)
    }

    /// Cancels `source`'s own session, expired or not.
    pub fn delete_session_from_account(&mut self, source: &AccountId) -> (outcome: Result<
        SessionEvent,
        SessionError,
    >)
        requires
            old(self).wf(),
        ensures
            final(self).wf(),
            final(self)@.config == old(self)@.config,
            outcome == account_delete_outcome(old(self)@.sessions, *source),
            final(self)@.sessions == sessions_after_account_delete(old(self)@.sessions, *source),
    {
        match self.sessions.remove(source) {
            Some(_) => Ok(SessionEvent::SessionDeleted),
            None => Err(SessionError::NoSession),
        }
    }

    /// Every entry on file, each owner once, in no particular order. Expired
    /// entries that were not cleaned up yet are included.
    pub fn sessions(&self) -> (pairs: Vec<(AccountId, SessionData)>)
        ensures
            listing_matches(pairs@, self@.sessions),
    {
        self.sessions.entries()
    }

    /// The entry filed under `account`, expired or not.
    pub fn session_for_the_account(&self, account: &AccountId) -> (found: Option<SessionData>)
        ensures
            found is Some <==> self@.sessions.contains_key(*account),
            found is Some ==> found.unwrap()@ == self@.sessions[*account],
    {
        match self.sessions.get(account) {
            Some(session) => Some(session.clone()),
            None => None,
        }
    }
}

} // verus!
