//! The rules of the session lifecycle, as functions on the sessions on file.
//!
//! Every operation of the service is described here by two functions: what
//! it answers, and what is on file afterwards. The service's own contracts
//! and the laws proved of it speak through these.

use vstd::prelude::*;

use crate::expiry::{expiry_fits, expiry_of};
use crate::payload::signing_payload;
use crate::signature::verification_outcome;
use crate::types::{
    AccountId, Clock, Config, SessionError, SessionEvent, SessionView, SignatureView,
};

verus! {

/// The sessions on file, by owner.
pub type Sessions = Map<AccountId, SessionView>;

/// What checking a request's signature came to, where it carries one.
pub type Checked = Option<Result<(), SessionError>>;

/// Whether every session on file allows at least one action.
pub open spec fn all_allow_something(sessions: Sessions) -> bool {
    forall|account: AccountId| #[trigger]
        sessions.contains_key(account) ==> sessions[account].allowed_actions.len() > 0
}

/// Whether `account` has a session on file that has not expired at
/// `block_height`. A session is active up to, and not including, its expiry
/// block.
pub open spec fn has_active_session(sessions: Sessions, account: AccountId, block_height: u32) -> bool {
    sessions.contains_key(account) && sessions[account].expires_at_block > block_height
}

/// The account a request opens a session for: the sender itself, or, where
/// the request carries a signature, the account named in it.
pub open spec fn session_owner(source: AccountId, request: SignatureView, signed: bool) -> AccountId {
    if signed {
        request.key
    } else {
        source
    }
}

/// The account that will act for the owner: the account named in the
/// request, or, where the request carries a signature, the sender.
pub open spec fn session_delegate(source: AccountId, request: SignatureView, signed: bool) -> AccountId {
    if signed {
        source
    } else {
        request.key
    }
}

/// The session that a request accepted at `clock` puts on file.
pub open spec fn session_granted(
    config: Config,
    clock: Clock,
    source: AccountId,
    request: SignatureView,
    signed: bool,
) -> SessionView {
    SessionView {
        key: session_delegate(source, request, signed),
        expires: expiry_of(config, clock, request.duration).expires,
        allowed_actions: request.allowed_actions,
        expires_at_block: expiry_of(config, clock, request.duration).expires_at_block,
    }
}

/// Why a request is refused, or `None` where it is accepted. The checks are
/// made in this order and the first that fails decides: the duration against
/// the minimum, the expiry against what can be represented, the actions, the
/// owner's session on file, and last what the signature check came to.
pub open spec fn request_refusal(
    sessions: Sessions,
    config: Config,
    clock: Clock,
    source: AccountId,
    request: SignatureView,
    checked: Checked,
) -> Option<SessionError> {
    if request.duration < config.minimum_session_duration_ms {
        Some(SessionError::DurationIsSmall)
    } else if !expiry_fits(config, clock, request.duration) {
        Some(SessionError::DurationIsLarge)
    } else if request.allowed_actions.len() == 0 {
        Some(SessionError::ThereAreNoAllowedMessages)
    } else if has_active_session(
        sessions,
        session_owner(source, request, checked is Some),
        clock.block_height,
    ) {
        Some(SessionError::AlreadyHaveActiveSession)
    } else {
        match checked {
            Some(Err(error)) => Some(error),
            _ => None,
        }
    }
}

/// What a signature check is taken to have come to while only the rest of a
/// request is looked at: that it passed, where the request carries one.
pub open spec fn taken_as_valid(signed: bool) -> Checked {
    if signed {
        Some(Ok(()))
    } else {
        None
    }
}

/// The sessions on file after a request: the granted session filed under the
/// owner in place of whatever was there, or, where the request is refused,
/// nothing changed.
pub open spec fn sessions_after_request(
    sessions: Sessions,
    config: Config,
    clock: Clock,
    source: AccountId,
    request: SignatureView,
    checked: Checked,
) -> Sessions {
    if request_refusal(sessions, config, clock, source, request, checked) is None {
        sessions.insert(
            session_owner(source, request, checked is Some),
            session_granted(config, clock, source, request, checked is Some),
        )
    } else {
        sessions
    }
}

/// What checking the signature of a request comes to: the owner named in the
/// request must have signed the payload built for the sender. `None` where
/// the request carries no signature.
pub open spec fn signature_check(
    source: AccountId,
    request: SignatureView,
    signature: Option<Seq<u8>>,
) -> Checked {
    match signature {
        Some(bytes) => Some(
            verification_outcome(
                bytes,
                signing_payload(source, request.duration, request.allowed_actions),
                request.key@,
            ),
        ),
        None => None,
    }
}

/// Why a request that comes with `signature` is refused, or `None` where it
/// is accepted.
pub open spec fn create_refusal(
    sessions: Sessions,
    config: Config,
    clock: Clock,
    source: AccountId,
    request: SignatureView,
    signature: Option<Seq<u8>>,
) -> Option<SessionError> {
    request_refusal(
        sessions,
        config,
        clock,
        source,
        request,
        signature_check(source, request, signature),
    )
}

/// The sessions on file after a request that comes with `signature`.
pub open spec fn sessions_after_create(
    sessions: Sessions,
    config: Config,
    clock: Clock,
    source: AccountId,
    request: SignatureView,
    signature: Option<Seq<u8>>,
) -> Sessions {
    sessions_after_request(
        sessions,
        config,
        clock,
        source,
        request,
        signature_check(source, request, signature),
    )
}

/// The mathematical content of a [`crate::service::PendingCleanup`].
pub struct PendingView {
    pub account: AccountId,
    pub gas_limit: u64,
    pub delay: u32,
    pub replaced: Option<SessionView>,
}

/// What is left to do once a request is accepted: a cleanup of the owner's
/// entry is to be scheduled `delay` blocks ahead, which is the session's
/// expiry block, with the configured gas. `replaced` is what the grant
/// overwrote.
pub open spec fn cleanup_pending(
    sessions: Sessions,
    config: Config,
    clock: Clock,
    source: AccountId,
    request: SignatureView,
    signed: bool,
) -> PendingView {
    let owner = session_owner(source, request, signed);
    PendingView {
        account: owner,
        gas_limit: config.gas_to_delete_session,
        delay: expiry_of(config, clock, request.duration).number_of_blocks,
        replaced: if sessions.contains_key(owner) {
            Some(sessions[owner])
        } else {
            None
        },
    }
}

/// The sessions on file once a grant is taken back: what the grant replaced
/// is filed under `account` again, or nothing is where it replaced nothing.
pub open spec fn sessions_after_rollback(
    sessions: Sessions,
    account: AccountId,
    replaced: Option<SessionView>,
) -> Sessions {
    match replaced {
        Some(session) => sessions.insert(account, session),
        None => sessions.remove(account),
    }
}

/// What a request comes to once the caller has tried to schedule the
/// cleanup.
pub open spec fn cleanup_outcome(scheduled: bool) -> Result<SessionEvent, SessionError> {
    if scheduled {
        Ok(SessionEvent::SessionCreated)
    } else {
        Err(SessionError::SendMessageFailed)
    }
}

/// The sessions on file once the caller has tried to schedule the cleanup:
/// the grant stands where it is scheduled and is taken back where not.
pub open spec fn sessions_after_settle(sessions: Sessions, pending: PendingView, scheduled: bool) -> Sessions {
    if scheduled {
        sessions
    } else {
        sessions_after_rollback(sessions, pending.account, pending.replaced)
    }
}

/// The answer of a deletion that went through.
pub open spec fn deleted() -> Result<SessionEvent, SessionError> {
    Ok(SessionEvent::SessionDeleted)
}

/// The answer of an operation that was refused with `error`.
pub open spec fn refused(error: SessionError) -> Result<SessionEvent, SessionError> {
    Err(error)
}

/// What the program's own cleanup of `account` answers: only the program may
/// ask, and a session that is still active stays.
pub open spec fn program_delete_outcome(
    sessions: Sessions,
    source: AccountId,
    program_id: AccountId,
    block_height: u32,
    account: AccountId,
) -> Result<SessionEvent, SessionError> {
    if source != program_id {
        Err(SessionError::MessageOnlyForProgram)
    } else if has_active_session(sessions, account, block_height) {
        Err(SessionError::TooEarlyToDeleteSession)
    } else {
        Ok(SessionEvent::SessionDeleted)
    }
}

/// The sessions on file after the program's own cleanup of `account`.
pub open spec fn sessions_after_program_delete(
    sessions: Sessions,
    source: AccountId,
    program_id: AccountId,
    block_height: u32,
    account: AccountId,
) -> Sessions {
    if program_delete_outcome(sessions, source, program_id, block_height, account) is Ok {
        sessions.remove(account)
    } else {
        sessions
    }
}

/// What an owner's cancellation answers: it succeeds whenever there is a
/// session to cancel, expired or not.
pub open spec fn account_delete_outcome(sessions: Sessions, source: AccountId) -> Result<
    SessionEvent,
    SessionError,
> {
    if sessions.contains_key(source) {
        Ok(SessionEvent::SessionDeleted)
    } else {
        Err(SessionError::NoSession)
    }
}

/// The sessions on file after an owner's cancellation.
pub open spec fn sessions_after_account_delete(sessions: Sessions, source: AccountId) -> Sessions {
    sessions.remove(source)
}

/// One thing that happens to the sessions on file.
pub enum Step {
    /// A request, with what its signature check came to and whether its
    /// cleanup could be scheduled.
    Request {
        clock: Clock,
        source: AccountId,
        request: SignatureView,
        checked: Checked,
        scheduled: bool,
    },
    /// A cleanup of `account` asked for by `source`.
    ProgramDelete { source: AccountId, program_id: AccountId, block_height: u32, account: AccountId },
    /// A cancellation by `source`.
    AccountDelete { source: AccountId },
}

/// The sessions on file after `step`. A request that is accepted is followed
/// by the attempt to schedule its cleanup.
pub open spec fn sessions_after_step(sessions: Sessions, config: Config, step: Step) -> Sessions {
    match step {
        Step::Request { clock, source, request, checked, scheduled } => {
            if request_refusal(sessions, config, clock, source, request, checked) is None {
                sessions_after_settle(
                    sessions_after_request(sessions, config, clock, source, request, checked),
                    cleanup_pending(sessions, config, clock, source, request, checked is Some),
                    scheduled,
                )
            } else {
                sessions
            }
        },
        Step::ProgramDelete { source, program_id, block_height, account } => {
            sessions_after_program_delete(sessions, source, program_id, block_height, account)
        },
        Step::AccountDelete { source } => sessions_after_account_delete(sessions, source),
    }
}

/// The sessions on file after `steps`, one after the other, starting with
/// none on file.
pub open spec fn sessions_after_steps(config: Config, steps: Seq<Step>) -> Sessions
    decreases steps.len(),
{
    if steps.len() == 0 {
        Map::empty()
    } else {
        sessions_after_step(sessions_after_steps(config, steps.drop_last()), config, steps.last())
    }
}

} // verus!
