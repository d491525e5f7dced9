//! What holds of the session lifecycle whatever the requests are.
//!
//! Each law is stated over the functions of [`crate::rules`], through which
//! the service's operations say what they answer and what they leave on
//! file. A law about requests is stated for whatever the signature check
//! came to, and so holds of a request that comes with a signature as well:
//! `create_refusal` and `sessions_after_create` are `request_refusal` and
//! `sessions_after_request` of what `signature_check` gives.

use vstd::prelude::*;

use crate::expiry::{blocks_for, expiry_fits, lemma_blocks_for_is_least};
use crate::payload::signing_payload;
use crate::rules::{
    account_delete_outcome, all_allow_something, cleanup_pending, create_refusal, deleted,
    has_active_session, program_delete_outcome, refused, request_refusal, session_granted,
    session_owner, sessions_after_account_delete, sessions_after_create,
    sessions_after_program_delete, sessions_after_request, sessions_after_settle,
    sessions_after_steps, signature_check, Checked, Sessions, Step,
};
use crate::signature::{
    public_key_decodes, signature_decodes, signature_matches, signing_context,
};
use crate::store::listing_matches;
use crate::types::{AccountId, Clock, Config, SessionData, SessionError, SignatureView};

verus! {

/// A listing of the sessions on file names no owner twice: two places that
/// name the same owner are the same place, and what is listed there is what
/// is on file for that owner.
pub proof fn lemma_one_entry_per_owner(
    pairs: Seq<(AccountId, SessionData)>,
    sessions: Sessions,
    i: int,
    j: int,
)
    requires
        listing_matches(pairs, sessions),
        0 <= i < pairs.len(),
        0 <= j < pairs.len(),
        pairs[i].0 == pairs[j].0,
    ensures
        i == j,
        sessions.contains_key(pairs[i].0),
        pairs[i].1@ == sessions[pairs[i].0],
{
    if i < j {
        assert(pairs[i].0 != pairs[j].0);
    } else if j < i {
        assert(pairs[j].0 != pairs[i].0);
    }
}

/// A request touches no entry but the owner's: whatever is filed under any
/// other account is there afterwards, unchanged, and nothing is filed where
/// nothing was.
pub proof fn lemma_request_touches_only_the_owner(
    sessions: Sessions,
    config: Config,
    clock: Clock,
    source: AccountId,
    request: SignatureView,
    checked: Checked,
    other: AccountId,
)
    requires
        other != session_owner(source, request, checked is Some),
    ensures
        sessions_after_request(sessions, config, clock, source, request, checked).contains_key(other)
            == sessions.contains_key(other),
        sessions_after_request(sessions, config, clock, source, request, checked)[other]
            == sessions[other],
{
}

/// Cleaning up or cancelling one account's session touches no other entry.
pub proof fn lemma_delete_touches_only_the_account(
    sessions: Sessions,
    source: AccountId,
    program_id: AccountId,
    block_height: u32,
    account: AccountId,
    other: AccountId,
)
    requires
        other != account,
    ensures
        sessions_after_program_delete(sessions, source, program_id, block_height, account).contains_key(
            other,
        ) == sessions.contains_key(other),
        sessions_after_program_delete(sessions, source, program_id, block_height, account)[other]
            == sessions[other],
        sessions_after_account_delete(sessions, account).contains_key(other)
            == sessions.contains_key(other),
        sessions_after_account_delete(sessions, account)[other] == sessions[other],
{
}

/// Sessions come on file by requests only, and whole: after a cleanup or a
/// cancellation every entry on file was on file before, unchanged, and after
/// a request every entry is either as it was or the session just granted.
pub proof fn lemma_entries_change_whole_or_not_at_all(
    sessions: Sessions,
    config: Config,
    clock: Clock,
    source: AccountId,
    program_id: AccountId,
    request: SignatureView,
    checked: Checked,
    account: AccountId,
    any: AccountId,
)
    ensures
        sessions_after_program_delete(sessions, source, program_id, clock.block_height, account).contains_key(
            any,
        ) ==> sessions.contains_key(any) && sessions_after_program_delete(
            sessions,
            source,
            program_id,
            clock.block_height,
            account,
        )[any] == sessions[any],
        sessions_after_account_delete(sessions, account).contains_key(any) ==> sessions.contains_key(
            any,
        ) && sessions_after_account_delete(sessions, account)[any] == sessions[any],
        sessions_after_request(sessions, config, clock, source, request, checked).contains_key(any)
            ==> (sessions.contains_key(any) && sessions_after_request(
            sessions,
            config,
            clock,
            source,
            request,
            checked,
        )[any] == sessions[any]) || sessions_after_request(
            sessions,
            config,
            clock,
            source,
            request,
            checked,
        )[any] == session_granted(config, clock, source, request, checked is Some),
{
}

/// No operation files a session that allows nothing: if every session on
/// file allows something before a request, a cleanup or a cancellation, the
/// same holds after it.
pub proof fn lemma_sessions_always_allow_something(
    sessions: Sessions,
    config: Config,
    clock: Clock,
    source: AccountId,
    program_id: AccountId,
    request: SignatureView,
    checked: Checked,
    account: AccountId,
)
    requires
        all_allow_something(sessions),
    ensures
        all_allow_something(sessions_after_request(sessions, config, clock, source, request, checked)),
        all_allow_something(
            sessions_after_program_delete(sessions, source, program_id, clock.block_height, account),
        ),
        all_allow_something(sessions_after_account_delete(sessions, account)),
{
}

/// Taking a grant back files nothing that allows nothing either: what is
/// put back was on file before the grant.
pub proof fn lemma_rollback_keeps_sessions_allowing_something(
    sessions: Sessions,
    config: Config,
    clock: Clock,
    source: AccountId,
    request: SignatureView,
    checked: Checked,
    scheduled: bool,
)
    requires
        all_allow_something(sessions),
    ensures
        all_allow_something(
            sessions_after_settle(
                sessions_after_request(sessions, config, clock, source, request, checked),
                cleanup_pending(sessions, config, clock, source, request, checked is Some),
                scheduled,
            ),
        ),
{
}

/// An owner with a session that is still active gets no second one: the
/// request is refused, whatever else is right or wrong with it, and the
/// sessions on file stay as they are.
pub proof fn lemma_active_session_is_never_replaced(
    sessions: Sessions,
    config: Config,
    clock: Clock,
    source: AccountId,
    request: SignatureView,
    checked: Checked,
)
    requires
        has_active_session(
            sessions,
            session_owner(source, request, checked is Some),
            clock.block_height,
        ),
    ensures
        request_refusal(sessions, config, clock, source, request, checked) is Some,
        sessions_after_request(sessions, config, clock, source, request, checked) == sessions,
{
}

/// A request that is in order as to duration and actions, made for an owner
/// whose session is still active, is refused for that reason, with or
/// without a signature and whatever the signature is.
pub proof fn lemma_active_session_blocks_creation(
    sessions: Sessions,
    config: Config,
    clock: Clock,
    source: AccountId,
    request: SignatureView,
    checked: Checked,
)
    requires
        has_active_session(
            sessions,
            session_owner(source, request, checked is Some),
            clock.block_height,
        ),
        request.duration >= config.minimum_session_duration_ms,
        expiry_fits(config, clock, request.duration),
        request.allowed_actions.len() > 0,
    ensures
        request_refusal(sessions, config, clock, source, request, checked) == Some(
            SessionError::AlreadyHaveActiveSession,
        ),
        sessions_after_request(sessions, config, clock, source, request, checked) == sessions,
{
}

/// An expired entry that was not cleaned up yet does not stand in the way:
/// a request in order as to duration and actions, and sent by the owner
/// itself, is accepted and takes the entry's place.
pub proof fn lemma_expired_entry_is_overwritten(
    sessions: Sessions,
    config: Config,
    clock: Clock,
    source: AccountId,
    request: SignatureView,
)
    requires
        sessions.contains_key(source),
        sessions[source].expires_at_block <= clock.block_height,
        request.duration >= config.minimum_session_duration_ms,
        expiry_fits(config, clock, request.duration),
        request.allowed_actions.len() > 0,
    ensures
        request_refusal(sessions, config, clock, source, request, None) is None,
        sessions_after_request(sessions, config, clock, source, request, None)[source]
            == session_granted(config, clock, source, request, false),
{
}

/// An accepted request files a session that expires at the current block
/// plus the duration in blocks, rounded up, and at the current time plus the
/// duration. It is filed under the owner, for the delegate, with the
/// actions asked for, and the cleanup is due when it expires.
pub proof fn lemma_accepted_session_expiry(
    sessions: Sessions,
    config: Config,
    clock: Clock,
    source: AccountId,
    request: SignatureView,
    checked: Checked,
)
    requires
        config.ms_per_block > 0,
        request_refusal(sessions, config, clock, source, request, checked) is None,
    ensures
        ({
            let owner = session_owner(source, request, checked is Some);
            let after = sessions_after_request(sessions, config, clock, source, request, checked);
            &&& after.contains_key(owner)
            &&& after[owner].expires_at_block == clock.block_height + blocks_for(
                request.duration,
                config.ms_per_block,
            )
            &&& after[owner].expires == clock.block_timestamp + request.duration
            &&& after[owner].allowed_actions == request.allowed_actions
            &&& after[owner].key == (if checked is Some {
                source
            } else {
                request.key
            })
            &&& has_active_session(after, owner, clock.block_height) <==> request.duration > 0
        }),
        cleanup_pending(sessions, config, clock, source, request, checked is Some).delay
            == blocks_for(request.duration, config.ms_per_block),
{
    lemma_blocks_for_is_least(request.duration, config.ms_per_block);
    let blocks = blocks_for(request.duration, config.ms_per_block);
    if request.duration > 0 && blocks <= 0 {
        assert(blocks * config.ms_per_block <= 0) by (nonlinear_arith)
            requires
                blocks <= 0,
                config.ms_per_block > 0,
        ;
    }
}

/// A duration of at least the minimum that takes more blocks than the block
/// counter can count is refused as too large, and nothing changes.
pub proof fn lemma_oversized_duration_is_refused(
    sessions: Sessions,
    config: Config,
    clock: Clock,
    source: AccountId,
    request: SignatureView,
    checked: Checked,
)
    requires
        request.duration >= config.minimum_session_duration_ms,
        blocks_for(request.duration, config.ms_per_block) > u32::MAX,
    ensures
        request_refusal(sessions, config, clock, source, request, checked) == Some(
            SessionError::DurationIsLarge,
        ),
        sessions_after_request(sessions, config, clock, source, request, checked) == sessions,
{
}

/// A request that allows no action is refused, and where its duration is in
/// order it is refused for that reason, whoever sends it, signed or not,
/// and whatever is on file.
pub proof fn lemma_empty_actions_are_refused(
    sessions: Sessions,
    config: Config,
    clock: Clock,
    source: AccountId,
    request: SignatureView,
    checked: Checked,
)
    requires
        request.allowed_actions.len() == 0,
    ensures
        request_refusal(sessions, config, clock, source, request, checked) is Some,
        sessions_after_request(sessions, config, clock, source, request, checked) == sessions,
        request.duration >= config.minimum_session_duration_ms && expiry_fits(
            config,
            clock,
            request.duration,
        ) ==> request_refusal(sessions, config, clock, source, request, checked) == Some(
            SessionError::ThereAreNoAllowedMessages,
        ),
{
}

/// A request whose signature check failed is refused and changes nothing,
/// and where nothing else is wrong with it, it is refused with the error of
/// the check.
pub proof fn lemma_failed_check_is_refused(
    sessions: Sessions,
    config: Config,
    clock: Clock,
    source: AccountId,
    request: SignatureView,
    error: SessionError,
)
    ensures
        request_refusal(sessions, config, clock, source, request, Some(Err(error))) is Some,
        sessions_after_request(sessions, config, clock, source, request, Some(Err(error)))
            == sessions,
        request.duration >= config.minimum_session_duration_ms && expiry_fits(
            config,
            clock,
            request.duration,
        ) && request.allowed_actions.len() > 0 && !has_active_session(
            sessions,
            request.key,
            clock.block_height,
        ) ==> request_refusal(sessions, config, clock, source, request, Some(Err(error))) == Some(
            error,
        ),
{
}

/// A request that comes with a signature is accepted only where the bytes
/// decode to a signature, the owner's account decodes to a public key, and
/// the signature matches the payload built for the sender. Where it is
/// accepted, the session is filed under the account named in the request
/// and the sender is its delegate.
pub proof fn lemma_signed_request_needs_matching_signature(
    sessions: Sessions,
    config: Config,
    clock: Clock,
    source: AccountId,
    request: SignatureView,
    signature: Seq<u8>,
)
    requires
        create_refusal(sessions, config, clock, source, request, Some(signature)) is None,
    ensures
        signature_decodes(signature),
        public_key_decodes(request.key@),
        signature_matches(
            request.key@,
            signing_context(),
            signing_payload(source, request.duration, request.allowed_actions),
            signature,
        ),
        sessions_after_create(sessions, config, clock, source, request, Some(signature))[request.key].key
            == source,
{
}

/// A request that comes with a signature and is in order in every other
/// respect is accepted exactly where the signature verifies, and refused
/// with the verifier's error, nothing changed, where it does not.
pub proof fn lemma_signed_request_follows_verification(
    sessions: Sessions,
    config: Config,
    clock: Clock,
    source: AccountId,
    request: SignatureView,
    signature: Seq<u8>,
)
    requires
        request.duration >= config.minimum_session_duration_ms,
        expiry_fits(config, clock, request.duration),
        request.allowed_actions.len() > 0,
        !has_active_session(sessions, request.key, clock.block_height),
    ensures
        ({
            let checked = signature_check(source, request, Some(signature));
            let refusal = create_refusal(sessions, config, clock, source, request, Some(signature));
            let after = sessions_after_create(
                sessions,
                config,
                clock,
                source,
                request,
                Some(signature),
            );
            &&& checked is Some
            &&& checked.unwrap() is Ok <==> refusal is None
            &&& checked.unwrap() matches Err(error) ==> refusal == Some(error) && after == sessions
        }),
{
}

/// Where the cleanup cannot be scheduled, taking the grant back leaves the
/// sessions on file exactly as they were before the request. Where it is
/// scheduled, the grant stands.
pub proof fn lemma_failed_scheduling_restores(
    sessions: Sessions,
    config: Config,
    clock: Clock,
    source: AccountId,
    request: SignatureView,
    checked: Checked,
)
    requires
        request_refusal(sessions, config, clock, source, request, checked) is None,
    ensures
        sessions_after_settle(
            sessions_after_request(sessions, config, clock, source, request, checked),
            cleanup_pending(sessions, config, clock, source, request, checked is Some),
            false,
        ) == sessions,
        sessions_after_settle(
            sessions_after_request(sessions, config, clock, source, request, checked),
            cleanup_pending(sessions, config, clock, source, request, checked is Some),
            true,
        ) == sessions_after_request(sessions, config, clock, source, request, checked),
{
    let after = sessions_after_request(sessions, config, clock, source, request, checked);
    let pending = cleanup_pending(sessions, config, clock, source, request, checked is Some);
    assert(sessions_after_settle(after, pending, false) =~= sessions);
}

/// A cleanup that arrives while the owner's entry is still active, because
/// the entry belongs to a later grant, is refused and removes nothing. The
/// program's cleanup at or after that entry's own expiry block succeeds and
/// removes it.
pub proof fn lemma_stale_cleanup_spares_newer_session(
    sessions: Sessions,
    program_id: AccountId,
    owner: AccountId,
    early: u32,
    late: u32,
)
    requires
        sessions.contains_key(owner),
        early < sessions[owner].expires_at_block <= late,
    ensures
        program_delete_outcome(sessions, program_id, program_id, early, owner) == refused(
            SessionError::TooEarlyToDeleteSession,
        ),
        sessions_after_program_delete(sessions, program_id, program_id, early, owner) == sessions,
        program_delete_outcome(
            sessions_after_program_delete(sessions, program_id, program_id, early, owner),
            program_id,
            program_id,
            late,
            owner,
        ) == deleted(),
        !sessions_after_program_delete(
            sessions_after_program_delete(sessions, program_id, program_id, early, owner),
            program_id,
            program_id,
            late,
            owner,
        ).contains_key(owner),
{
}

/// Cleaning up an account that has no entry succeeds and changes nothing, so
/// a cleanup may safely arrive twice, or after the owner cancelled.
pub proof fn lemma_cleanup_of_absent_entry_is_noop(
    sessions: Sessions,
    program_id: AccountId,
    owner: AccountId,
    block_height: u32,
)
    requires
        !sessions.contains_key(owner),
    ensures
        program_delete_outcome(sessions, program_id, program_id, block_height, owner) == deleted(),
        sessions_after_program_delete(sessions, program_id, program_id, block_height, owner)
            == sessions,
{
    assert(sessions.remove(owner) =~= sessions);
}

/// Nobody but the program itself can trigger the cleanup.
pub proof fn lemma_cleanup_is_for_the_program_only(
    sessions: Sessions,
    source: AccountId,
    program_id: AccountId,
    owner: AccountId,
    block_height: u32,
)
    requires
        source != program_id,
    ensures
        program_delete_outcome(sessions, source, program_id, block_height, owner) == refused(
            SessionError::MessageOnlyForProgram,
        ),
        sessions_after_program_delete(sessions, source, program_id, block_height, owner)
            == sessions,
{
}

/// An owner can cancel its session at any time, expired or not, and has
/// none afterwards.
pub proof fn lemma_cancellation_is_unconditional(sessions: Sessions, owner: AccountId)
    requires
        sessions.contains_key(owner),
    ensures
        account_delete_outcome(sessions, owner) == deleted(),
        !sessions_after_account_delete(sessions, owner).contains_key(owner),
{
}

/// Whatever happens, in whatever order, starting with nothing on file: the
/// sessions on file are finitely many, one per owner at most since they are
/// the entries of a map, and each allows something.
pub proof fn lemma_sessions_stay_in_order(config: Config, steps: Seq<Step>)
    ensures
        sessions_after_steps(config, steps).dom().finite(),
        all_allow_something(sessions_after_steps(config, steps)),
    decreases steps.len(),
{
    if steps.len() > 0 {
        lemma_sessions_stay_in_order(config, steps.drop_last());
    }
}

} // verus!
