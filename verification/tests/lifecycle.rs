use session_service::actions::ActionsForSession;
use session_service::service::{check_if_session_exists, settle_event, PendingCleanup, Storage};
use session_service::types::{
    Clock, Config, SessionData, SessionError, SessionEvent, SignatureData,
};

fn config() -> Config {
    Config {
        gas_to_delete_session: 10_000_000_000,
        minimum_session_duration_ms: 180_000,
        ms_per_block: 3_000,
    }
}

fn account(n: u8) -> [u8; 32] {
    let mut id = [0u8; 32];
    id[0] = n;
    id
}

fn alice() -> [u8; 32] {
    account(42)
}

fn program() -> [u8; 32] {
    account(200)
}

fn at(block_height: u32) -> Clock {
    Clock { block_timestamp: 1_700_000_000_000 + 3_000 * block_height as u64, block_height }
}

fn start_and_move() -> Vec<u8> {
    ActionsForSession::tags(&vec![ActionsForSession::StartGame, ActionsForSession::Move])
}

fn request(key: [u8; 32], duration: u64, allowed_actions: Vec<u8>) -> SignatureData {
    SignatureData { key, duration, allowed_actions }
}

/// Runs a whole request: the decision, a scheduler that works, an event that
/// is delivered.
fn create(
    storage: &mut Storage,
    source: &[u8; 32],
    clock: &Clock,
    data: SignatureData,
) -> Result<SessionEvent, SessionError> {
    let pending = storage.create_session(source, clock, data, None)?;
    let event = storage.settle_cleanup(pending, true)?;
    settle_event(event, true)
}

#[test]
fn owner_opens_a_session_for_a_delegate() {
    let mut storage = Storage::new(config());
    let key = account(10);

    let pending = storage
        .create_session(&alice(), &at(0), request(key, 180_000, start_and_move()), None)
        .unwrap();
    assert_eq!(pending.account(), alice());
    assert_eq!(pending.gas_limit(), 10_000_000_000);
    assert_eq!(pending.delay(), 60);
    assert!(pending.replaced().is_none());
    assert_eq!(storage.settle_cleanup(pending, true), Ok(SessionEvent::SessionCreated));
    assert_eq!(
        settle_event(SessionEvent::SessionCreated, true),
        Ok(SessionEvent::SessionCreated)
    );

    let result = storage.session_for_the_account(&alice());
    assert!(result.is_some());
    assert_eq!(
        result.unwrap(),
        SessionData {
            key,
            expires: 1_700_000_180_000,
            allowed_actions: vec![0, 1],
            expires_at_block: 60,
        }
    );
}

#[test]
fn create_session_failures() {
    let mut storage = Storage::new(config());
    let key = account(10);

    // duration is less than minimum session duration
    let result = create(&mut storage, &alice(), &at(0), request(key, 179_000, start_and_move()));
    assert_eq!(result, Err(SessionError::DurationIsSmall));

    // duration is too long: 2^32 blocks
    let result =
        create(&mut storage, &alice(), &at(0), request(key, 12884901888000, start_and_move()));
    assert_eq!(result, Err(SessionError::DurationIsLarge));

    // there are no allowed actions
    let result = create(&mut storage, &alice(), &at(0), request(key, 180_000, vec![]));
    assert_eq!(result, Err(SessionError::ThereAreNoAllowedMessages));

    assert!(storage.sessions().is_empty());

    // the session already exists
    let result = create(&mut storage, &alice(), &at(0), request(key, 180_000, start_and_move()));
    assert_eq!(result, Ok(SessionEvent::SessionCreated));

    let result = create(&mut storage, &alice(), &at(0), request(key, 180_000, start_and_move()));
    assert_eq!(result, Err(SessionError::AlreadyHaveActiveSession));
}

#[test]
fn delete_session_from_account_works() {
    let mut storage = Storage::new(config());
    let key = account(10);

    let result = create(&mut storage, &alice(), &at(0), request(key, 180_000, start_and_move()));
    assert_eq!(result, Ok(SessionEvent::SessionCreated));

    let event = storage.delete_session_from_account(&alice()).unwrap();
    assert_eq!(settle_event(event, true), Ok(SessionEvent::SessionDeleted));

    let result = storage.session_for_the_account(&alice());
    assert!(result.is_none());
}

#[test]
fn minimum_duration_is_accepted_and_lasts_sixty_blocks() {
    let mut storage = Storage::new(config());
    let clock = at(1_000);

    let result = create(&mut storage, &alice(), &clock, request(account(10), 179_000, vec![0]));
    assert_eq!(result, Err(SessionError::DurationIsSmall));
    assert!(storage.session_for_the_account(&alice()).is_none());

    let result = create(&mut storage, &alice(), &clock, request(account(10), 180_000, vec![0]));
    assert_eq!(result, Ok(SessionEvent::SessionCreated));
    let session = storage.session_for_the_account(&alice()).unwrap();
    assert_eq!(session.expires_at_block, 1_060);
    assert_eq!(session.expires, clock.block_timestamp + 180_000);
}

#[test]
fn empty_actions_are_refused_whatever_else_holds() {
    let mut storage = Storage::new(config());
    for duration in [180_000u64, 180_001, 3_600_000, 12_884_901_885_000] {
        let result = create(&mut storage, &alice(), &at(0), request(account(10), duration, vec![]));
        assert_eq!(result, Err(SessionError::ThereAreNoAllowedMessages));
    }
    // signed, and with a signature that is no signature at all
    let result =
        storage.create_session(&alice(), &at(0), request(account(10), 180_000, vec![]), Some(vec![]));
    assert_eq!(result.unwrap_err(), SessionError::ThereAreNoAllowedMessages);
    // the duration is looked at first
    let result = create(&mut storage, &alice(), &at(0), request(account(10), 179_999, vec![]));
    assert_eq!(result, Err(SessionError::DurationIsSmall));
    assert!(storage.sessions().is_empty());
}

#[test]
fn active_session_blocks_a_second_one() {
    let mut storage = Storage::new(config());
    let first = request(account(10), 180_000, vec![0]);
    assert_eq!(create(&mut storage, &alice(), &at(0), first), Ok(SessionEvent::SessionCreated));
    let on_file = storage.session_for_the_account(&alice()).unwrap();
    assert_eq!(on_file.expires_at_block, 60);

    let second = request(account(11), 360_000, vec![1, 2]);
    assert_eq!(
        create(&mut storage, &alice(), &at(10), second),
        Err(SessionError::AlreadyHaveActiveSession)
    );
    assert_eq!(storage.session_for_the_account(&alice()).unwrap(), on_file);

    // still active in the last block before expiry
    let third = request(account(11), 360_000, vec![1, 2]);
    assert_eq!(
        create(&mut storage, &alice(), &at(59), third),
        Err(SessionError::AlreadyHaveActiveSession)
    );
    assert_eq!(storage.session_for_the_account(&alice()).unwrap(), on_file);
}

#[test]
fn expired_entry_is_overwritten_whole() {
    let mut storage = Storage::new(config());
    let first = request(account(10), 180_000, vec![0, 0, 1]);
    assert_eq!(create(&mut storage, &alice(), &at(0), first), Ok(SessionEvent::SessionCreated));

    // at the expiry block the entry no longer counts, cleaned up or not
    let second = request(account(11), 183_000, vec![2]);
    let pending = storage.create_session(&alice(), &at(60), second, None).unwrap();
    assert_eq!(pending.delay(), 61);
    assert_eq!(
        pending.replaced(),
        Some(&SessionData {
            key: account(10),
            expires: 1_700_000_180_000,
            allowed_actions: vec![0, 0, 1],
            expires_at_block: 60,
        })
    );
    assert_eq!(storage.settle_cleanup(pending, true), Ok(SessionEvent::SessionCreated));
    assert_eq!(
        storage.session_for_the_account(&alice()).unwrap(),
        SessionData {
            key: account(11),
            expires: 1_700_000_180_000 + 183_000,
            allowed_actions: vec![2],
            expires_at_block: 121,
        }
    );
    assert_eq!(storage.sessions().len(), 1);
}

#[test]
fn cleanup_at_expiry_removes_and_repeats_as_noop() {
    let mut storage = Storage::new(config());
    let data = request(account(10), 180_000, vec![0]);
    assert_eq!(create(&mut storage, &alice(), &at(0), data), Ok(SessionEvent::SessionCreated));

    let outcome = storage.delete_session_from_program(&program(), &program(), 60, alice());
    assert_eq!(outcome, Ok(SessionEvent::SessionDeleted));
    assert!(storage.session_for_the_account(&alice()).is_none());

    let outcome = storage.delete_session_from_program(&program(), &program(), 60, alice());
    assert_eq!(outcome, Ok(SessionEvent::SessionDeleted));
    assert!(storage.sessions().is_empty());
}

#[test]
fn stale_cleanup_spares_the_newer_session() {
    let mut storage = Storage::new(config());
    let first = request(account(10), 180_000, vec![0]);
    assert_eq!(create(&mut storage, &alice(), &at(0), first), Ok(SessionEvent::SessionCreated));
    // the owner cancels and opens a new session before the first cleanup fires
    assert_eq!(storage.delete_session_from_account(&alice()), Ok(SessionEvent::SessionDeleted));
    let second = request(account(11), 180_000, vec![1]);
    assert_eq!(create(&mut storage, &alice(), &at(30), second), Ok(SessionEvent::SessionCreated));
    let newer = storage.session_for_the_account(&alice()).unwrap();
    assert_eq!(newer.expires_at_block, 90);

    // the cleanup of the first session arrives
    let outcome = storage.delete_session_from_program(&program(), &program(), 60, alice());
    assert_eq!(outcome, Err(SessionError::TooEarlyToDeleteSession));
    assert_eq!(storage.session_for_the_account(&alice()).unwrap(), newer);
    let outcome = storage.delete_session_from_program(&program(), &program(), 89, alice());
    assert_eq!(outcome, Err(SessionError::TooEarlyToDeleteSession));
    assert_eq!(storage.session_for_the_account(&alice()).unwrap(), newer);

    // the cleanup of the second session arrives
    let outcome = storage.delete_session_from_program(&program(), &program(), 90, alice());
    assert_eq!(outcome, Ok(SessionEvent::SessionDeleted));
    assert!(storage.session_for_the_account(&alice()).is_none());
}

#[test]
fn cleanup_is_for_the_program_only() {
    let mut storage = Storage::new(config());
    let data = request(account(10), 180_000, vec![0]);
    assert_eq!(create(&mut storage, &alice(), &at(0), data), Ok(SessionEvent::SessionCreated));
    let on_file = storage.session_for_the_account(&alice()).unwrap();

    // not even the owner, and not even after expiry
    let outcome = storage.delete_session_from_program(&alice(), &program(), 1_000, alice());
    assert_eq!(outcome, Err(SessionError::MessageOnlyForProgram));
    // an account that differs from the program in the last byte only
    let mut almost = program();
    almost[31] = 1;
    let outcome = storage.delete_session_from_program(&almost, &program(), 1_000, alice());
    assert_eq!(outcome, Err(SessionError::MessageOnlyForProgram));
    assert_eq!(storage.session_for_the_account(&alice()).unwrap(), on_file);
}

#[test]
fn owner_cancels_an_active_session() {
    let mut storage = Storage::new(config());
    let data = request(account(10), 180_000, vec![0]);
    assert_eq!(create(&mut storage, &alice(), &at(0), data), Ok(SessionEvent::SessionCreated));

    assert_eq!(storage.delete_session_from_account(&alice()), Ok(SessionEvent::SessionDeleted));
    assert!(storage.session_for_the_account(&alice()).is_none());
    assert_eq!(storage.delete_session_from_account(&alice()), Err(SessionError::NoSession));
    // the cleanup that was scheduled still arrives, and finds nothing to do
    let outcome = storage.delete_session_from_program(&program(), &program(), 60, alice());
    assert_eq!(outcome, Ok(SessionEvent::SessionDeleted));
}

#[test]
fn cancelling_without_a_session_is_refused() {
    let mut storage = Storage::new(config());
    assert_eq!(storage.delete_session_from_account(&alice()), Err(SessionError::NoSession));
    // a session in which alice is the delegate is not alice's own
    let data = request(alice(), 180_000, vec![0]);
    assert_eq!(create(&mut storage, &account(7), &at(0), data), Ok(SessionEvent::SessionCreated));
    assert_eq!(storage.delete_session_from_account(&alice()), Err(SessionError::NoSession));
    assert_eq!(storage.sessions().len(), 1);
}

#[test]
fn failed_scheduling_takes_the_grant_back() {
    let mut storage = Storage::new(config());
    let pending = storage
        .create_session(&alice(), &at(0), request(account(10), 180_000, vec![0]), None)
        .unwrap();
    assert!(storage.session_for_the_account(&alice()).is_some());
    assert_eq!(storage.settle_cleanup(pending, false), Err(SessionError::SendMessageFailed));
    assert!(storage.session_for_the_account(&alice()).is_none());
    assert!(storage.sessions().is_empty());
}

#[test]
fn failed_scheduling_restores_the_expired_entry() {
    let mut storage = Storage::new(config());
    let first = request(account(10), 180_000, vec![0]);
    assert_eq!(create(&mut storage, &alice(), &at(0), first), Ok(SessionEvent::SessionCreated));
    let before = storage.session_for_the_account(&alice()).unwrap();

    let pending = storage
        .create_session(&alice(), &at(70), request(account(11), 180_000, vec![1]), None)
        .unwrap();
    assert_ne!(storage.session_for_the_account(&alice()).unwrap(), before);
    assert_eq!(storage.settle_cleanup(pending, false), Err(SessionError::SendMessageFailed));
    assert_eq!(storage.session_for_the_account(&alice()).unwrap(), before);
}

#[test]
fn undelivered_event_is_reported_and_the_grant_stands() {
    let mut storage = Storage::new(config());
    let pending = storage
        .create_session(&alice(), &at(0), request(account(10), 180_000, vec![0]), None)
        .unwrap();
    let event = storage.settle_cleanup(pending, true).unwrap();
    assert_eq!(settle_event(event, false), Err(SessionError::EmitEventFailed));
    assert!(storage.session_for_the_account(&alice()).is_some());
    assert_eq!(
        settle_event(SessionEvent::SessionDeleted, false),
        Err(SessionError::EmitEventFailed)
    );
    assert_eq!(
        settle_event(SessionEvent::SessionDeleted, true),
        Ok(SessionEvent::SessionDeleted)
    );
}

#[test]
fn each_owner_is_listed_once() {
    let mut storage = Storage::new(config());
    for round in 0..3u32 {
        for owner in 1..=20u8 {
            let data = request(account(100), 180_000, vec![owner]);
            let _ = create(&mut storage, &account(owner), &at(round * 100), data);
        }
        for owner in (1..=20u8).step_by(3) {
            let _ = storage.delete_session_from_account(&account(owner));
        }
    }
    let mut listed = storage.sessions();
    listed.sort_by_key(|(owner, _)| *owner);
    let owners: Vec<u8> = listed.iter().map(|(owner, _)| owner[0]).collect();
    let expected: Vec<u8> = (1..=20u8).filter(|n| (n - 1) % 3 != 0).collect();
    assert_eq!(owners, expected);
    for (owner, session) in listed {
        assert_eq!(storage.session_for_the_account(&owner), Some(session.clone()));
        assert_eq!(session.allowed_actions, vec![owner[0]]);
        assert_eq!(session.expires_at_block, 260);
    }
}

#[test]
fn listing_includes_expired_entries() {
    let mut storage = Storage::new(config());
    let data = request(account(10), 180_000, vec![0]);
    assert_eq!(create(&mut storage, &alice(), &at(0), data), Ok(SessionEvent::SessionCreated));
    let listed = storage.sessions();
    assert_eq!(listed.len(), 1);
    assert_eq!(listed[0].0, alice());
    assert_eq!(listed[0].1.expires_at_block, 60);
    assert_eq!(storage.config(), config());
}

#[test]
fn duplicate_actions_are_kept_in_order() {
    let mut storage = Storage::new(config());
    let data = request(account(10), 180_000, vec![2, 0, 2, 1, 0]);
    assert_eq!(create(&mut storage, &alice(), &at(0), data), Ok(SessionEvent::SessionCreated));
    let session = storage.session_for_the_account(&alice()).unwrap();
    assert_eq!(session.allowed_actions, vec![2, 0, 2, 1, 0]);
}

#[test]
fn pending_cleanup_names_what_to_schedule() {
    let mut storage = Storage::new(Config {
        gas_to_delete_session: 77,
        minimum_session_duration_ms: 1,
        ms_per_block: 1_000,
    });
    let pending: PendingCleanup = storage
        .create_session(&alice(), &at(5), request(account(10), 2_001, vec![0]), None)
        .unwrap();
    assert_eq!(pending.account(), alice());
    assert_eq!(pending.gas_limit(), 77);
    assert_eq!(pending.delay(), 3);
    assert_eq!(pending.replaced(), None);
    assert_eq!(storage.session_for_the_account(&alice()).unwrap().expires_at_block, 8);
}

#[test]
fn existence_check_looks_at_the_expiry_block_only() {
    let mut storage = Storage::new(config());
    assert_eq!(check_if_session_exists(storage.get_session_map(), &alice(), 0), Ok(()));

    let data = request(account(10), 180_000, vec![0]);
    assert_eq!(create(&mut storage, &alice(), &at(0), data), Ok(SessionEvent::SessionCreated));
    for height in [0u32, 1, 59] {
        assert_eq!(
            check_if_session_exists(storage.get_session_map(), &alice(), height),
            Err(SessionError::AlreadyHaveActiveSession)
        );
    }
    for height in [60u32, 61, u32::MAX] {
        assert_eq!(check_if_session_exists(storage.get_session_map(), &alice(), height), Ok(()));
    }
    // the delegate is not the owner
    assert_eq!(check_if_session_exists(storage.get_session_map(), &account(10), 0), Ok(()));
}

#[test]
fn default_config_is_all_zero() {
    assert_eq!(
        Config::default(),
        Config { gas_to_delete_session: 0, minimum_session_duration_ms: 0, ms_per_block: 0 }
    );
}

#[test]
fn copies_are_equal_to_what_they_copy() {
    let session = SessionData {
        key: account(3),
        expires: 9,
        allowed_actions: vec![2, 1, 2],
        expires_at_block: 4,
    };
    assert_eq!(session.clone(), session);
    let data = request(account(5), 77, vec![1, 1]);
    assert_eq!(data.clone(), data);
}

#[test]
fn session_of_no_duration_is_never_active() {
    let mut storage = Storage::new(Config {
        gas_to_delete_session: 1,
        minimum_session_duration_ms: 0,
        ms_per_block: 3_000,
    });
    let pending =
        storage.create_session(&alice(), &at(8), request(account(10), 0, vec![0]), None).unwrap();
    assert_eq!(pending.delay(), 0);
    assert_eq!(storage.settle_cleanup(pending, true), Ok(SessionEvent::SessionCreated));
    assert_eq!(storage.session_for_the_account(&alice()).unwrap().expires_at_block, 8);
    assert_eq!(check_if_session_exists_at(&storage, 8), Ok(()));
    assert_eq!(
        storage.delete_session_from_program(&program(), &program(), 8, alice()),
        Ok(SessionEvent::SessionDeleted)
    );
}

fn check_if_session_exists_at(storage: &Storage, height: u32) -> Result<(), SessionError> {
    check_if_session_exists(storage.get_session_map(), &alice(), height)
}

#[test]
fn expiry_beyond_the_counters_is_refused_as_too_large() {
    let mut storage = Storage::new(config());
    // the expiry block would be one past the last block there is
    let late = Clock { block_timestamp: 0, block_height: u32::MAX - 59 };
    let outcome = create(&mut storage, &alice(), &late, request(account(10), 180_000, vec![0]));
    assert_eq!(outcome, Err(SessionError::DurationIsLarge));
    // the deadline would be one millisecond past the last there is
    let end_of_time = Clock { block_timestamp: u64::MAX - 179_999, block_height: 0 };
    let outcome =
        create(&mut storage, &alice(), &end_of_time, request(account(10), 180_000, vec![0]));
    assert_eq!(outcome, Err(SessionError::DurationIsLarge));
    assert!(storage.sessions().is_empty());
    // one block and one millisecond earlier, both fit
    let in_time = Clock { block_timestamp: u64::MAX - 180_000, block_height: u32::MAX - 60 };
    let outcome = create(&mut storage, &alice(), &in_time, request(account(10), 180_000, vec![0]));
    assert_eq!(outcome, Ok(SessionEvent::SessionCreated));
    let session = storage.session_for_the_account(&alice()).unwrap();
    assert_eq!((session.expires, session.expires_at_block), (u64::MAX, u32::MAX));
}
