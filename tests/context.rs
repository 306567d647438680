use std::cell::Cell;

use enet::host::CreateError;
use enet::{
    initialize, Address, ContextFlag, Error, ALREADY_INITIALIZED, ENGINE_INIT_FAILURE,
    MAX_PEERS,
};

fn is_message(e: &Error, m: &str) -> bool {
    matches!(e, Error::Initialize(s) if s == m)
}

#[test]
fn initialize_starts_the_engine_once() {
    let calls = Cell::new(0u32);
    let mut flag = ContextFlag::new();
    assert!(!flag.alive());
    let first = initialize(&mut flag, || {
        calls.set(calls.get() + 1);
        0
    });
    assert!(first.is_ok());
    assert!(flag.alive());
    assert_eq!(calls.get(), 1);
}

#[test]
fn initialize_twice_is_already_initialized() {
    let calls = Cell::new(0u32);
    let mut flag = ContextFlag::new();
    let _first = initialize(&mut flag, || 0).unwrap();
    let second = initialize(&mut flag, || {
        calls.set(calls.get() + 1);
        0
    });
    match second {
        Err(e) => assert!(is_message(&e, ALREADY_INITIALIZED)),
        Ok(_) => panic!("a second context started"),
    }
    // the engine was not asked to start again, and the first context lives
    assert_eq!(calls.get(), 0);
    assert!(flag.alive());
}

#[test]
fn initialize_succeeds_again_after_release() {
    let mut flag = ContextFlag::new();
    let first = initialize(&mut flag, || 0).unwrap();
    drop(first);
    flag.release();
    assert!(!flag.alive());
    assert!(initialize(&mut flag, || 0).is_ok());
    assert!(flag.alive());
}

#[test]
fn initialize_reports_engine_failure() {
    let mut flag = ContextFlag::new();
    match initialize(&mut flag, || -1) {
        Err(e) => assert!(is_message(&e, ENGINE_INIT_FAILURE)),
        Ok(_) => panic!("the engine failed to start"),
    }
    assert!(!flag.alive());
    // nothing is live, so a later start may succeed
    assert!(initialize(&mut flag, || 0).is_ok());
}

#[test]
fn claim_and_complete_steps() {
    let mut flag = ContextFlag::new();
    assert!(flag.claim().is_ok());
    assert!(flag.alive());
    assert!(matches!(flag.claim(), Err(ref e) if is_message(e, ALREADY_INITIALIZED)));
    assert!(flag.complete(0).is_ok());
    assert!(flag.alive());
    let mut other = ContextFlag::new();
    other.claim().unwrap();
    assert!(matches!(other.complete(-3), Err(ref e) if is_message(e, ENGINE_INIT_FAILURE)));
    assert!(!other.alive());
}

#[test]
fn client_host_create_checks_peer_count() {
    let mut flag = ContextFlag::new();
    let enet = initialize(&mut flag, || 0).unwrap();
    let c = enet.client_host_create(1, None, Some(100)).unwrap();
    assert_eq!(c.address(), None);
    assert_eq!(c.peer_count(), 1);
    assert_eq!(c.channel_limit(), 0);
    assert_eq!(c.incoming_bandwidth(), 0);
    assert_eq!(c.outgoing_bandwidth(), 100);
    assert!(matches!(
        enet.client_host_create(MAX_PEERS + 1, None, None),
        Err(Error::ClientCreate(CreateError::TooManyPeers(4096)))
    ));
}

#[test]
fn server_host_create_checks_counts() {
    let mut flag = ContextFlag::new();
    let enet = initialize(&mut flag, || 0).unwrap();
    let a = Address::any(12345);
    let c = enet.server_host_create(a, 32, Some(2), None, None).unwrap();
    assert_eq!(c.address(), Some(a));
    assert_eq!(c.peer_count(), 32);
    assert_eq!(c.channel_limit(), 2);
    assert!(matches!(
        enet.server_host_create(a, 5000, Some(2), None, None),
        Err(Error::ServerCreate(CreateError::TooManyPeers(5000)))
    ));
    assert!(matches!(
        enet.server_host_create(a, 32, Some(256), None, None),
        Err(Error::ServerCreate(CreateError::TooManyChannels(256)))
    ));
}
