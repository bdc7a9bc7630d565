use persistent_postgres::error::connection::PersistentPostgresConnectionError;
use persistent_postgres::error::listener::PersistentPostgresListenerError;
use persistent_postgres::persistent::establish::{EstablishAction, Establishment};
use persistent_postgres::persistent::tasks::{
    MonitorAction, MonitorEvent, NotificationAction, NotificationEvent, ShutdownStep,
};
use persistent_postgres::persistent::{listener_outcome, PersistentPostgres};

type Manager = PersistentPostgres<u32, u32, u8>;

fn channels_of(m: &Manager) -> Vec<String> {
    m.channels().clone()
}

fn is_connect_pool(a: &EstablishAction, address: &str) -> bool {
    matches!(a, EstablishAction::ConnectPool(x) if x == address)
}

/// Drives an establishment to its end with the given outcomes, then with
/// successes.
fn drive(est: &mut Establishment, first: EstablishAction, outcomes: &[bool]) {
    let mut action = first;
    let mut k = 0;
    while !matches!(action, EstablishAction::Finished(_)) {
        let ok = if k < outcomes.len() { outcomes[k] } else { true };
        k += 1;
        action = est.step(ok);
    }
}

/// Points `m` at `uri` with every connection succeeding, and installs
/// `pool` (and `listener` where the manager wants one).
fn connect(m: &mut Manager, uri: &str, pool: u32, listener: u32) {
    let (mut est, first) = m.set_uri(uri).expect("a new address");
    drive(&mut est, first, &[]);
    let l = if m.with_listener() { Some(listener) } else { None };
    assert_eq!(m.complete_set_uri(uri, &est, Ok((pool, l))), Ok(()));
}

#[test]
fn fresh_manager_is_empty() {
    let m = Manager::default(true);
    assert!(m.with_listener());
    assert!(m.address().is_none());
    assert!(m.pool().is_none());
    assert!(m.listener().is_none());
    assert!(m.channels().is_empty());
    assert!(m.callbacks(&"orders".to_string()).is_empty());
    let m2 = Manager::default(false);
    assert!(!m2.with_listener());
}

#[test]
fn set_uri_establishes_then_skips_same_address() {
    let mut m = Manager::default(false);
    let (mut est, action) = m.set_uri("postgres://a").expect("a new address asks for a pool");
    assert!(is_connect_pool(&action, "postgres://a"));
    assert!(!est.is_done());
    drive(&mut est, action, &[]);
    assert_eq!(est.result(), Some(Ok(false)));
    assert_eq!(m.complete_set_uri("postgres://a", &est, Ok((7, None))), Ok(()));
    assert_eq!(m.address().map(|a| a.as_str()), Some("postgres://a"));
    assert_eq!(m.pool(), Some(&7));
    assert!(m.listener().is_none());
    // the same address again: nothing to do
    assert!(m.set_uri("postgres://a").is_none());
    // another address: a new pool is asked for
    assert!(m.set_uri("postgres://b").is_some());
}

#[test]
fn failed_set_uri_changes_nothing() {
    let mut m = Manager::default(true);
    connect(&mut m, "postgres://a", 1, 2);
    let (mut est, first) = m.set_uri("postgres://b").unwrap();
    drive(&mut est, first, &[true, false]);
    assert_eq!(
        est.result(),
        Some(Err(PersistentPostgresConnectionError::FailedToEstablishListener))
    );
    let r = m.complete_set_uri(
        "postgres://b",
        &est,
        Err(PersistentPostgresConnectionError::FailedToEstablishListener),
    );
    assert_eq!(r, Err(PersistentPostgresConnectionError::FailedToEstablishListener));
    assert_eq!(m.address().map(|a| a.as_str()), Some("postgres://a"));
    assert_eq!(m.pool(), Some(&1));
    assert_eq!(m.listener(), Some(&2));
}

#[test]
fn set_uri_snapshots_listener_setting_and_channels() {
    let mut m = Manager::default(true);
    m.listen("a", None).unwrap();
    m.listen("b", None).unwrap();
    let (mut est, _) = m.set_uri("postgres://x").unwrap();
    assert!(matches!(est.step(true), EstablishAction::ConnectListener));
    match est.step(true) {
        EstablishAction::Listen(c) => assert_eq!(c, "a"),
        _ => panic!("expected to listen on the first channel"),
    }
    match est.step(true) {
        EstablishAction::Listen(c) => assert_eq!(c, "b"),
        _ => panic!("expected to listen on the second channel"),
    }
    assert!(matches!(est.step(true), EstablishAction::Finished(Ok(true))));
    assert!(est.is_done());
}

#[test]
fn listen_records_channel_whatever_the_outcome() {
    let mut m = Manager::default(true);
    assert_eq!(m.listen("a", None), Ok(()));
    connect(&mut m, "postgres://a", 1, 2);
    assert_eq!(m.listen("b", Some(true)), Ok(()));
    assert_eq!(
        m.listen("c", Some(false)),
        Err(PersistentPostgresListenerError::FailedToAddChannelListener)
    );
    assert_eq!(channels_of(&m), vec!["a".to_string(), "b".to_string(), "c".to_string()]);
}

#[test]
fn unlisten_removes_every_occurrence() {
    let mut m = Manager::default(true);
    m.listen("a", None).unwrap();
    m.listen("b", None).unwrap();
    m.listen("a", None).unwrap();
    assert_eq!(m.unlisten("a", None), Ok(()));
    assert_eq!(channels_of(&m), vec!["b".to_string()]);
    connect(&mut m, "postgres://a", 1, 2);
    assert_eq!(m.unlisten("zzz", Some(true)), Ok(()));
    assert_eq!(channels_of(&m), vec!["b".to_string()]);
}

#[test]
fn failed_unlisten_keeps_channels() {
    let mut m = Manager::default(true);
    m.listen("a", None).unwrap();
    connect(&mut m, "postgres://a", 1, 2);
    assert_eq!(
        m.unlisten("a", Some(false)),
        Err(PersistentPostgresListenerError::FailedToAddChannelListener)
    );
    assert_eq!(channels_of(&m), vec!["a".to_string()]);
}

#[test]
fn law_unlisten_undoes_listen_example() {
    let mut m = Manager::default(false);
    m.listen("x", None).unwrap();
    m.listen("y", None).unwrap();
    let before = channels_of(&m);
    m.listen("z", None).unwrap();
    m.unlisten("z", None).unwrap();
    assert_eq!(channels_of(&m), before);
}

#[test]
fn listener_outcome_maps_calls() {
    assert_eq!(listener_outcome(None), Ok(()));
    assert_eq!(listener_outcome(Some(true)), Ok(()));
    assert_eq!(
        listener_outcome(Some(false)),
        Err(PersistentPostgresListenerError::FailedToAddChannelListener)
    );
}

fn sorted(mut v: Vec<(String, u8)>) -> Vec<(String, u8)> {
    v.sort();
    v
}

#[test]
fn callbacks_are_registered_replaced_and_removed() {
    let mut m = Manager::default(false);
    m.add_listener("orders".to_string(), "audit".to_string(), 1);
    m.add_listener("orders".to_string(), "mail".to_string(), 2);
    m.add_listener("users".to_string(), "audit".to_string(), 3);
    assert_eq!(
        sorted(m.callbacks(&"orders".to_string())),
        vec![("audit".to_string(), 1), ("mail".to_string(), 2)]
    );
    // replacing under the same tag
    m.add_listener("orders".to_string(), "audit".to_string(), 9);
    assert_eq!(
        sorted(m.callbacks(&"orders".to_string())),
        vec![("audit".to_string(), 9), ("mail".to_string(), 2)]
    );
    m.remove_listener("orders".to_string(), "audit".to_string());
    assert_eq!(m.callbacks(&"orders".to_string()), vec![("mail".to_string(), 2)]);
    // other channel untouched
    assert_eq!(m.callbacks(&"users".to_string()), vec![("audit".to_string(), 3)]);
    // unknown channel or tag: nothing happens
    m.remove_listener("nobody".to_string(), "audit".to_string());
    m.remove_listener("users".to_string(), "nothing".to_string());
    assert_eq!(m.callbacks(&"users".to_string()), vec![("audit".to_string(), 3)]);
}

#[test]
fn law_remove_listener_undoes_add_example() {
    let mut m = Manager::default(false);
    m.add_listener("c".to_string(), "t1".to_string(), 1);
    m.add_listener("c".to_string(), "t2".to_string(), 2);
    m.remove_listener("c".to_string(), "t2".to_string());
    assert_eq!(m.callbacks(&"c".to_string()), vec![("t1".to_string(), 1)]);
}

#[test]
fn monitor_reestablishes_only_a_lost_pool_with_an_address() {
    let mut m = Manager::default(true);
    // no address yet: nothing to do even though there is no pool
    assert!(matches!(
        m.monitor_step(MonitorEvent::Tick { pool_closed: false }),
        MonitorAction::Wait
    ));
    connect(&mut m, "postgres://a", 5, 6);
    assert!(matches!(
        m.monitor_step(MonitorEvent::Tick { pool_closed: false }),
        MonitorAction::Wait
    ));
    match m.monitor_step(MonitorEvent::Tick { pool_closed: true }) {
        MonitorAction::Reestablish(mut est, action) => {
            assert!(is_connect_pool(&action, "postgres://a"));
            assert!(!est.is_done());
            drive(&mut est, action, &[]);
            assert_eq!(est.result(), Some(Ok(true)));
            assert!(m.complete_reconnect(&est, Ok((8, Some(9)))));
        }
        _ => panic!("a closed pool is to be re-established"),
    }
    assert!(matches!(m.monitor_step(MonitorEvent::Shutdown), MonitorAction::Stop));
    assert_eq!(m.pool(), Some(&8));
    assert_eq!(m.listener(), Some(&9));
    assert_eq!(m.address().map(|a| a.as_str()), Some("postgres://a"));
    match m.monitor_step(MonitorEvent::Tick { pool_closed: true }) {
        MonitorAction::Reestablish(mut est, action) => {
            drive(&mut est, action, &[false]);
            assert!(!m.complete_reconnect(
                &est,
                Err(PersistentPostgresConnectionError::FailedToEstablishConnection)
            ));
        }
        _ => panic!("a closed pool is to be re-established"),
    }
    assert_eq!(m.pool(), Some(&8));
}

#[test]
fn notifications_reach_the_channel_callbacks_only_when_parsed() {
    let mut m = Manager::default(true);
    m.add_listener("orders".to_string(), "a".to_string(), 4);
    assert!(matches!(m.notifications_step(NotificationEvent::Shutdown), NotificationAction::Stop));
    assert!(matches!(m.notifications_step(NotificationEvent::Tick), NotificationAction::Continue));
    assert!(matches!(
        m.notifications_step(NotificationEvent::Received {
            channel: "orders".to_string(),
            payload_parsed: false
        }),
        NotificationAction::Continue
    ));
    match m.notifications_step(NotificationEvent::Received {
        channel: "orders".to_string(),
        payload_parsed: true,
    }) {
        NotificationAction::Dispatch(v) => assert_eq!(v, vec![("a".to_string(), 4)]),
        _ => panic!("expected a dispatch"),
    }
    match m.notifications_step(NotificationEvent::Received {
        channel: "users".to_string(),
        payload_parsed: true,
    }) {
        NotificationAction::Dispatch(v) => assert!(v.is_empty()),
        _ => panic!("expected an empty dispatch"),
    }
}

#[test]
fn shutdown_plan_orders_steps() {
    let mut m = Manager::default(true);
    assert_eq!(m.shutdown(0, false, false), vec![ShutdownStep::SignalShutdown]);
    connect(&mut m, "postgres://a", 1, 2);
    assert_eq!(
        m.shutdown(2, true, true),
        vec![
            ShutdownStep::StopHandler(0),
            ShutdownStep::StopHandler(1),
            ShutdownStep::SignalShutdown,
            ShutdownStep::StopMonitor,
            ShutdownStep::StopNotifications,
            ShutdownStep::DropListener,
            ShutdownStep::ClosePool,
        ]
    );
    assert_eq!(m.take_listener(), Some(2));
    assert!(m.listener().is_none());
    assert_eq!(
        m.shutdown(0, true, false),
        vec![ShutdownStep::SignalShutdown, ShutdownStep::StopMonitor, ShutdownStep::ClosePool]
    );
}

#[test]
fn establishment_without_listener() {
    let (mut est, first) = Manager::establish_pool("postgres://z", false, vec!["a".to_string()]);
    assert!(is_connect_pool(&first, "postgres://z"));
    assert!(matches!(est.step(true), EstablishAction::Finished(Ok(false))));
    assert!(est.is_done());
}

#[test]
fn establishment_failures() {
    let (mut est, _) = Establishment::start("postgres://a".to_string(), true, vec![]);
    assert!(matches!(
        est.step(false),
        EstablishAction::Finished(Err(PersistentPostgresConnectionError::FailedToEstablishConnection))
    ));
    let (mut est, _) = Establishment::start("postgres://a".to_string(), true, vec!["a".to_string()]);
    assert!(matches!(est.step(true), EstablishAction::ConnectListener));
    assert!(matches!(
        est.step(false),
        EstablishAction::Finished(Err(PersistentPostgresConnectionError::FailedToEstablishListener))
    ));
}

#[test]
fn establishment_listen_failures_are_soft() {
    let chans = vec!["a".to_string(), "b".to_string(), "c".to_string()];
    let (mut est, _) = Establishment::start("postgres://a".to_string(), true, chans);
    assert!(matches!(est.step(true), EstablishAction::ConnectListener));
    let mut listened = Vec::new();
    let outcomes = [false, true, false];
    let mut action = est.step(true);
    let mut k = 0;
    loop {
        match action {
            EstablishAction::Listen(c) => {
                listened.push(c);
                action = est.step(outcomes[k]);
                k += 1;
            }
            EstablishAction::Finished(r) => {
                assert_eq!(r, Ok(true));
                break;
            }
            _ => panic!("unexpected action"),
        }
    }
    assert_eq!(listened, vec!["a".to_string(), "b".to_string(), "c".to_string()]);
    assert_eq!(est.failed_channels(), &vec!["a".to_string(), "c".to_string()]);
}

#[test]
fn establishment_without_channels_finishes_after_listener() {
    let (mut est, _) = Establishment::start("postgres://a".to_string(), true, vec![]);
    assert!(matches!(est.step(true), EstablishAction::ConnectListener));
    assert!(matches!(est.step(true), EstablishAction::Finished(Ok(true))));
    assert!(est.failed_channels().is_empty());
}
