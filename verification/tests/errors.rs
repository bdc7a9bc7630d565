use persistent_postgres::persistent::change::{PgChangeAction, PgChangeNotification};
use persistent_postgres::error::connection::PersistentPostgresConnectionError;
use persistent_postgres::error::listener::PersistentPostgresListenerError;
use persistent_postgres::error::PersistentPostgresError;
use persistent_postgres::postgres_uri::PostgresUri;
use std::str::FromStr;

#[test]
fn connection_error_codes() {
    assert_eq!(PersistentPostgresConnectionError::NoAddress.code(), 5001);
    assert_eq!(PersistentPostgresConnectionError::FailedToEstablishConnection.code(), 5002);
    assert_eq!(PersistentPostgresConnectionError::FailedToEstablishListener.code(), 5003);
}

#[test]
fn connection_error_texts() {
    assert_eq!(
        PersistentPostgresConnectionError::NoAddress.causes(),
        Some("Usually the cause of this error is bad configuration")
    );
    assert_eq!(
        PersistentPostgresConnectionError::FailedToEstablishConnection.causes(),
        Some("Cause of this problem could be a faulty internet connection. or bad connection string")
    );
    assert_eq!(PersistentPostgresConnectionError::FailedToEstablishListener.causes(), None);
    assert_eq!(
        PersistentPostgresConnectionError::NoAddress.description(),
        Some("No address found for postgres.")
    );
    assert_eq!(
        PersistentPostgresConnectionError::FailedToEstablishConnection.description(),
        Some("Failed to establish a connection to postgres.")
    );
    assert_eq!(
        PersistentPostgresConnectionError::FailedToEstablishListener.description(),
        Some("Failed to establish a listener to postgres.")
    );
    for e in [
        PersistentPostgresConnectionError::NoAddress,
        PersistentPostgresConnectionError::FailedToEstablishConnection,
        PersistentPostgresConnectionError::FailedToEstablishListener,
    ] {
        assert_eq!(e.docs(), "");
        assert_eq!(e.solutions(), Some(""));
    }
}

#[test]
fn listener_error_texts() {
    let e = PersistentPostgresListenerError::FailedToAddChannelListener;
    assert_eq!(e.code(), 5010);
    assert_eq!(
        e.causes(),
        Some("Possible causes could be the listener already existing. Or else.")
    );
    assert_eq!(e.description(), Some("Failed to add channel to listener"));
    assert_eq!(e.docs(), "");
    assert_eq!(e.solutions(), None);
}

#[test]
fn wrapped_connection_error() {
    let e = PersistentPostgresError::ConnectionError(PersistentPostgresConnectionError::NoAddress);
    assert_eq!(
        e,
        PersistentPostgresError::ConnectionError(PersistentPostgresConnectionError::NoAddress)
    );
}

#[test]
fn uri_is_kept_as_given() {
    let uri = PostgresUri::from_str("postgres://user:pw@localhost:5432/db").unwrap();
    assert_eq!(uri.as_str(), "postgres://user:pw@localhost:5432/db");
    let empty: PostgresUri = "".parse().unwrap();
    assert_eq!(empty.as_str(), "");
}

#[test]
fn change_notification_carries_its_payload() {
    let n = PgChangeNotification { action: PgChangeAction::Insert, payload: serde_json::Value::Null };
    assert_eq!(n.action, PgChangeAction::Insert);
    assert_eq!(n.payload, serde_json::Value::Null);
    assert_ne!(PgChangeAction::Update, PgChangeAction::Delete);
}
