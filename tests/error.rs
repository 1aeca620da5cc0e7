use console::error::{client_error, internal_error, map_store, SBError, StoreFault};

#[test]
fn it_works() {
    assert_eq!(2 + 2, 4);
}

#[test]
fn client_errors_map_to_400_with_their_message() {
    let e = client_error("users", "No user found");
    assert!(e.is_client_error());
    assert_eq!(e.status_code(), 400);
    assert_eq!(e.public_message(), "No user found");
    assert_eq!(e.describe(), "Service error [users]: No user found");
}

#[test]
fn internal_errors_map_to_500_without_detail() {
    let e = internal_error("mongodb", "Failure querying documents.");
    assert!(!e.is_client_error());
    assert_eq!(e.status_code(), 500);
    assert_eq!(e.public_message(), "");
    assert_eq!(e.describe(), "Internal service error [mongodb]: Failure querying documents.");
    assert_eq!(SBError::DBConnectionError().status_code(), 500);
    let env = SBError::EnvConfigError { key: "SECRET".to_string() };
    assert_eq!(env.describe(), "ENV Key Missing: SECRET");
}

#[test]
fn store_faults_become_internal_failures() {
    let ok: Result<u32, StoreFault> = Ok(7);
    assert!(matches!(map_store(ok, "mongodb", "x"), Ok(7)));
    let bad: Result<u32, StoreFault> = Err(StoreFault::Unavailable);
    match map_store(bad, "mongodb", "Failure deleting document.") {
        Err(SBError::InternalServiceError { message, service }) => {
            assert_eq!(message, "Failure deleting document.");
            assert_eq!(service, "mongodb");
        }
        _ => panic!("expected an internal failure"),
    }
}
