use entity_service::errors::ApiError;

fn all_errors() -> Vec<ApiError> {
    vec![
        ApiError::PoolExhausted,
        ApiError::ConnectionInvalid,
        ApiError::BadRequest,
        ApiError::QueryFailed,
        ApiError::InsertFailed,
    ]
}

#[test]
fn a_refused_payload_is_a_client_error() {
    assert_eq!(ApiError::BadRequest.status(), 400);
    assert_eq!(ApiError::BadRequest.code(), "bad_request");
    assert_eq!(ApiError::BadRequest.message(), "the payload does not have the expected shape");
}

#[test]
fn a_pool_without_a_connection_is_unavailable() {
    assert_eq!(ApiError::PoolExhausted.status(), 503);
    assert_eq!(ApiError::PoolExhausted.code(), "pool_exhausted");
    assert_eq!(ApiError::PoolExhausted.message(), "no database connection became available");
    assert_eq!(ApiError::ConnectionInvalid.status(), 503);
    assert_eq!(ApiError::ConnectionInvalid.code(), "connection_invalid");
    assert_eq!(
        ApiError::ConnectionInvalid.message(),
        "no valid database connection could be established"
    );
}

#[test]
fn a_failed_statement_is_a_server_error() {
    assert_eq!(ApiError::QueryFailed.status(), 500);
    assert_eq!(ApiError::QueryFailed.code(), "query_failed");
    assert_eq!(ApiError::QueryFailed.message(), "the records could not be loaded");
    assert_eq!(ApiError::InsertFailed.status(), 500);
    assert_eq!(ApiError::InsertFailed.code(), "insert_failed");
    assert_eq!(ApiError::InsertFailed.message(), "the record could not be saved");
}

#[test]
fn only_a_bad_request_is_answered_in_the_4xx_range() {
    for error in all_errors() {
        let status: u16 = error.status();
        if error == ApiError::BadRequest {
            assert!((400..500).contains(&status));
        } else {
            assert!((500..600).contains(&status));
        }
    }
}

#[test]
fn codes_tell_the_failures_apart() {
    let errors = all_errors();
    for a in errors.iter() {
        for b in errors.iter() {
            assert_eq!(a.code() == b.code(), a == b);
        }
    }
}
