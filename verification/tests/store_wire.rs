use profile_views::datastore::operations::Error;
use profile_views::datastore::xata::insert_transaction_body;
use profile_views::datastore::xata::interpret_onboard_response;
use profile_views::datastore::xata::interpret_views_response;
use profile_views::datastore::xata::unexpected_error;
use profile_views::datastore::xata::update_transaction_body;

const TEST_TABLE_NAME: &str = "profile_views";
const TEST_USER_NAME: &str = "test_user";

#[test]
fn test_serialize_update_user_views_operation() {
    let serialized = update_transaction_body(TEST_TABLE_NAME, TEST_USER_NAME);

    let expected = format!(
        r#"{{"operations":[{{"update":{{"table":"{}","id":"{}","fields":{{"count":{{"$increment":1}}}},"columns":["count"]}}}}]}}"#,
        TEST_TABLE_NAME, TEST_USER_NAME
    );
    assert_eq!(serialized, expected);
}

#[test]
fn test_serialize_insert_user_views_operation() {
    let serialized = insert_transaction_body(TEST_TABLE_NAME, TEST_USER_NAME);

    let expected = format!(
        r#"{{"operations":[{{"insert":{{"table":"{}","record":{{"count":1,"id":"{}"}},"createOnly":true,"columns":["count"]}}}}]}}"#,
        TEST_TABLE_NAME, TEST_USER_NAME
    );
    assert_eq!(serialized, expected);
}

#[test]
fn it_gets_latest_views_for_onboarded_user() {
    let expected_count = 998 as u64;
    let body = format!(
        r#"{{"results":[{{"columns":{{"count":{}}},"id":"{}","operation":"update","rows":1}}]}}"#,
        expected_count, TEST_USER_NAME
    );

    let count = interpret_views_response(200, &body, TEST_USER_NAME);

    assert_eq!(count.unwrap(), 998);
}

#[test]
fn it_returns_user_not_found_error_for_non_onboarded_user() {
    let body = format!(
        r#"{{"errors":[{{"index":0,"message":"table [{}]: record [{}] not found"}}]}}"#,
        TEST_TABLE_NAME, TEST_USER_NAME
    );

    let count = interpret_views_response(400, &body, TEST_USER_NAME);

    assert_eq!(
        count.unwrap_err().message(),
        Error::UserNotFound(TEST_USER_NAME.to_string()).message()
    );
}

#[test]
fn it_handles_unexpected_error_while_fetching_latest_views() {
    let count = interpret_views_response(500, "unavailable", TEST_USER_NAME);

    assert_eq!(
        count.unwrap_err().message(),
        Error::Unexpected(
            r#"status code: 500 Internal Server Error, server error message: unavailable"#
                .to_string()
        )
        .message()
    );
}

#[test]
fn it_onboards_user_successfully() {
    let body = format!(
        r#"{{"results":[{{"columns":{{"count":1}},"id":"{}","operation":"insert","rows":1}}]}}"#,
        TEST_USER_NAME
    );

    let count = interpret_onboard_response(200, &body);

    assert_eq!(count.unwrap(), 1);
}

#[test]
fn it_handles_unexpected_error_while_onboarding_user() {
    let count = interpret_onboard_response(500, "unavailable");

    assert_eq!(
        count.unwrap_err().message(),
        Error::Unexpected(
            r#"status code: 500 Internal Server Error, server error message: unavailable"#
                .to_string()
        )
        .message()
    );
}

#[test]
fn transaction_error_without_user_marker_is_unexpected() {
    let body = r#"{"errors":[{"index":0,"message":"column [count]: type mismatch"}]}"#;

    let count = interpret_views_response(400, body, TEST_USER_NAME);

    assert_eq!(
        count.unwrap_err().message(),
        "unexpected error: failed to update count for user: `test_user`, error: column [count]: type mismatch"
    );
}

#[test]
fn unusable_success_body_is_a_client_error() {
    let count = interpret_views_response(200, "not json at all", TEST_USER_NAME);

    assert_eq!(
        count.unwrap_err().message(),
        "failed to deserialize server response"
    );
}

#[test]
fn unusable_error_body_is_a_client_error() {
    let count = interpret_views_response(400, r#"{"errors":[]}"#, TEST_USER_NAME);

    assert_eq!(
        count.unwrap_err().message(),
        "failed to deserialize server response"
    );
}

#[test]
fn unexpected_error_quotes_unknown_status_codes_bare() {
    let e = unexpected_error(418, "teapot");

    assert_eq!(
        e.message(),
        "unexpected error: status code: 418, server error message: teapot"
    );
}

#[test]
fn error_messages_follow_the_taxonomy() {
    assert_eq!(
        Error::UserNotFound("bob".to_string()).message(),
        "user `bob` not found"
    );
    assert_eq!(
        Error::Unexpected("boom".to_string()).message(),
        "unexpected error: boom"
    );
    assert_eq!(Error::Client("decode failed".to_string()).message(), "decode failed");
}
