use quotes_api::store::{status_of_execute, status_of_rows_affected, Status};

#[test]
fn status_codes_match_the_http_responses() {
    assert_eq!(Status::Success.code(), 200);
    assert_eq!(Status::NotFound.code(), 404);
    assert_eq!(Status::ServerError.code(), 500);
}

#[test]
fn zero_rows_affected_means_not_found() {
    assert_eq!(status_of_rows_affected(0), Status::NotFound);
    assert_eq!(status_of_rows_affected(1), Status::Success);
    assert_eq!(status_of_rows_affected(7), Status::Success);
}

#[test]
fn storage_failures_collapse_to_a_server_error() {
    assert_eq!(status_of_execute::<String>(Ok(0)), Status::NotFound);
    assert_eq!(status_of_execute::<String>(Ok(3)), Status::Success);
    assert_eq!(status_of_execute::<String>(Err("disk on fire".to_string())), Status::ServerError);
}
