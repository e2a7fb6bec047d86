use songfeed::errors::AppError;

#[test]
fn client_faults_map_to_400() {
    assert_eq!(AppError::InvalidEncoding.status_code(), 400);
    assert_eq!(AppError::InvalidUrl.status_code(), 400);
    assert_eq!(AppError::Unknown.status_code(), 400);
}

#[test]
fn backend_faults_map_to_500() {
    assert_eq!(AppError::UpstreamTransportFailure.status_code(), 500);
    assert_eq!(AppError::MalformedResponse.status_code(), 500);
}

#[test]
fn messages_name_each_failure() {
    assert_eq!(AppError::InvalidEncoding.message(), "invalid base64 url");
    assert_eq!(AppError::InvalidUrl.message(), "failed to parse url");
    assert_eq!(AppError::UpstreamTransportFailure.message(), "failed to request http");
    assert_eq!(AppError::MalformedResponse.message(), "malformed response from backend");
    assert_eq!(AppError::Unknown.message(), "unknown error");
}
