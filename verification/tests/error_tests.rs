use bitcoin_explorer::configure::{BitcoinConfig, Profile};
use bitcoin_explorer::dto::{AppResultResponse, MessageResponse, ServiceStatusResponse};
use bitcoin_explorer::error::{
    io_error_response, AppError, AppResponseError, IoErrorKind, Resource, ResourceType,
};

fn resource(rt: ResourceType) -> Resource {
    Resource {
        details: vec![("id".to_string(), "42".to_string())],
        resource_type: rt,
    }
}

#[test]
fn not_found_error_response() {
    let (status, body) = AppError::NotFoundError(resource(ResourceType::User)).response();
    assert_eq!(status, 404);
    assert_eq!(body.kind, "USER_NOT_FOUND_ERROR");
    assert_eq!(body.error_message, "USER not found");
    assert_eq!(body.code, Some(0));
    assert_eq!(body.details, vec![("id".to_string(), "42".to_string())]);
}

#[test]
fn resource_exists_error_response() {
    let (status, body) = AppError::ResourceExistsError(resource(ResourceType::Store)).response();
    assert_eq!(status, 409);
    assert_eq!(body.kind, "STORE_ALREADY_EXISTS_ERROR");
    assert_eq!(body.error_message, "STORE already exists");
    assert_eq!(body.code, Some(4));
    assert_eq!(body.details.len(), 1);
}

#[test]
fn not_available_error_response() {
    let (status, body) = AppError::NotAvailableError(resource(ResourceType::File)).response();
    assert_eq!(status, 404);
    assert_eq!(body.kind, "FILE_NOT_AVAILABLE_ERROR");
    assert_eq!(body.error_message, "FILE not available");
    assert_eq!(body.code, None);
    assert!(body.details.is_empty());
}

#[test]
fn message_carrying_error_responses() {
    let cases: Vec<(AppError, u16, &str, &str)> = vec![
        (AppError::PermissionDeniedError("p".to_string()), 403, "PERMISSION_DENIED_ERROR", "p"),
        (AppError::UserNotActiveError("u".to_string()), 403, "USER_NOT_ACTIVE_ERROR", "u"),
        (AppError::InvalidSessionError("s".to_string()), 400, "INVALID_SESSION_ERROR", "s"),
        (AppError::ConflictError("c".to_string()), 500, "CONFLICT_ERROR", "c"),
        (AppError::UnauthorizedError("a".to_string()), 401, "UNAUTHORIZED_ERROR", "a"),
        // the bad-request message carries a fixed prefix before the text
        (AppError::BadRequestError("b".to_string()), 400, "BAD_REQUEST_ERROR", "bad request b"),
        (AppError::InvalidPayloadError("i".to_string()), 400, "INVALID_PAYLOAD_ERROR", "i"),
    ];
    for (err, expected_status, expected_kind, expected_message) in cases {
        let (status, body) = err.response();
        assert_eq!(status, expected_status);
        assert_eq!(body.kind, expected_kind);
        assert_eq!(body.error_message, expected_message);
        assert_eq!(body.code, None);
        assert!(body.details.is_empty());
    }
}

#[test]
fn io_error_responses() {
    let (status, body) =
        io_error_response(IoErrorKind::NotFound, "file missing".to_string());
    assert_eq!(status, 404);
    assert_eq!(body.kind, "FILE_NOT_FOUND_ERROR");
    assert_eq!(body.error_message, "file missing");
    assert_eq!(body.code, Some(1));
    assert!(body.details.is_empty());

    let (status, body) =
        io_error_response(IoErrorKind::PermissionDenied, "denied".to_string());
    assert_eq!(status, 403);
    assert_eq!(body.kind, "FORBIDDEN_ERROR");
    assert_eq!(body.error_message, "denied");
    assert_eq!(body.code, None);

    let (status, body) = io_error_response(IoErrorKind::Other, "broken pipe".to_string());
    assert_eq!(status, 500);
    assert_eq!(body.kind, "IO_ERROR");
    assert_eq!(body.error_message, "broken pipe");
    assert_eq!(body.code, None);
}

#[test]
fn resource_type_labels_and_codes() {
    assert_eq!(ResourceType::User.label(), "USER");
    assert_eq!(ResourceType::File.label(), "FILE");
    assert_eq!(ResourceType::Session.label(), "SESSION");
    assert_eq!(ResourceType::Message.label(), "MESSAGE");
    assert_eq!(ResourceType::Store.label(), "STORE");
    assert_eq!(ResourceType::User.code(), 0);
    assert_eq!(ResourceType::Store.code(), 4);
    assert_eq!(resource(ResourceType::Session).label(), "SESSION");
}

#[test]
fn app_response_error_new_keeps_parts() {
    let e = AppResponseError::new(
        "KIND".to_string(),
        "message".to_string(),
        Some(3),
        vec![("a".to_string(), "b".to_string())],
    );
    assert_eq!(e.kind, "KIND");
    assert_eq!(e.error_message, "message");
    assert_eq!(e.code, Some(3));
    assert_eq!(e.details.len(), 1);
}

#[test]
fn message_response_and_result_response() {
    let m = MessageResponse::new("Ok".to_string());
    assert_eq!(m.message, "Ok");

    let ok: AppResultResponse<MessageResponse> = AppResultResponse::Success(m);
    assert!(ok.is_ok());
    assert!(!ok.is_err());

    let err: AppResultResponse<MessageResponse> = AppResultResponse::Failure(
        AppResponseError::new("K".to_string(), "m".to_string(), None, vec![]),
    );
    assert!(err.is_err());
    assert!(!err.is_ok());
}

#[test]
fn service_status_response_fields() {
    let s = ServiceStatusResponse { db: true, redis: true, email: true };
    assert!(s.db && s.redis && s.email);
}

#[test]
fn bitcoin_config_host_and_profile_names() {
    let cfg = BitcoinConfig {
        host: "http://127.0.0.1:8332".to_string(),
        username: "rpc".to_string(),
        password: "rpcpass".to_string(),
    };
    assert_eq!(cfg.get_host(), "http://127.0.0.1:8332");
    assert_eq!(Profile::Test.name(), "test");
    assert_eq!(Profile::Dev.name(), "dev");
    assert_eq!(Profile::Prod.name(), "prod");
}
