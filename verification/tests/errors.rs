use hello_world_grpc::error::{context_message, AppError, Code, ErrorContext, Status};

#[test]
fn test_validation_error_to_status() {
    let error = AppError::validation("Invalid input data");
    let status = Status::from(error);

    assert_eq!(status.code(), Code::InvalidArgument);
    assert!(status.message().contains("Invalid input data"));
}

#[test]
fn test_internal_error_to_status() {
    let error = AppError::internal("Database connection failed");
    let status = Status::from(error);

    assert_eq!(status.code(), Code::Internal);
    assert!(status.message().contains("Database connection failed"));
}

#[test]
fn test_not_found_error_to_status() {
    let error = AppError::not_found("User not found");
    let status = Status::from(error);

    assert_eq!(status.code(), Code::NotFound);
    assert!(status.message().contains("User not found"));
}

#[test]
fn test_unavailable_error_to_status() {
    let error = AppError::unavailable("Service temporarily down");
    let status = Status::from(error);

    assert_eq!(status.code(), Code::Unavailable);
    assert!(status.message().contains("Service temporarily down"));
}

#[test]
fn test_configuration_error_to_status() {
    let error = AppError::configuration("Invalid config setting");
    let status = Status::from(error);

    assert_eq!(status.code(), Code::Internal);
    assert!(status.message().contains("Service configuration error"));
    assert!(status.message().contains("Invalid config setting"));
}

#[test]
fn test_error_context_trait() {
    let result: Result<i32, &str> = Err("original error");
    let app_result = result.with_context(|| "Failed to process data".to_string());

    assert!(app_result.is_err());
    let error = app_result.unwrap_err();
    assert!(matches!(error, AppError::InternalError { .. }));
    assert!(error.to_string().contains("Failed to process data"));
    assert!(error.to_string().contains("original error"));
}

#[test]
fn test_validation_context_trait() {
    let result: Result<i32, &str> = Err("validation failed");
    let app_result = result.with_validation_context(|| "User input invalid".to_string());

    assert!(app_result.is_err());
    let error = app_result.unwrap_err();
    assert!(matches!(error, AppError::ValidationError { .. }));
    assert!(error.to_string().contains("User input invalid"));
    assert!(error.to_string().contains("validation failed"));
}

#[test]
fn test_context_keeps_a_success_and_does_not_ask_for_the_context() {
    let result: Result<i32, String> = Ok(7);
    let kept = result.with_context(|| panic!("the context of a success is never built"));
    assert_eq!(kept.unwrap(), 7);
    let result: Result<&str, u8> = Ok("fine");
    let kept = result.with_validation_context(|| panic!("nor here"));
    assert_eq!(kept.unwrap(), "fine");
}

#[test]
fn test_context_message_is_exact() {
    let result: Result<(), u32> = Err(404);
    let error = result.with_context(|| "lookup".to_string()).unwrap_err();
    assert_eq!(error.message(), "lookup: 404");
    assert_eq!(error.to_string(), "Internal service error: lookup: 404");
    let result: Result<(), String> = Err("too short".to_string());
    let error = result
        .with_validation_context(|| "password".to_string())
        .unwrap_err();
    assert_eq!(error.to_string(), "Invalid input: password: too short");
    assert_eq!(context_message("a", "b"), "a: b");
}

#[test]
fn test_status_messages_are_exact() {
    let status = Status::from(AppError::configuration("bad port"));
    assert_eq!(status.message(), "Service configuration error: bad port");
    let status = Status::from(AppError::validation("bad name"));
    assert_eq!(status.message(), "bad name");
    let status = Status::new(Code::NotFound, "gone");
    assert_eq!(status.code(), Code::NotFound);
    assert_eq!(status.message(), "gone");
    assert_ne!(Code::Internal, Code::InvalidArgument);
}
