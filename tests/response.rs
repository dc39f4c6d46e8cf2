use blog_axum::{
    BaseResponse, ErrorDetail, PaginationInfo, PaginationResponse, StatusCode, SuccessResponse,
};

#[test]
fn test_success_response_creation() {
    let data = "test data";
    let response = StatusCode::success(Some(data));

    assert!(response.success);
    assert_eq!(response.code, StatusCode::Success);
    assert_eq!(response.message, "Success");
    assert!(response.timestamp > 0);
    assert!(!response.request_id.is_empty());
    assert_eq!(response.data.unwrap(), data);
}

#[test]
fn test_created_response_creation() {
    let data = "created data";
    let response = StatusCode::created(Some(data));

    assert!(response.success);
    assert_eq!(response.code, StatusCode::Created);
    assert_eq!(response.message, "Created");
    assert!(response.timestamp > 0);
    assert!(!response.request_id.is_empty());
    assert_eq!(response.data.unwrap(), data);
}

#[test]
fn test_accepted_response_creation() {
    let data = "accepted data";
    let response = StatusCode::accepted(Some(data));

    assert!(response.success);
    assert_eq!(response.code, StatusCode::Accepted);
    assert_eq!(response.message, "Accepted");
    assert!(response.timestamp > 0);
    assert!(!response.request_id.is_empty());
    assert_eq!(response.data.unwrap(), data);
}

#[test]
fn test_success_response_with_version() {
    let version = "1.0.0";
    let response: SuccessResponse<()> = StatusCode::success(None).with_version(version);

    assert_eq!(response.version.unwrap(), version);
}

#[test]
fn test_error_response_creation() {
    let response = StatusCode::bad_request();

    assert!(!response.success);
    assert_eq!(response.code, StatusCode::BadRequest);
    assert_eq!(response.message, "Bad Request");
    assert!(response.timestamp > 0);
    assert!(!response.request_id.is_empty());
    assert!(response.errors.is_none());
    assert!(response.path.is_none());
    assert!(response.debug.is_none());
}

#[test]
fn test_error_response_with_errors() {
    let errors = vec![
        ErrorDetail {
            field: Some("email".to_string()),
            message: "Email is invalid".to_string(),
        },
        ErrorDetail {
            field: Some("password".to_string()),
            message: "Password must be at least 8 characters".to_string(),
        },
    ];

    let response = StatusCode::validation_error().with_errors(errors.clone());

    assert_eq!(response.errors.unwrap(), errors);
}

#[test]
fn test_error_response_with_path_and_debug() {
    let path = "/api/users";
    let debug = "Internal server error: connection timeout";

    let response = StatusCode::internal_error().with_path(path).with_debug(debug);

    assert_eq!(response.path.unwrap(), path);
    assert_eq!(response.debug.unwrap(), debug);
}

#[test]
fn test_pagination_response_creation() {
    let list = vec!["item1", "item2", "item3"];
    let pagination = PaginationInfo {
        page: 1,
        page_size: 10,
        total: 25,
        total_pages: 3,
    };

    let response = PaginationResponse::new(
        StatusCode::Success,
        "Items retrieved successfully",
        list.clone(),
        pagination.clone(),
    );

    assert!(response.success);
    assert_eq!(response.code, StatusCode::Success);
    assert_eq!(response.message, "Items retrieved successfully");
    assert!(response.timestamp > 0);
    assert!(!response.request_id.is_empty());
    assert_eq!(response.data.list, list);
    assert_eq!(response.data.pagination, pagination);
}

#[test]
fn test_pagination_response_with_version() {
    let list = vec!["item1"];
    let pagination = PaginationInfo {
        page: 1,
        page_size: 10,
        total: 1,
        total_pages: 1,
    };

    let version = "2.1.3";
    let response = PaginationResponse::new(
        StatusCode::Success,
        "Items retrieved successfully",
        list,
        pagination,
    )
    .with_version(version);

    assert_eq!(response.version.unwrap(), version);
}

#[test]
fn test_all_status_codes_have_constructors() {
    let _: SuccessResponse<()> = StatusCode::success(None);
    let _: SuccessResponse<()> = StatusCode::created(None);
    let _: SuccessResponse<()> = StatusCode::accepted(None);

    let _ = StatusCode::bad_request();
    let _ = StatusCode::validation_error();
    let _ = StatusCode::param_error();
    let _ = StatusCode::unauthorized();
    let _ = StatusCode::token_expired();
    let _ = StatusCode::token_invalid();
    let _ = StatusCode::forbidden();
    let _ = StatusCode::access_denied();
    let _ = StatusCode::not_found();
    let _ = StatusCode::resource_not_found();
    let _ = StatusCode::conflict();
    let _ = StatusCode::duplicate_resource();
    let _ = StatusCode::internal_error();
    let _ = StatusCode::service_unavailable();
    let _ = StatusCode::database_error();
    let _ = StatusCode::third_party_error();
    let _ = StatusCode::external_api_error();
}

#[test]
fn status_codes_have_their_wire_numbers() {
    assert_eq!(StatusCode::Success.code(), 200);
    assert_eq!(StatusCode::Created.code(), 201);
    assert_eq!(StatusCode::Accepted.code(), 202);
    assert_eq!(StatusCode::BadRequest.code(), 40000);
    assert_eq!(StatusCode::ValidationError.code(), 40001);
    assert_eq!(StatusCode::ParamError.code(), 40002);
    assert_eq!(StatusCode::Unauthorized.code(), 40100);
    assert_eq!(StatusCode::TokenExpired.code(), 40101);
    assert_eq!(StatusCode::TokenInvalid.code(), 40102);
    assert_eq!(StatusCode::Forbidden.code(), 40300);
    assert_eq!(StatusCode::AccessDenied.code(), 40301);
    assert_eq!(StatusCode::NotFound.code(), 40400);
    assert_eq!(StatusCode::ResourceNotFound.code(), 40401);
    assert_eq!(StatusCode::Conflict.code(), 40900);
    assert_eq!(StatusCode::DuplicateResource.code(), 40901);
    assert_eq!(StatusCode::InternalError.code(), 50000);
    assert_eq!(StatusCode::ServiceUnavailable.code(), 50001);
    assert_eq!(StatusCode::DatabaseError.code(), 50002);
    assert_eq!(StatusCode::ThirdPartyError.code(), 50200);
    assert_eq!(StatusCode::ExternalApiError.code(), 50201);
    assert_eq!(u32::from(StatusCode::Unauthorized), 40100);
}

#[test]
fn error_constructors_carry_code_and_message() {
    let cases = [
        (StatusCode::param_error(), StatusCode::ParamError, "Parameter Error"),
        (StatusCode::unauthorized(), StatusCode::Unauthorized, "Unauthorized"),
        (StatusCode::token_expired(), StatusCode::TokenExpired, "Token Expired"),
        (StatusCode::token_invalid(), StatusCode::TokenInvalid, "Token Invalid"),
        (StatusCode::access_denied(), StatusCode::AccessDenied, "Access Denied"),
        (StatusCode::resource_not_found(), StatusCode::ResourceNotFound, "Resource Not Found"),
        (StatusCode::duplicate_resource(), StatusCode::DuplicateResource, "Duplicate Resource"),
        (StatusCode::internal_error(), StatusCode::InternalError, "Internal Server Error"),
        (StatusCode::external_api_error(), StatusCode::ExternalApiError, "External API Error"),
    ];
    for (response, code, message) in cases {
        assert!(!response.success);
        assert_eq!(response.code, code);
        assert_eq!(response.message, message);
    }
}

#[test]
fn request_id_is_the_timestamp_in_decimal() {
    assert_eq!(BaseResponse::request_id_for(0), "0");
    assert_eq!(BaseResponse::request_id_for(7), "7");
    assert_eq!(BaseResponse::request_id_for(1700000000123), "1700000000123");
    assert_eq!(BaseResponse::request_id_for(u64::MAX), "18446744073709551615");
    let response = StatusCode::not_found();
    assert_eq!(response.request_id, response.timestamp.to_string());
    assert!(!BaseResponse::default_request_id().is_empty());
}

#[test]
fn field_detail_defaults_its_message() {
    let detail = ErrorDetail::for_field("username", None);
    assert_eq!(detail.field.as_deref(), Some("username"));
    assert_eq!(detail.message, "Validation error");
    let detail = ErrorDetail::for_field("email", Some("Email is invalid"));
    assert_eq!(detail.message, "Email is invalid");
}

#[test]
fn builders_keep_the_other_fields() {
    let response = StatusCode::forbidden();
    let timestamp = response.timestamp;
    let request_id = response.request_id.clone();
    let response = response.with_path("/users/list");
    assert_eq!(response.code, StatusCode::Forbidden);
    assert_eq!(response.message, "Forbidden");
    assert_eq!(response.timestamp, timestamp);
    assert_eq!(response.request_id, request_id);
    assert!(response.debug.is_none());
}

#[test]
fn http_status_follows_the_code() {
    assert_eq!(StatusCode::Success.http_status(), 200);
    assert_eq!(StatusCode::Created.http_status(), 201);
    assert_eq!(StatusCode::ValidationError.http_status(), 400);
    assert_eq!(StatusCode::TokenExpired.http_status(), 401);
    assert_eq!(StatusCode::AccessDenied.http_status(), 403);
    assert_eq!(StatusCode::DuplicateResource.http_status(), 409);
    assert_eq!(StatusCode::DatabaseError.http_status(), 500);
    assert_eq!(StatusCode::ExternalApiError.http_status(), 502);
}
