//! Response envelopes: every reply carries a success flag, a business status
//! code, a message, the time it was made and a request id.
use vstd::prelude::*;
use crate::clock::unix_millis;
use crate::decimal::{decimal, decimal_text};

verus! {

/// Business status codes. Successes are the HTTP codes; failures are five
/// digits, the HTTP code followed by a two-digit detail.
#[derive(Debug, Clone, Copy, PartialEq, Eq, Structural)]
pub enum StatusCode {
    Success,
    Created,
    Accepted,
    BadRequest,
    ValidationError,
    ParamError,
    Unauthorized,
    TokenExpired,
    TokenInvalid,
    Forbidden,
    AccessDenied,
    NotFound,
    ResourceNotFound,
    Conflict,
    DuplicateResource,
    InternalError,
    ServiceUnavailable,
    DatabaseError,
    ThirdPartyError,
    ExternalApiError,
}

impl StatusCode {
    /// The number that stands for the code on the wire.
    pub open spec fn value(self) -> u32 {
        match self {
            StatusCode::Success => 200,
            StatusCode::Created => 201,
            StatusCode::Accepted => 202,
            StatusCode::BadRequest => 40000,
            StatusCode::ValidationError => 40001,
            StatusCode::ParamError => 40002,
            StatusCode::Unauthorized => 40100,
            StatusCode::TokenExpired => 40101,
            StatusCode::TokenInvalid => 40102,
            StatusCode::Forbidden => 40300,
            StatusCode::AccessDenied => 40301,
            StatusCode::NotFound => 40400,
            StatusCode::ResourceNotFound => 40401,
            StatusCode::Conflict => 40900,
            StatusCode::DuplicateResource => 40901,
            StatusCode::InternalError => 50000,
            StatusCode::ServiceUnavailable => 50001,
            StatusCode::DatabaseError => 50002,
            StatusCode::ThirdPartyError => 50200,
            StatusCode::ExternalApiError => 50201,
        }
    }

    /// The number that stands for the code on the wire.
    pub fn code(self) -> (r: u32)
        ensures
            r == self.value(),
    {
        match self {
            StatusCode::Success => 200,
            StatusCode::Created => 201,
            StatusCode::Accepted => 202,
            StatusCode::BadRequest => 40000,
            StatusCode::ValidationError => 40001,
            StatusCode::ParamError => 40002,
            StatusCode::Unauthorized => 40100,
            StatusCode::TokenExpired => 40101,
            StatusCode::TokenInvalid => 40102,
            StatusCode::Forbidden => 40300,
            StatusCode::AccessDenied => 40301,
            StatusCode::NotFound => 40400,
            StatusCode::ResourceNotFound => 40401,
            StatusCode::Conflict => 40900,
            StatusCode::DuplicateResource => 40901,
            StatusCode::InternalError => 50000,
            StatusCode::ServiceUnavailable => 50001,
            StatusCode::DatabaseError => 50002,
            StatusCode::ThirdPartyError => 50200,
            StatusCode::ExternalApiError => 50201,
        }
    }
}

impl StatusCode {
    /// The HTTP status a reply with this code is sent with: the code itself
    /// for a success, its first three digits otherwise.
    pub fn http_status(self) -> (r: u16)
        ensures
            r == (if self.value() < 1000 { self.value() } else { self.value() / 100 }),
    {
        let c = self.code();
        if c < 1000 {
            c as u16
        } else {
            (c / 100) as u16
        }
    }
}

impl From<StatusCode> for u32 {
    fn from(code: StatusCode) -> (r: u32)
        ensures
            r == code.value(),
    {
        code.code()
    }
}

impl vstd::std_specs::convert::FromSpecImpl<StatusCode> for u32 {
    open spec fn obeys_from_spec() -> bool {
        true
    }

    open spec fn from_spec(code: StatusCode) -> u32 {
        code.value()
    }
}

/// Fields every envelope carries.
#[derive(Debug)]
pub struct BaseResponse {
    pub success: bool,
    pub code: StatusCode,
    pub message: String,
    pub timestamp: u64,
    pub request_id: String,
}

impl BaseResponse {
    /// Milliseconds since the Unix epoch, now.
    pub fn current_timestamp() -> u64 {
        unix_millis()
    }

    /// The request id for a reply made at `timestamp`: the timestamp in decimal.
    pub fn request_id_for(timestamp: u64) -> (r: String)
        ensures
            r@ == decimal(timestamp as nat),
            r@.len() > 0,
    {
        decimal_text(timestamp)
    }

    /// A request id made from the time now.
    pub fn default_request_id() -> (r: String)
        ensures
            exists|t: u64| r@ == decimal(t as nat),
            r@.len() > 0,
    {
        BaseResponse::request_id_for(BaseResponse::current_timestamp())
    }
}

/// A successful reply with an optional payload.
#[derive(Debug)]
pub struct SuccessResponse<T> {
    pub success: bool,
    pub code: StatusCode,
    pub message: String,
    pub timestamp: u64,
    pub request_id: String,
    pub data: Option<T>,
    pub version: Option<String>,
}

/// A failed reply, with optional field errors, request path and debug text.
#[derive(Debug)]
pub struct ErrorResponse {
    pub success: bool,
    pub code: StatusCode,
    pub message: String,
    pub timestamp: u64,
    pub request_id: String,
    pub errors: Option<Vec<ErrorDetail>>,
    pub path: Option<String>,
    pub debug: Option<String>,
}

/// What is wrong with one field of a request.
#[derive(Debug, Clone, PartialEq)]
pub struct ErrorDetail {
    pub field: Option<String>,
    pub message: String,
}

/// Where a page sits in a listing.
#[derive(Debug, Clone, Copy, PartialEq, Eq, Structural)]
pub struct PaginationInfo {
    pub page: u32,
    pub page_size: u32,
    pub total: u64,
    pub total_pages: u32,
}

/// A successful reply that holds one page of a listing.
#[derive(Debug)]
pub struct PaginationResponse<T> {
    pub success: bool,
    pub code: StatusCode,
    pub message: String,
    pub timestamp: u64,
    pub request_id: String,
    pub data: PaginationData<T>,
    pub version: Option<String>,
}

/// The items of a page and where the page sits.
#[derive(Debug)]
pub struct PaginationData<T> {
    pub list: Vec<T>,
    pub pagination: PaginationInfo,
}

impl ErrorDetail {
    /// The detail for a field that failed validation; without a message of
    /// its own it reads "Validation error".
    pub fn for_field(field: &str, message: Option<&str>) -> (r: ErrorDetail)
        ensures
            r.field matches Some(f) && f@ == field@,
            message matches Some(m) ==> r.message@ == m@,
            message is None ==> r.message@ == "Validation error"@,
    {
        let text = match message {
            Some(m) => String::from_str(m),
            None => String::from_str("Validation error"),
        };
        ErrorDetail { field: Some(String::from_str(field)), message: text }
    }
}

impl<T> SuccessResponse<T> {
    /// A new success reply, stamped now, with no version.
    pub open spec fn is_new(&self, code: StatusCode, message: Seq<char>, data: Option<T>) -> bool {
        &&& self.success
        &&& self.code == code
        &&& self.message@ == message
        &&& self.data == data
        &&& self.version is None
        &&& self.request_id@ == decimal(self.timestamp as nat)
    }

    /// A success reply with the given code, message and payload.
    pub fn new(code: StatusCode, message: &str, data: Option<T>) -> (r: Self)
        ensures
            r.is_new(code, message@, data),
    {
        let timestamp = BaseResponse::current_timestamp();
        SuccessResponse {
            success: true,
            code,
            message: String::from_str(message),
            timestamp,
            request_id: BaseResponse::request_id_for(timestamp),
            data,
            version: None,
        }
    }

    /// The same reply, marked with a version.
    pub fn with_version(self, version: &str) -> (r: Self)
        ensures
            r.version matches Some(v) && v@ == version@,
            r == (SuccessResponse { version: r.version, ..self }),
    {
        let mut r = self;
        r.version = Some(String::from_str(version));
        r
    }
}

impl ErrorResponse {
    /// A new error reply, stamped now, with no details.
    pub open spec fn is_new(&self, code: StatusCode, message: Seq<char>) -> bool {
        &&& !self.success
        &&& self.code == code
        &&& self.message@ == message
        &&& self.errors is None
        &&& self.path is None
        &&& self.debug is None
        &&& self.request_id@ == decimal(self.timestamp as nat)
    }

    /// An error reply with the given code and message.
    pub fn new(code: StatusCode, message: &str) -> (r: ErrorResponse)
        ensures
            r.is_new(code, message@),
    {
        let timestamp = BaseResponse::current_timestamp();
        ErrorResponse {
            success: false,
            code,
            message: String::from_str(message),
            timestamp,
            request_id: BaseResponse::request_id_for(timestamp),
            errors: None,
            path: None,
            debug: None,
        }
    }

    /// The same reply, with the given field errors.
    pub fn with_errors(self, errors: Vec<ErrorDetail>) -> (r: ErrorResponse)
        ensures
            r == (ErrorResponse { errors: Some(errors), ..self }),
    {
        let mut r = self;
        r.errors = Some(errors);
        r
    }

    /// The same reply, with the path of the request.
    pub fn with_path(self, path: &str) -> (r: ErrorResponse)
        ensures
            r.path matches Some(p) && p@ == path@,
            r == (ErrorResponse { path: r.path, ..self }),
    {
        let mut r = self;
        r.path = Some(String::from_str(path));
        r
    }

    /// The same reply, with text that helps debugging.
    pub fn with_debug(self, debug: &str) -> (r: ErrorResponse)
        ensures
            r.debug matches Some(d) && d@ == debug@,
            r == (ErrorResponse { debug: r.debug, ..self }),
    {
        let mut r = self;
        r.debug = Some(String::from_str(debug));
        r
    }
}

impl<T> PaginationResponse<T> {
    /// A page reply with the given code, message, items and position.
    pub fn new(code: StatusCode, message: &str, list: Vec<T>, pagination: PaginationInfo) -> (r: Self)
        ensures
            r.success,
            r.code == code,
            r.message@ == message@,
            r.data.list == list,
            r.data.pagination == pagination,
            r.version is None,
            r.request_id@ == decimal(r.timestamp as nat),
    {
        let timestamp = BaseResponse::current_timestamp();
        PaginationResponse {
            success: true,
            code,
            message: String::from_str(message),
            timestamp,
            request_id: BaseResponse::request_id_for(timestamp),
            data: PaginationData { list, pagination },
            version: None,
        }
    }

    /// The same reply, marked with a version.
    pub fn with_version(self, version: &str) -> (r: Self)
        ensures
            r.version matches Some(v) && v@ == version@,
            r == (PaginationResponse { version: r.version, ..self }),
    {
        let mut r = self;
        r.version = Some(String::from_str(version));
        r
    }
}

impl StatusCode {
    /// A `Success` reply reading "Success", with the given payload.
    pub fn success<T>(data: Option<T>) -> (r: SuccessResponse<T>)
        ensures
            r.is_new(StatusCode::Success, "Success"@, data),
    {
        SuccessResponse::new(StatusCode::Success, "Success", data)
    }

    /// A `Created` reply reading "Created", with the given payload.
    pub fn created<T>(data: Option<T>) -> (r: SuccessResponse<T>)
        ensures
            r.is_new(StatusCode::Created, "Created"@, data),
    {
        SuccessResponse::new(StatusCode::Created, "Created", data)
    }

    /// A `Accepted` reply reading "Accepted", with the given payload.
    pub fn accepted<T>(data: Option<T>) -> (r: SuccessResponse<T>)
        ensures
            r.is_new(StatusCode::Accepted, "Accepted"@, data),
    {
        SuccessResponse::new(StatusCode::Accepted, "Accepted", data)
    }

    /// A `BadRequest` reply reading "Bad Request".
    pub fn bad_request() -> (r: ErrorResponse)
        ensures
            r.is_new(StatusCode::BadRequest, "Bad Request"@),
    {
        ErrorResponse::new(StatusCode::BadRequest, "Bad Request")
    }

    /// A `ValidationError` reply reading "Validation Error".
    pub fn validation_error() -> (r: ErrorResponse)
        ensures
            r.is_new(StatusCode::ValidationError, "Validation Error"@),
    {
        ErrorResponse::new(StatusCode::ValidationError, "Validation Error")
    }

    /// A `ParamError` reply reading "Parameter Error".
    pub fn param_error() -> (r: ErrorResponse)
        ensures
            r.is_new(StatusCode::ParamError, "Parameter Error"@),
    {
        ErrorResponse::new(StatusCode::ParamError, "Parameter Error")
    }

    /// A `Unauthorized` reply reading "Unauthorized".
    pub fn unauthorized() -> (r: ErrorResponse)
        ensures
            r.is_new(StatusCode::Unauthorized, "Unauthorized"@),
    {
        ErrorResponse::new(StatusCode::Unauthorized, "Unauthorized")
    }

    /// A `TokenExpired` reply reading "Token Expired".
    pub fn token_expired() -> (r: ErrorResponse)
        ensures
            r.is_new(StatusCode::TokenExpired, "Token Expired"@),
    {
        ErrorResponse::new(StatusCode::TokenExpired, "Token Expired")
    }

    /// A `TokenInvalid` reply reading "Token Invalid".
    pub fn token_invalid() -> (r: ErrorResponse)
        ensures
            r.is_new(StatusCode::TokenInvalid, "Token Invalid"@),
    {
        ErrorResponse::new(StatusCode::TokenInvalid, "Token Invalid")
    }

    /// A `Forbidden` reply reading "Forbidden".
    pub fn forbidden() -> (r: ErrorResponse)
        ensures
            r.is_new(StatusCode::Forbidden, "Forbidden"@),
    {
        ErrorResponse::new(StatusCode::Forbidden, "Forbidden")
    }

    /// A `AccessDenied` reply reading "Access Denied".
    pub fn access_denied() -> (r: ErrorResponse)
        ensures
            r.is_new(StatusCode::AccessDenied, "Access Denied"@),
    {
        ErrorResponse::new(StatusCode::AccessDenied, "Access Denied")
    }

    /// A `NotFound` reply reading "Not Found".
    pub fn not_found() -> (r: ErrorResponse)
        ensures
            r.is_new(StatusCode::NotFound, "Not Found"@),
    {
        ErrorResponse::new(StatusCode::NotFound, "Not Found")
    }

    /// A `ResourceNotFound` reply reading "Resource Not Found".
    pub fn resource_not_found() -> (r: ErrorResponse)
        ensures
            r.is_new(StatusCode::ResourceNotFound, "Resource Not Found"@),
    {
        ErrorResponse::new(StatusCode::ResourceNotFound, "Resource Not Found")
    }

    /// A `Conflict` reply reading "Conflict".
    pub fn conflict() -> (r: ErrorResponse)
        ensures
            r.is_new(StatusCode::Conflict, "Conflict"@),
    {
        ErrorResponse::new(StatusCode::Conflict, "Conflict")
    }

    /// A `DuplicateResource` reply reading "Duplicate Resource".
    pub fn duplicate_resource() -> (r: ErrorResponse)
        ensures
            r.is_new(StatusCode::DuplicateResource, "Duplicate Resource"@),
    {
        ErrorResponse::new(StatusCode::DuplicateResource, "Duplicate Resource")
    }

    /// A `InternalError` reply reading "Internal Server Error".
    pub fn internal_error() -> (r: ErrorResponse)
        ensures
            r.is_new(StatusCode::InternalError, "Internal Server Error"@),
    {
        ErrorResponse::new(StatusCode::InternalError, "Internal Server Error")
    }

    /// A `ServiceUnavailable` reply reading "Service Unavailable".
    pub fn service_unavailable() -> (r: ErrorResponse)
        ensures
            r.is_new(StatusCode::ServiceUnavailable, "Service Unavailable"@),
    {
        ErrorResponse::new(StatusCode::ServiceUnavailable, "Service Unavailable")
    }

    /// A `DatabaseError` reply reading "Database Error".
    pub fn database_error() -> (r: ErrorResponse)
        ensures
            r.is_new(StatusCode::DatabaseError, "Database Error"@),
    {
        ErrorResponse::new(StatusCode::DatabaseError, "Database Error")
    }

    /// A `ThirdPartyError` reply reading "Third Party Error".
    pub fn third_party_error() -> (r: ErrorResponse)
        ensures
            r.is_new(StatusCode::ThirdPartyError, "Third Party Error"@),
    {
        ErrorResponse::new(StatusCode::ThirdPartyError, "Third Party Error")
    }

    /// A `ExternalApiError` reply reading "External API Error".
    pub fn external_api_error() -> (r: ErrorResponse)
        ensures
            r.is_new(StatusCode::ExternalApiError, "External API Error"@),
    {
        ErrorResponse::new(StatusCode::ExternalApiError, "External API Error")
    }
}

} // verus!
