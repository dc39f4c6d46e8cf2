//! Authentication core of a small user service: a duration parser for token
//! lifetimes, a signed-token service, password hashing, request
//! authentication, and the response envelopes the HTTP layer sends back.

pub mod auth;
pub mod clock;
pub mod config;
pub mod decimal;
pub mod duration;
pub mod jwt;
pub mod password;
pub mod response;

pub use auth::{authenticate, bearer_token, AuthError};
pub use config::{AppConfig, JwtConfig, PostgresConfig};
pub use duration::parse_expires_in;
pub use jwt::{Claims, JwtError, JwtService, TokenFailure};
pub use password::{hash_password, verify_password, PasswordError};
pub use response::{
    BaseResponse, ErrorDetail, ErrorResponse, PaginationData, PaginationInfo, PaginationResponse,
    StatusCode, SuccessResponse,
};
