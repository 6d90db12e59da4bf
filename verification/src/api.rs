//! What is exchanged with the log service: the records, the requests built for
//! it, and the reading of its replies.

pub mod client;
pub mod models;
pub mod sse;

pub use client::{ApiClient, ApiError, Endpoint, Reply, Request};
pub use models::{
    Application, ExportFormat, FilterCriteria, Log, LogFilters, LogLevel, LoginRequest,
    LoginResponse, LogsCountResponse,
};
