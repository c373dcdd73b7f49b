//! The claiming session: the requests it sends and the decisions it takes.

pub mod claimer;
pub mod config;
pub mod error;
pub mod http;
pub mod interpret;
pub mod session;

pub use error::{ClaimError, ConfigError, RequestFailure};
pub use http::{ClaimBody, HttpClient, HttpHeader, HttpMethod, HttpRequest, TaskListOptions};
pub use interpret::{interpret_claim, ClaimVerdict, PENDING_ITEMS_ERRNO};
pub use config::{AutoClaimConfig, AUDIT_TASK, MIN_INTERVAL_MS, PRODUCE_TASK};
pub use claimer::{
    select_batch, AttemptAction, AttemptEvent, AttemptNote, AutoClaimer, RunAction, RunEvent,
    RunPhase, RunStep, BACKOFF_MS, LIST_PAGE, LIST_PAGE_SIZE,
};
