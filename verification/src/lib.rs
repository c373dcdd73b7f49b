//! Automated claiming of work items from a remote task-assignment service.
//!
//! The crate holds the decisions of a claiming session: how many items are
//! still needed, which identifiers are submitted, how an answer of the service
//! is counted, and when the polling loop stops. It performs no I/O: a driver
//! sends the requests that the library describes and hands the answers back.
//!
//! - [`api`]: the records that the service answers with
//! - [`client`]: the requests, the claim controller and the polling loop
//! - [`json`]: reading of loosely structured payloads
//! - [`text`]: decimal text of integers

pub mod api;
pub mod client;
pub mod json;
pub mod text;

pub use api::{
    ClaimResponse, Filter, LabelData, LabelResponse, Subject, TaskItem, TaskListData,
    TaskListResponse, UserInfoData, UserInfoResponse,
};
pub use client::{AutoClaimConfig, AutoClaimer, HttpClient};
