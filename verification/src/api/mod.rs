//! The records that the task service exchanges with its clients.

pub mod types;

pub use types::{
    ClaimResponse, Filter, LabelData, LabelResponse, Subject, TaskItem, TaskListData,
    TaskListResponse, UserInfoData, UserInfoResponse,
};
