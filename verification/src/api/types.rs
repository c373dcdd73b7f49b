//! Decoded answers of the task service. Every answer is an envelope of a
//! status code (`errno`, zero for success), a message and a payload.

use vstd::prelude::*;

verus! {

/// A subject that tasks can be filtered by.
#[derive(Debug, Clone)]
pub struct Subject {
    pub id: i32,
    pub name: String,
}

/// One filter dimension with the values it offers.
#[derive(Debug, Clone)]
pub struct Filter {
    pub id: String,
    pub name: String,
    pub filter_type: String,
    pub list: Vec<Subject>,
}

/// The envelope around the filter dimensions.
#[derive(Debug)]
pub struct LabelResponse {
    pub errno: i32,
    pub errmsg: String,
    pub data: LabelData,
}

/// The filter dimensions that the service offers.
#[derive(Debug)]
pub struct LabelData {
    pub filter: Vec<Filter>,
}

/// One task as the service lists it. `task_id` is the primary identifier and
/// `clue_id` the secondary one; the other fields describe the task and play
/// no part in claiming.
#[derive(Debug, Clone)]
pub struct TaskItem {
    pub task_id: i32,
    pub clue_id: i32,
    pub brief: String,
    pub step: i32,
    pub subject: i32,
    pub state: i32,
    pub step_name: String,
    pub subject_name: String,
    pub clue_type: i32,
    pub clue_type_name: String,
    pub state_name: String,
    pub create_time: String,
    pub dispatch_time: Option<String>,
}

/// One page of listed tasks, in the order of the service, and the total count.
#[derive(Debug)]
pub struct TaskListData {
    pub total: i32,
    pub list: Vec<TaskItem>,
}

/// The envelope around a page of listed tasks.
#[derive(Debug)]
pub struct TaskListResponse {
    pub errno: i32,
    pub errmsg: String,
    pub data: TaskListData,
}

/// The answer to a claim submission. The payload is loosely structured: it
/// may be absent, and where it is an object it may hold an integer member
/// `success` that counts the granted items.
#[derive(Debug, Clone)]
pub struct ClaimResponse {
    pub errno: i32,
    pub errmsg: String,
    pub data: Option<serde_json::Value>,
}

/// What the service knows of the signed-in user.
#[derive(Debug)]
pub struct UserInfoData {
    pub role_links: Vec<String>,
    pub role_names: Vec<String>,
    pub user_name: String,
    pub avatar: String,
}

/// The envelope around the signed-in user.
#[derive(Debug)]
pub struct UserInfoResponse {
    pub errno: i32,
    pub errmsg: String,
    pub data: UserInfoData,
}

} // verus!
