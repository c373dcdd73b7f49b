//! What can go wrong in a claiming session.

use vstd::prelude::*;
use vstd::string::StringExecFns;

verus! {

/// Why a request brought back no decoded answer.
#[derive(Debug, Clone, PartialEq, Eq)]
pub enum RequestFailure {
    /// The service could not be reached, or the exchange broke down.
    Transport(String),
    /// An answer came, but not in the shape of the expected envelope.
    Parse(String),
}

/// Why an attempt or the identity check failed.
#[derive(Debug, Clone, PartialEq, Eq)]
pub enum ClaimError {
    /// The listing or the claim submission brought back no decoded answer.
    Request(RequestFailure),
    /// The service answered the listing with a non-zero status.
    Listing { errno: i32, errmsg: String },
    /// The service answered the identity check with a non-zero status.
    Identity { errno: i32, errmsg: String },
    /// The identity check brought back no decoded answer.
    Credential(RequestFailure),
    /// An identifier to submit is not the decimal text of an unsigned number.
    InvalidId { id: String },
}

/// Why a session configuration is refused.
#[derive(Debug, Clone, Copy, PartialEq, Eq, Structural)]
pub enum ConfigError {
    /// The session credential is empty.
    EmptyCookie,
    /// The poll interval is below the smallest one allowed.
    IntervalTooShort,
    /// The task type is neither of the two known ones.
    UnknownTaskType,
}

impl RequestFailure {
    /// What the driver reported of the failure.
    pub open spec fn detail(self) -> Seq<char> {
        match self {
            RequestFailure::Transport(detail) => detail@,
            RequestFailure::Parse(detail) => detail@,
        }
    }

    /// The failure as a line for the operator: what the driver reported.
    pub fn message(&self) -> (text: String)
        ensures
            text@ == self.detail(),
    {
        match self {
            RequestFailure::Transport(detail) => detail.clone(),
            RequestFailure::Parse(detail) => detail.clone(),
        }
    }
}

impl ClaimError {
    /// The error as a line for the operator: a fixed prefix that names what
    /// failed, followed by the message of the service, the report of the
    /// driver, or the offending identifier. A failed listing or claim request
    /// is reported as the driver reported it.
    pub open spec fn message_text(self) -> Seq<char> {
        match self {
            ClaimError::Request(failure) => failure.detail(),
            ClaimError::Listing { errno, errmsg } => "获取任务列表失败: "@ + errmsg@,
            ClaimError::Identity { errno, errmsg } => "用户验证失败: "@ + errmsg@,
            ClaimError::Credential(failure) => "Cookie验证失败: "@ + failure.detail(),
            ClaimError::InvalidId { id } => "无效的任务ID: "@ + id@,
        }
    }

    /// The error as a line for the operator.
    pub fn message(&self) -> (text: String)
        ensures
            text@ == self.message_text(),
    {
        match self {
            ClaimError::Request(failure) => failure.message(),
            ClaimError::Listing { errno: _, errmsg } => {
                let mut text = String::from_str("获取任务列表失败: ");
                text.append(errmsg.as_str());
                text
            },
            ClaimError::Identity { errno: _, errmsg } => {
                let mut text = String::from_str("用户验证失败: ");
                text.append(errmsg.as_str());
                text
            },
            ClaimError::Credential(failure) => {
                let mut text = String::from_str("Cookie验证失败: ");
                let detail = failure.message();
                text.append(detail.as_str());
                text
            },
            ClaimError::InvalidId { id } => {
                let mut text = String::from_str("无效的任务ID: ");
                text.append(id.as_str());
                text
            },
        }
    }
}

impl ConfigError {
    /// The fault as a line for the operator.
    pub open spec fn message_text(self) -> Seq<char> {
        match self {
            ConfigError::EmptyCookie => "Cookie不能为空"@,
            ConfigError::IntervalTooShort => "轮询间隔不能小于0.1秒"@,
            ConfigError::UnknownTaskType => "任务类型必须是 audittask 或 producetask"@,
        }
    }

    /// The fault as a line for the operator.
    pub fn message(&self) -> (text: String)
        ensures
            text@ == self.message_text(),
    {
        match self {
            ConfigError::EmptyCookie => String::from_str("Cookie不能为空"),
            ConfigError::IntervalTooShort => String::from_str("轮询间隔不能小于0.1秒"),
            ConfigError::UnknownTaskType => String::from_str(
                "任务类型必须是 audittask 或 producetask",
            ),
        }
    }
}

} // verus!
