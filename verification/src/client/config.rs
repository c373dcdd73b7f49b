//! The configuration of a claiming session and its validation.

use vstd::prelude::*;

use crate::client::error::ConfigError;
use crate::text::same_text;

verus! {

/// The shortest poll interval that is accepted, in milliseconds.
pub const MIN_INTERVAL_MS: u64 = 100;

/// The task type of the ordinary mode, in which tasks are claimed by their
/// primary identifier.
pub const AUDIT_TASK: &'static str = "audittask";

/// The task type of the alternate mode, in which tasks are claimed by their
/// secondary identifier.
pub const PRODUCE_TASK: &'static str = "producetask";

/// What a session is run with. It is supplied once and never changed.
#[derive(Debug, Clone)]
pub struct AutoClaimConfig {
    /// The base address of the task service.
    pub server_base_url: String,
    /// The session credential, presented with every request.
    pub cookie: String,
    /// The task type: it names the listing path and selects the identifier
    /// that is submitted.
    pub task_type: String,
    /// The number of items that the session sets out to claim.
    pub claim_limit: i32,
    /// The time between two polls, in milliseconds.
    pub interval_ms: u64,
    /// The step that listed tasks are filtered by.
    pub step_id: i32,
    /// The subject that listed tasks are filtered by.
    pub subject_id: i32,
    /// The clue type that listed tasks are filtered by.
    pub clue_type_id: i32,
}

impl AutoClaimConfig {
    /// Whether the task type is one of the two known ones.
    pub open spec fn known_task_type(&self) -> bool {
        self.task_type@ == "audittask"@ || self.task_type@ == "producetask"@
    }

    /// The first rule that the configuration breaks, if any: the credential
    /// is not empty, the poll interval is not below the minimum, and the
    /// task type is a known one.
    pub open spec fn first_fault(&self) -> Option<ConfigError> {
        if self.cookie@.len() == 0 {
            Some(ConfigError::EmptyCookie)
        } else if self.interval_ms < MIN_INTERVAL_MS {
            Some(ConfigError::IntervalTooShort)
        } else if !self.known_task_type() {
            Some(ConfigError::UnknownTaskType)
        } else {
            None
        }
    }

    /// Accepts the configuration, or names the first rule that it breaks.
    pub fn validate(&self) -> (result: Result<(), ConfigError>)
        ensures
            match result {
                Ok(_) => self.first_fault() is None,
                Err(fault) => self.first_fault() == Some(fault),
            },
    {
        if self.cookie.as_str().is_empty() {
            Err(ConfigError::EmptyCookie)
        } else if self.interval_ms < MIN_INTERVAL_MS {
            Err(ConfigError::IntervalTooShort)
        } else if !same_text(self.task_type.as_str(), AUDIT_TASK) && !same_text(
            self.task_type.as_str(),
            PRODUCE_TASK,
        ) {
            Err(ConfigError::UnknownTaskType)
        } else {
            Ok(())
        }
    }
}

} // verus!
