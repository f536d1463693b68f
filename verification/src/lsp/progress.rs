//! Reports on the progress of work, and the tokens that they travel under.

use vstd::prelude::*;
use crate::lsp::NumberOrString;

verus! {

/// The token that the reports on one piece of work travel under.
pub type ProgressToken = NumberOrString;

/// The options of a server that reports on the progress of its work.
#[derive(Debug, Default, Clone, Copy, PartialEq, Eq)]
pub struct WorkDoneProgressOptions {
    pub work_done_progress: Option<bool>,
}

/// The part of a request that asks for reports on the progress of work.
#[derive(Debug, Default, Clone, PartialEq, Eq)]
pub struct WorkDoneProgressParams {
    pub work_done_token: Option<ProgressToken>,
}

#[derive(Debug, PartialEq, Eq, Default, Clone)]
pub struct WorkDoneProgressBegin {
    /// Mandatory title of the progress operation.
    pub title: String,
    /// Controls if a cancel button should show to allow the user to cancel
    /// the long running operation.
    pub cancellable: Option<bool>,
    /// Optional, more detailed associated progress message.
    pub message: Option<String>,
    /// Optional progress percentage to display (value 100 is considered
    /// 100%).
    pub percentage: Option<u32>,
}

#[derive(Debug, PartialEq, Eq, Default, Clone)]
pub struct WorkDoneProgressReport {
    /// Controls if a cancel button should show to allow the user to cancel
    /// the long running operation.
    pub cancellable: Option<bool>,
    /// Optional, more detailed associated progress message.
    pub message: Option<String>,
    /// Optional progress percentage to display (value 100 is considered
    /// 100%).
    pub percentage: Option<u32>,
}

#[derive(Debug, PartialEq, Eq, Default, Clone)]
pub struct WorkDoneProgressEnd {
    /// Optional, more detailed associated progress message.
    pub message: Option<String>,
}

#[derive(Debug, PartialEq, Eq, Clone)]
pub enum WorkDoneProgress {
    Begin(WorkDoneProgressBegin),
    Report(WorkDoneProgressReport),
    End(WorkDoneProgressEnd),
}

} // verus!
