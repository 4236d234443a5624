//! The install workflow's decisions: discover, download, validate, install,
//! with any failed stage ending the run.

use vstd::prelude::*;
use crate::download::DownloadStatus;

verus! {

/// Where an install run stands. `Done` and `Aborted` are final.
#[derive(Clone, Copy, Debug, PartialEq, Eq, Structural)]
pub enum WorkflowStage {
    Discover,
    Download,
    Validate,
    Install,
    Done,
    Aborted,
}

/// What the caller reports after performing the current stage.
#[derive(Clone, Copy, Debug, PartialEq, Eq, Structural)]
pub enum WorkflowEvent {
    /// The requested model was found among the discovered ones.
    ModelFound,
    /// No discovered model matched the request.
    ModelMissing,
    /// The download ended with this status.
    Downloaded(DownloadStatus),
    /// Validation gave this verdict.
    Validated(bool),
    /// The installation was written.
    Installed,
    /// The stage raised an error.
    StageFailed,
}

/// The stage after `event` is reported in `stage`: each stage moves on only
/// on its own success; anything else aborts, and final stages stay.
pub open spec fn next_stage_spec(stage: WorkflowStage, event: WorkflowEvent) -> WorkflowStage {
    match stage {
        WorkflowStage::Discover => if event == WorkflowEvent::ModelFound {
            WorkflowStage::Download
        } else {
            WorkflowStage::Aborted
        },
        WorkflowStage::Download => if event == WorkflowEvent::Downloaded(DownloadStatus::Completed) {
            WorkflowStage::Validate
        } else {
            WorkflowStage::Aborted
        },
        WorkflowStage::Validate => if event == WorkflowEvent::Validated(true) {
            WorkflowStage::Install
        } else {
            WorkflowStage::Aborted
        },
        WorkflowStage::Install => if event == WorkflowEvent::Installed {
            WorkflowStage::Done
        } else {
            WorkflowStage::Aborted
        },
        WorkflowStage::Done => WorkflowStage::Done,
        WorkflowStage::Aborted => WorkflowStage::Aborted,
    }
}

impl WorkflowStage {
    /// The stage that follows `event`.
    pub fn next(self, event: WorkflowEvent) -> (r: WorkflowStage)
        ensures
            r == next_stage_spec(self, event),
    {
        match self {
            WorkflowStage::Discover => match event {
                WorkflowEvent::ModelFound => WorkflowStage::Download,
                _ => WorkflowStage::Aborted,
            },
            WorkflowStage::Download => match event {
                WorkflowEvent::Downloaded(DownloadStatus::Completed) => WorkflowStage::Validate,
                _ => WorkflowStage::Aborted,
            },
            WorkflowStage::Validate => match event {
                WorkflowEvent::Validated(true) => WorkflowStage::Install,
                _ => WorkflowStage::Aborted,
            },
            WorkflowStage::Install => match event {
                WorkflowEvent::Installed => WorkflowStage::Done,
                _ => WorkflowStage::Aborted,
            },
            WorkflowStage::Done => WorkflowStage::Done,
            WorkflowStage::Aborted => WorkflowStage::Aborted,
        }
    }

    /// Whether the run has ended.
    pub fn is_final(self) -> (r: bool)
        ensures
            r == (self == WorkflowStage::Done || self == WorkflowStage::Aborted),
    {
        match self {
            WorkflowStage::Done | WorkflowStage::Aborted => true,
            _ => false,
        }
    }
}

/// Installation is reached only from validation with a valid verdict, and
/// completion only from installation; an aborted run stays aborted.
pub proof fn workflow_gates(stage: WorkflowStage, event: WorkflowEvent)
    ensures
        next_stage_spec(stage, event) == WorkflowStage::Install ==> stage == WorkflowStage::Validate
            && event == WorkflowEvent::Validated(true),
        next_stage_spec(stage, event) == WorkflowStage::Validate ==> stage
            == WorkflowStage::Download && event == WorkflowEvent::Downloaded(
            DownloadStatus::Completed,
        ),
        next_stage_spec(stage, event) == WorkflowStage::Done ==> stage == WorkflowStage::Install
            || stage == WorkflowStage::Done,
        stage == WorkflowStage::Aborted ==> next_stage_spec(stage, event)
            == WorkflowStage::Aborted,
{
}

} // verus!
