//! Background jobs.
use crate::error::StorageError;
use crate::machine::Step;
use crate::provider::SQLiteStorageProvider;
use vstd::prelude::*;

verus! {

/// A background job.
#[derive(Clone, Copy, Debug, PartialEq, Eq, Structural)]
pub enum BackgroundJobName {
    GsiUpdate,
    TtlSweep,
    StreamTrim,
    GsiBackfill,
    /// A job that this backend does not know.
    Other,
}

/// What a job needs done.
#[derive(Clone, Copy, Debug, PartialEq, Eq, Structural)]
pub enum JobAction {
    /// Bring indexes up to date by a batch.
    ProcessGsiUpdates,
    /// Forget the changes that are too old by now.
    TrimChangeMarkers,
    /// Remove a batch of expired items.
    RunTtlSweep,
    /// Trim a batch of streams.
    RunStreamTrim,
    /// Bring backfills on by a batch.
    ProcessGsiBackfills,
}

/// Why a step of a job failed: the error, and what it says.
pub struct JobFailure {
    pub error: StorageError,
    pub text: String,
}

/// What came of an action: whether it changed anything.
pub enum JobEvent {
    Progressed(Result<bool, JobFailure>),
    MarkersTrimmed(Result<(), StorageError>),
}

/// What a job does next.
pub type JobStep = Step<JobAction, JobAction, Result<(), StorageError>>;

/// The first action of a job, where it has one.
pub open spec fn first_action(name: BackgroundJobName, immediate_gsi_consistency: bool) -> Option<
    JobAction,
> {
    match name {
        BackgroundJobName::GsiUpdate => if immediate_gsi_consistency {
            None
        } else {
            Some(JobAction::ProcessGsiUpdates)
        },
        BackgroundJobName::TtlSweep => Some(JobAction::TrimChangeMarkers),
        BackgroundJobName::StreamTrim => Some(JobAction::RunStreamTrim),
        BackgroundJobName::GsiBackfill => Some(JobAction::ProcessGsiBackfills),
        BackgroundJobName::Other => None,
    }
}

/// Whether a job waits for an event after an action.
pub open spec fn job_awaits(awaited: JobAction, event: JobEvent) -> bool {
    if awaited == JobAction::TrimChangeMarkers {
        event is MarkersTrimmed
    } else {
        event is Progressed
    }
}

/// A step that asks for an action.
pub open spec fn asks_for(step: JobStep, wanted: JobAction) -> bool {
    step matches Step::Perform { state, action } && state == wanted && action == wanted
}

/// How a job goes on after an event: it starts over as long as there was something to
/// do. What the work on indexes fails with is told as an internal error.
pub open spec fn job_next(awaited: JobAction, event: JobEvent, step: JobStep) -> bool {
    match event {
        JobEvent::MarkersTrimmed(Ok(_)) => asks_for(step, JobAction::RunTtlSweep),
        JobEvent::MarkersTrimmed(Err(e)) => step matches Step::Finish(Err(out)) && out == e,
        JobEvent::Progressed(Ok(true)) => asks_for(
            step,
            if awaited == JobAction::RunTtlSweep {
                JobAction::TrimChangeMarkers
            } else {
                awaited
            },
        ),
        JobEvent::Progressed(Ok(false)) => step matches Step::Finish(Ok(_)),
        JobEvent::Progressed(Err(failure)) => step matches Step::Finish(Err(out)) && (
        if awaited == JobAction::ProcessGsiUpdates || awaited == JobAction::ProcessGsiBackfills {
            out.is_internal(failure.text@)
        } else {
            out == failure.error
        }),
    }
}

impl SQLiteStorageProvider {
    /// Starts a job. Where writes update indexes themselves, there is nothing to do for
    /// them; an unknown job is ignored.
    pub fn start_job(&self, name: BackgroundJobName) -> (r: JobStep)
        ensures
            match first_action(name, self.immediate_gsi_consistency) {
                Some(action) => asks_for(r, action),
                None => r matches Step::Finish(Ok(_)),
            },
    {
        let action = match name {
            BackgroundJobName::GsiUpdate => {
                if self.immediate_gsi_consistency {
                    return Step::Finish(Ok(()));
                }
                JobAction::ProcessGsiUpdates
            },
            BackgroundJobName::TtlSweep => JobAction::TrimChangeMarkers,
            BackgroundJobName::StreamTrim => JobAction::RunStreamTrim,
            BackgroundJobName::GsiBackfill => JobAction::ProcessGsiBackfills,
            BackgroundJobName::Other => {
                return Step::Finish(Ok(()));
            },
        };
        Step::Perform { state: action, action }
    }

    /// Runs a job.
    pub fn run_job(&self, awaited: JobAction, event: JobEvent) -> (r: JobStep)
        requires
            job_awaits(awaited, event),
        ensures
            job_next(awaited, event, r),
    {
        match event {
            JobEvent::MarkersTrimmed(Ok(())) => Step::Perform {
                state: JobAction::RunTtlSweep,
                action: JobAction::RunTtlSweep,
            },
            JobEvent::MarkersTrimmed(Err(e)) => Step::Finish(Err(e)),
            JobEvent::Progressed(Ok(progressed)) => {
                if !progressed {
                    return Step::Finish(Ok(()));
                }
                let action = if awaited == JobAction::RunTtlSweep {
                    JobAction::TrimChangeMarkers
                } else {
                    awaited
                };
                Step::Perform { state: action, action }
            },
            JobEvent::Progressed(Err(failure)) => {
                if awaited == JobAction::ProcessGsiUpdates || awaited
                    == JobAction::ProcessGsiBackfills {
                    Step::Finish(Err(StorageError::Internal { message: failure.text }))
                } else {
                    Step::Finish(Err(failure.error))
                }
            },
        }
    }
}

/// The time before which changes are forgotten.
pub fn change_marker_cutoff(now: i64, retention_ms: i64) -> (r: i64)
    ensures
        r == ({
            let cutoff = now - retention_ms;
            if cutoff < i64::MIN {
                i64::MIN as int
            } else if cutoff > i64::MAX {
                i64::MAX as int
            } else {
                cutoff
            }
        }),
{
    let cutoff: i128 = now as i128 - retention_ms as i128;
    if cutoff < i64::MIN as i128 {
        i64::MIN
    } else if cutoff > i64::MAX as i128 {
        i64::MAX
    } else {
        cutoff as i64
    }
}

/// A job ends well only where its last action found nothing to do.
pub proof fn law_job_ends_when_nothing_is_left(awaited: JobAction, event: JobEvent, step: JobStep)
    requires
        job_awaits(awaited, event),
        job_next(awaited, event, step),
    ensures
        step matches Step::Finish(Ok(_)) <==> event matches JobEvent::Progressed(Ok(false)),
{
}

} // verus!
