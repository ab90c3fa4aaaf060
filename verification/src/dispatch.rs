//! The run loop's decisions: what each delivery from the watch asks of the
//! loop. The loop itself, which waits for deliveries and carries plans out,
//! belongs to the caller.

use crate::batch::{work_batch, FileEvent};
use crate::error::{Fault, ProcessingError};
use crate::process::{handle_events, is_outcome, Processor, Work};
use vstd::prelude::*;

verus! {

/// What the watch hands to the loop: the events of one debounce window, or
/// its failure.
#[derive(Debug)]
pub enum Delivery {
    Batch(Vec<FileEvent>),
    Failure,
}

/// Why a run ends.
#[derive(Debug, PartialEq, Eq)]
pub enum RunError {
    /// The watch failed.
    Watch,
    /// A batch could not be processed.
    Processing(ProcessingError),
}

/// What the loop does next.
#[derive(Debug, PartialEq, Eq)]
pub enum Next {
    /// Nothing: the delivery named no path. The loop waits on.
    Wait,
    /// The work of one batch, to be carried out before the loop waits on.
    Perform(Work),
    /// The run ends.
    Stop(RunError),
}

/// `next` is what a delivery asks of a loop bound to `processor`: a failure
/// of the watch ends the run; events that name no path ask for nothing;
/// other events ask for what the strategy plans for their batch, and end the
/// run where it plans nothing.
pub open spec fn is_next(processor: Processor, delivery: Delivery, next: Next) -> bool {
    match delivery {
        Delivery::Failure => next == Next::Stop(RunError::Watch),
        Delivery::Batch(events) => {
            let batch = work_batch(events.deep_view());
            if batch.len() == 0 {
                next == Next::Wait
            } else {
                match next {
                    Next::Perform(work) => is_outcome(processor, batch, Ok(work)),
                    Next::Stop(RunError::Processing(e)) => is_outcome(processor, batch, Err(e)),
                    _ => false,
                }
            }
        },
    }
}

/// Decides what a delivery asks of the loop.
pub fn on_delivery(processor: &Processor, delivery: &Delivery) -> (next: Next)
    ensures
        is_next(*processor, *delivery, next),
{
    match delivery {
        Delivery::Failure => Next::Stop(RunError::Watch),
        Delivery::Batch(events) => match handle_events(processor, events) {
            Ok(Some(work)) => Next::Perform(work),
            Ok(None) => Next::Wait,
            Err(e) => Next::Stop(RunError::Processing(e)),
        },
    }
}

/// What stops a piece of work, if anything does: the run ends with it once
/// the copies planned before it are made.
pub open spec fn work_failure(work: Work) -> Option<Fault> {
    match work {
        Work::Copies(plan) => plan@.failure,
        Work::OpticalDensity(_) => None,
    }
}

impl Work {
    /// What stops this work, if anything does.
    pub fn failure(&self) -> (failure: Option<ProcessingError>)
        ensures
            failure.deep_view() == work_failure(*self),
    {
        match self {
            Work::Copies(plan) => match &plan.failure {
                Some(e) => Some(e.clone()),
                None => None,
            },
            Work::OpticalDensity(_) => None,
        }
    }
}

} // verus!
