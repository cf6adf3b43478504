//! Whole runs of an operation: what it asks for, and how it ends, when the
//! replies it will get are known beforehand.

use crate::exchange::Progress;
use crate::exchange::Reply;
use crate::exchange::RequestView;
use crate::exchange::ServiceError;
use crate::lifecycle::RestartStep;
use crate::lifecycle::StartStep;
use crate::lifecycle::StopStep;
use crate::service::Service;
use vstd::prelude::*;

verus! {

/// An operation as far as a list of replies takes it.
pub struct Run {
    /// The requests it made, in order. While it has no result, the last of
    /// them is still unanswered.
    pub requests: Seq<RequestView>,
    /// How many of the replies it took.
    pub taken: nat,
    /// Its result, if it came to an end.
    pub result: Option<Result<(), ServiceError>>,
}

impl Run {
    /// A run that has made its first request and waits for the reply.
    pub open spec fn waiting(request: RequestView) -> Run {
        Run { requests: seq![request], taken: 0, result: None }
    }

    /// A run that ended on the reply to its first request.
    pub open spec fn ended(request: RequestView, result: Result<(), ServiceError>) -> Run {
        Run { requests: seq![request], taken: 1, result: Some(result) }
    }

    /// This run, preceded by a request and the reply to it.
    pub open spec fn after(self, request: RequestView) -> Run {
        Run { requests: seq![request] + self.requests, taken: self.taken + 1, result: self.result }
    }

    /// This run, preceded by all of an earlier one that ended.
    pub open spec fn following(self, earlier: Run) -> Run {
        Run {
            requests: earlier.requests + self.requests,
            taken: earlier.taken + self.taken,
            result: self.result,
        }
    }
}

impl Service {
    /// The run of a stop from `step`, given the replies that will come.
    pub open spec fn spec_stop_run(&self, step: StopStep, replies: Seq<Reply>) -> Run
        decreases replies.len(),
    {
        if replies.len() == 0 {
            Run::waiting(self.spec_stop_request(step))
        } else {
            match self.spec_stop(step, replies[0]) {
                Progress::Next(next) => self.spec_stop_run(next, replies.skip(1)).after(
                    self.spec_stop_request(step),
                ),
                Progress::Done(result) => Run::ended(self.spec_stop_request(step), result),
            }
        }
    }

    /// The run of a start from `step`, given the replies that will come.
    pub open spec fn spec_start_run(&self, step: StartStep, replies: Seq<Reply>) -> Run
        decreases replies.len(),
    {
        if replies.len() == 0 {
            Run::waiting(self.spec_start_request(step))
        } else {
            match self.spec_start(step, replies[0]) {
                Progress::Next(next) => self.spec_start_run(next, replies.skip(1)).after(
                    self.spec_start_request(step),
                ),
                Progress::Done(result) => Run::ended(self.spec_start_request(step), result),
            }
        }
    }

    /// The run of a restart from `step`, given the replies that will come.
    pub open spec fn spec_restart_run(&self, step: RestartStep, replies: Seq<Reply>) -> Run
        decreases replies.len(),
    {
        if replies.len() == 0 {
            Run::waiting(self.spec_restart_request(step))
        } else {
            match self.spec_restart(step, replies[0]) {
                Progress::Next(next) => self.spec_restart_run(next, replies.skip(1)).after(
                    self.spec_restart_request(step),
                ),
                Progress::Done(result) => Run::ended(self.spec_restart_request(step), result),
            }
        }
    }
}

} // verus!
