//! Starting, stopping and restarting a service, one reply at a time.
//!
//! Each operation is a walk over steps. A step stands for one outstanding
//! request; the reply to it decides the step that follows, or the result the
//! operation ends with.

use crate::exchange::Progress;
use crate::exchange::Reply;
use crate::exchange::Request;
use crate::exchange::RequestView;
use crate::exchange::ServiceError;
use crate::exchange::Subcommand;
use crate::service::Service;
use vstd::prelude::*;

verus! {

/// The steps of making sure that both log files exist.
#[derive(Debug, Clone, Copy, PartialEq, Eq, Structural)]
pub enum LogStep {
    /// Asking whether the error log exists.
    FindErrorLog,
    /// Writing an empty error log.
    WriteErrorLog,
    /// Asking whether the output log exists.
    FindOutLog,
    /// Writing an empty output log.
    WriteOutLog,
}

/// The steps of starting a service.
#[derive(Debug, Clone, PartialEq, Eq)]
pub enum StartStep {
    /// Making sure that the log files exist.
    Logs(LogStep),
    /// Asking `launchctl` whether the service is loaded.
    Probe,
    /// Enabling a service that is not loaded.
    Enable,
    /// Loading the service, after an attempt to enable it that failed with
    /// the error held here, if it failed.
    Bootstrap(Option<ServiceError>),
    /// Kickstarting a service that is loaded.
    Kickstart,
}

/// The steps of stopping a service.
#[derive(Debug, Clone, Copy, PartialEq, Eq, Structural)]
pub enum StopStep {
    /// Asking `launchctl` whether the service is loaded.
    Probe,
    /// Signalling the process of a service that is not loaded.
    Kill,
    /// Unloading a service that is loaded.
    Bootout,
}

/// The steps of restarting a service: those of stopping it, then those of
/// starting it.
#[derive(Debug, Clone, PartialEq, Eq)]
pub enum RestartStep {
    Stop(StopStep),
    Start(StartStep),
}

/// What the reply to a subcommand means where only status zero is success:
/// any other status is a failure of that subcommand, and a program that could
/// not be run is an I/O failure.
pub open spec fn spec_verdict(subcommand: Subcommand, reply: Reply) -> Result<(), ServiceError> {
    match reply {
        Reply::Completed(zero) => if zero {
            Ok(())
        } else {
            Err(ServiceError::Exit(subcommand))
        },
        Reply::Failed(cause) => Err(ServiceError::Io(cause)),
    }
}

/// What the reply to a subcommand means where the exit status does not
/// count: only a program that could not be run is a failure.
pub open spec fn spec_attempt(reply: Reply) -> Result<(), ServiceError> {
    match reply {
        Reply::Completed(_) => Ok(()),
        Reply::Failed(cause) => Err(ServiceError::Io(cause)),
    }
}

/// The result of two subcommands run one after the other: the failure of
/// the first, if it failed, else the result of the second.
pub open spec fn spec_first_failure(
    first: Option<ServiceError>,
    second: Result<(), ServiceError>,
) -> Result<(), ServiceError> {
    match first {
        Some(error) => Err(error),
        None => second,
    }
}

/// The failure in a result, if it is one.
pub open spec fn spec_failure(result: Result<(), ServiceError>) -> Option<ServiceError> {
    match result {
        Ok(_) => None,
        Err(error) => Some(error),
    }
}

/// What the reply to a subcommand means where only status zero is success.
pub fn verdict(subcommand: Subcommand, reply: Reply) -> (result: Result<(), ServiceError>)
    ensures
        result == spec_verdict(subcommand, reply),
{
    match reply {
        Reply::Completed(zero) => {
            if zero {
                Ok(())
            } else {
                Err(ServiceError::Exit(subcommand))
            }
        },
        Reply::Failed(cause) => Err(ServiceError::Io(cause)),
    }
}

/// What the reply to a subcommand means where the exit status does not count.
pub fn attempt(reply: Reply) -> (result: Result<(), ServiceError>)
    ensures
        result == spec_attempt(reply),
{
    match reply {
        Reply::Completed(_) => Ok(()),
        Reply::Failed(cause) => Err(ServiceError::Io(cause)),
    }
}

impl LogStep {
    /// The step that making sure of the log files begins with.
    pub open spec fn spec_first() -> LogStep {
        LogStep::FindErrorLog
    }

    /// The step that making sure of the log files begins with.
    pub fn first() -> (step: LogStep)
        ensures
            step == LogStep::spec_first(),
    {
        LogStep::FindErrorLog
    }
}

impl StartStep {
    /// The step that a start begins with.
    pub open spec fn spec_first() -> StartStep {
        StartStep::Logs(LogStep::spec_first())
    }

    /// The step that a start begins with.
    pub fn first() -> (step: StartStep)
        ensures
            step == StartStep::spec_first(),
    {
        StartStep::Logs(LogStep::first())
    }
}

impl StopStep {
    /// The step that a stop begins with.
    pub open spec fn spec_first() -> StopStep {
        StopStep::Probe
    }

    /// The step that a stop begins with.
    pub fn first() -> (step: StopStep)
        ensures
            step == StopStep::spec_first(),
    {
        StopStep::Probe
    }
}

impl RestartStep {
    /// The step that a restart begins with: the first of a stop.
    pub open spec fn spec_first() -> RestartStep {
        RestartStep::Stop(StopStep::spec_first())
    }

    /// The step that a restart begins with.
    pub fn first() -> (step: RestartStep)
        ensures
            step == RestartStep::spec_first(),
    {
        RestartStep::Stop(StopStep::first())
    }
}

impl Service {
    /// The request that stands at a step of making sure of the log files.
    pub open spec fn spec_log_request(&self, step: LogStep) -> RequestView {
        match step {
            LogStep::FindErrorLog => RequestView::FileExists { path: self.error_log_path@ },
            LogStep::WriteErrorLog => RequestView::CreateEmpty { path: self.error_log_path@ },
            LogStep::FindOutLog => RequestView::FileExists { path: self.out_log_path@ },
            LogStep::WriteOutLog => RequestView::CreateEmpty { path: self.out_log_path@ },
        }
    }

    /// How making sure of the log files goes on after a reply. A file is
    /// written only if it is not known to exist, never over one that does;
    /// a file that cannot be written ends it with the I/O failure; it ends
    /// well once the output log is there.
    pub open spec fn spec_create_log_files(&self, step: LogStep, reply: Reply) -> Progress<
        LogStep,
    > {
        match step {
            LogStep::FindErrorLog => if reply == Reply::Completed(true) {
                Progress::Next(LogStep::FindOutLog)
            } else {
                Progress::Next(LogStep::WriteErrorLog)
            },
            LogStep::WriteErrorLog => match reply {
                Reply::Completed(_) => Progress::Next(LogStep::FindOutLog),
                Reply::Failed(cause) => Progress::Done(Err(ServiceError::Io(cause))),
            },
            LogStep::FindOutLog => if reply == Reply::Completed(true) {
                Progress::Done(Ok(()))
            } else {
                Progress::Next(LogStep::WriteOutLog)
            },
            LogStep::WriteOutLog => match reply {
                Reply::Completed(_) => Progress::Done(Ok(())),
                Reply::Failed(cause) => Progress::Done(Err(ServiceError::Io(cause))),
            },
        }
    }

    /// What the reply to the probe says: loaded if and only if `launchctl`
    /// exited with status zero. That it could not be run is an error that
    /// names the service.
    pub open spec fn spec_is_bootstrapped(&self, reply: Reply) -> Result<bool, ServiceError> {
        match reply {
            Reply::Completed(zero) => Ok(zero),
            Reply::Failed(cause) => Err(ServiceError::Probe { name: self.name, cause }),
        }
    }

    /// The request that stands at a step of a start.
    pub open spec fn spec_start_request(&self, step: StartStep) -> RequestView {
        match step {
            StartStep::Logs(log_step) => self.spec_log_request(log_step),
            StartStep::Probe => self.spec_cmd(Subcommand::Print),
            StartStep::Enable => self.spec_cmd(Subcommand::Enable),
            StartStep::Bootstrap(_) => self.spec_cmd(Subcommand::Bootstrap),
            StartStep::Kickstart => self.spec_cmd(Subcommand::Kickstart),
        }
    }

    /// How a start goes on after a reply. The log files come first, then the
    /// probe. A service that is not loaded is enabled and then loaded,
    /// whatever came of enabling it, and the first failure of the two is the
    /// result; a loaded one is kickstarted.
    pub open spec fn spec_start(&self, step: StartStep, reply: Reply) -> Progress<StartStep> {
        match step {
            StartStep::Logs(log_step) => match self.spec_create_log_files(log_step, reply) {
                Progress::Next(next) => Progress::Next(StartStep::Logs(next)),
                Progress::Done(Ok(_)) => Progress::Next(StartStep::Probe),
                Progress::Done(Err(error)) => Progress::Done(Err(error)),
            },
            StartStep::Probe => match self.spec_is_bootstrapped(reply) {
                Ok(loaded) => if loaded {
                    Progress::Next(StartStep::Kickstart)
                } else {
                    Progress::Next(StartStep::Enable)
                },
                Err(error) => Progress::Done(Err(error)),
            },
            StartStep::Enable => Progress::Next(
                StartStep::Bootstrap(spec_failure(spec_verdict(Subcommand::Enable, reply))),
            ),
            StartStep::Bootstrap(enable_failure) => Progress::Done(
                spec_first_failure(enable_failure, spec_verdict(Subcommand::Bootstrap, reply)),
            ),
            StartStep::Kickstart => Progress::Done(spec_verdict(Subcommand::Kickstart, reply)),
        }
    }

    /// The request that stands at a step of a stop.
    pub open spec fn spec_stop_request(&self, step: StopStep) -> RequestView {
        match step {
            StopStep::Probe => self.spec_cmd(Subcommand::Print),
            StopStep::Kill => self.spec_cmd(Subcommand::Kill),
            StopStep::Bootout => self.spec_cmd(Subcommand::Bootout),
        }
    }

    /// How a stop goes on after a reply. A loaded service is unloaded, and
    /// the stop is as good as the unloading. One that is not loaded is
    /// signalled in case it runs all the same, and whatever status the
    /// signalling exits with, the stop has succeeded.
    pub open spec fn spec_stop(&self, step: StopStep, reply: Reply) -> Progress<StopStep> {
        match step {
            StopStep::Probe => match self.spec_is_bootstrapped(reply) {
                Ok(loaded) => if loaded {
                    Progress::Next(StopStep::Bootout)
                } else {
                    Progress::Next(StopStep::Kill)
                },
                Err(error) => Progress::Done(Err(error)),
            },
            StopStep::Kill => Progress::Done(spec_attempt(reply)),
            StopStep::Bootout => Progress::Done(spec_verdict(Subcommand::Bootout, reply)),
        }
    }

    /// The request that stands at a step of a restart.
    pub open spec fn spec_restart_request(&self, step: RestartStep) -> RequestView {
        match step {
            RestartStep::Stop(stop_step) => self.spec_stop_request(stop_step),
            RestartStep::Start(start_step) => self.spec_start_request(start_step),
        }
    }

    /// How a restart goes on after a reply: as the stop does until it ends;
    /// with the failure of the stop, if it failed; else as a start does,
    /// from its first step to its result.
    pub open spec fn spec_restart(&self, step: RestartStep, reply: Reply) -> Progress<
        RestartStep,
    > {
        match step {
            RestartStep::Stop(stop_step) => match self.spec_stop(stop_step, reply) {
                Progress::Next(next) => Progress::Next(RestartStep::Stop(next)),
                Progress::Done(Ok(_)) => Progress::Next(RestartStep::Start(StartStep::spec_first())),
                Progress::Done(Err(error)) => Progress::Done(Err(error)),
            },
            RestartStep::Start(start_step) => match self.spec_start(start_step, reply) {
                Progress::Next(next) => Progress::Next(RestartStep::Start(next)),
                Progress::Done(result) => Progress::Done(result),
            },
        }
    }

    /// The request to make at a step of making sure of the log files.
    pub fn log_request(&self, step: LogStep) -> (request: Request)
        ensures
            request@ == self.spec_log_request(step),
    {
        match step {
            LogStep::FindErrorLog => Request::FileExists { path: self.error_log_path.clone() },
            LogStep::WriteErrorLog => Request::CreateEmpty { path: self.error_log_path.clone() },
            LogStep::FindOutLog => Request::FileExists { path: self.out_log_path.clone() },
            LogStep::WriteOutLog => Request::CreateEmpty { path: self.out_log_path.clone() },
        }
    }

    /// Takes the reply to the request of `step` and says how making sure of
    /// the log files goes on.
    pub fn create_log_files(&self, step: LogStep, reply: Reply) -> (progress: Progress<LogStep>)
        ensures
            progress == self.spec_create_log_files(step, reply),
    {
        let missing = match step {
            LogStep::FindErrorLog | LogStep::FindOutLog => match reply {
                Reply::Completed(exists) => !exists,
                Reply::Failed(_) => true,
            },
            LogStep::WriteErrorLog | LogStep::WriteOutLog => match reply {
                Reply::Completed(_) => false,
                Reply::Failed(cause) => {
                    return Progress::Done(Err(ServiceError::Io(cause)));
                },
            },
        };
        match step {
            LogStep::FindErrorLog => if missing {
                Progress::Next(LogStep::WriteErrorLog)
            } else {
                Progress::Next(LogStep::FindOutLog)
            },
            LogStep::WriteErrorLog => Progress::Next(LogStep::FindOutLog),
            LogStep::FindOutLog => if missing {
                Progress::Next(LogStep::WriteOutLog)
            } else {
                Progress::Done(Ok(()))
            },
            LogStep::WriteOutLog => Progress::Done(Ok(())),
        }
    }

    /// Reads the reply to the probe: whether the service is loaded.
    pub fn is_bootstrapped(&self, reply: Reply) -> (loaded: Result<bool, ServiceError>)
        ensures
            loaded == self.spec_is_bootstrapped(reply),
            reply matches Reply::Completed(zero) ==> loaded == Ok::<bool, ServiceError>(zero),
            reply matches Reply::Failed(cause) ==> loaded == Err::<bool, ServiceError>(
                ServiceError::Probe { name: self.name, cause },
            ),
    {
        match reply {
            Reply::Completed(zero) => Ok(zero),
            Reply::Failed(cause) => Err(ServiceError::Probe { name: self.name.clone(), cause }),
        }
    }

    /// The request to make at a step of a start.
    pub fn start_request(&self, step: &StartStep) -> (request: Request)
        ensures
            request@ == self.spec_start_request(*step),
    {
        match step {
            StartStep::Logs(log_step) => self.log_request(*log_step),
            StartStep::Probe => self.cmd(Subcommand::Print),
            StartStep::Enable => self.cmd(Subcommand::Enable),
            StartStep::Bootstrap(_) => self.cmd(Subcommand::Bootstrap),
            StartStep::Kickstart => self.cmd(Subcommand::Kickstart),
        }
    }

    /// Takes the reply to the request of `step` and says how the start goes on.
    pub fn start(&self, step: StartStep, reply: Reply) -> (progress: Progress<StartStep>)
        ensures
            progress == self.spec_start(step, reply),
    {
        match step {
            StartStep::Logs(log_step) => match self.create_log_files(log_step, reply) {
                Progress::Next(next) => Progress::Next(StartStep::Logs(next)),
                Progress::Done(Ok(_)) => Progress::Next(StartStep::Probe),
                Progress::Done(Err(error)) => Progress::Done(Err(error)),
            },
            StartStep::Probe => match self.is_bootstrapped(reply) {
                Ok(true) => Progress::Next(StartStep::Kickstart),
                Ok(false) => Progress::Next(StartStep::Enable),
                Err(error) => Progress::Done(Err(error)),
            },
            StartStep::Enable => match verdict(Subcommand::Enable, reply) {
                Ok(_) => Progress::Next(StartStep::Bootstrap(None)),
                Err(error) => Progress::Next(StartStep::Bootstrap(Some(error))),
            },
            StartStep::Bootstrap(enable_failure) => {
                let bootstrapped = verdict(Subcommand::Bootstrap, reply);
                match enable_failure {
                    Some(error) => Progress::Done(Err(error)),
                    None => Progress::Done(bootstrapped),
                }
            },
            StartStep::Kickstart => Progress::Done(verdict(Subcommand::Kickstart, reply)),
        }
    }

    /// The request to make at a step of a stop.
    pub fn stop_request(&self, step: StopStep) -> (request: Request)
        ensures
            request@ == self.spec_stop_request(step),
    {
        match step {
            StopStep::Probe => self.cmd(Subcommand::Print),
            StopStep::Kill => self.cmd(Subcommand::Kill),
            StopStep::Bootout => self.cmd(Subcommand::Bootout),
        }
    }

    /// Takes the reply to the request of `step` and says how the stop goes on.
    pub fn stop(&self, step: StopStep, reply: Reply) -> (progress: Progress<StopStep>)
        ensures
            progress == self.spec_stop(step, reply),
    {
        match step {
            StopStep::Probe => match self.is_bootstrapped(reply) {
                Ok(true) => Progress::Next(StopStep::Bootout),
                Ok(false) => Progress::Next(StopStep::Kill),
                Err(error) => Progress::Done(Err(error)),
            },
            StopStep::Kill => Progress::Done(attempt(reply)),
            StopStep::Bootout => Progress::Done(verdict(Subcommand::Bootout, reply)),
        }
    }

    /// The request to make at a step of a restart.
    pub fn restart_request(&self, step: &RestartStep) -> (request: Request)
        ensures
            request@ == self.spec_restart_request(*step),
    {
        match step {
            RestartStep::Stop(stop_step) => self.stop_request(*stop_step),
            RestartStep::Start(start_step) => self.start_request(start_step),
        }
    }

    /// Takes the reply to the request of `step` and says how the restart
    /// goes on.
    pub fn restart(&self, step: RestartStep, reply: Reply) -> (progress: Progress<RestartStep>)
        ensures
            progress == self.spec_restart(step, reply),
    {
        match step {
            RestartStep::Stop(stop_step) => match self.stop(stop_step, reply) {
                Progress::Next(next) => Progress::Next(RestartStep::Stop(next)),
                Progress::Done(Ok(_)) => Progress::Next(RestartStep::Start(StartStep::first())),
                Progress::Done(Err(error)) => Progress::Done(Err(error)),
            },
            RestartStep::Start(start_step) => match self.start(start_step, reply) {
                Progress::Next(next) => Progress::Next(RestartStep::Start(next)),
                Progress::Done(result) => Progress::Done(result),
            },
        }
    }
}

} // verus!
