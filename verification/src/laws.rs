//! What holds of every service and every course of replies.

use crate::exchange::Progress;
use crate::exchange::Reply;
use crate::exchange::RequestView;
use crate::exchange::ServiceError;
use crate::exchange::Subcommand;
use crate::lifecycle::spec_failure;
use crate::lifecycle::spec_first_failure;
use crate::lifecycle::spec_verdict;
use crate::lifecycle::LogStep;
use crate::lifecycle::RestartStep;
use crate::lifecycle::StartStep;
use crate::lifecycle::StopStep;
use crate::run::Run;
use crate::service::spec_domain_target;
use crate::service::spec_error_log_path;
use crate::service::spec_out_log_path;
use crate::service::spec_plist_path;
use crate::service::spec_service_target;
use crate::service::Choices;
use crate::service::Service;
use vstd::prelude::*;

verus! {

/// A service built from its name alone belongs to user 501: its domain is
/// `gui/501`, its target `gui/501/<name>`, its property list
/// `~/Library/LaunchAgents/<name>.plist`, and its logs are
/// `/tmp/<name>_501.err.log` and `/tmp/<name>_501.out.log`.
pub proof fn lemma_defaults_from_name(name: Seq<char>)
    ensures
        Choices::named(name).resolve().name == name,
        Choices::named(name).resolve().uid == "501"@,
        Choices::named(name).resolve().domain_target == "gui/501"@,
        Choices::named(name).resolve().service_target == "gui/501/"@ + name,
        Choices::named(name).resolve().plist_path == "~/Library/LaunchAgents/"@ + name
            + ".plist"@,
        Choices::named(name).resolve().error_log_path == "/tmp/"@ + name + "_501.err.log"@,
        Choices::named(name).resolve().out_log_path == "/tmp/"@ + name + "_501.out.log"@,
{
    reveal_strlit("501");
    reveal_strlit("gui/");
    reveal_strlit("gui/501");
    reveal_strlit("/");
    reveal_strlit("gui/501/");
    reveal_strlit("_");
    reveal_strlit(".err.log");
    reveal_strlit(".out.log");
    reveal_strlit("_501.err.log");
    reveal_strlit("_501.out.log");
    let service = Choices::named(name).resolve();
    assert(service.domain_target =~= "gui/501"@);
    assert(service.service_target =~= "gui/501/"@ + name);
    assert(service.error_log_path =~= "/tmp/"@ + name + "_501.err.log"@);
    assert(service.out_log_path =~= "/tmp/"@ + name + "_501.out.log"@);
}

/// A user id set by hand, with nothing else, stands wherever a default asks
/// for the user id: in the domain, in the service target and in both log
/// paths. The name stays where it was, and the property list, which is made
/// from the name alone, is the one of the default user.
pub proof fn lemma_uid_reaches_every_default(name: Seq<char>, uid: Seq<char>)
    ensures
        ({
            let chosen = Choices { uid: Some(uid), ..Choices::named(name) };
            &&& chosen.resolve().name == name
            &&& chosen.resolve().uid == uid
            &&& chosen.resolve().domain_target == "gui/"@ + uid
            &&& chosen.resolve().service_target == "gui/"@ + uid + "/"@ + name
            &&& chosen.resolve().plist_path == Choices::named(name).resolve().plist_path
            &&& chosen.resolve().error_log_path == "/tmp/"@ + name + "_"@ + uid + ".err.log"@
            &&& chosen.resolve().out_log_path == "/tmp/"@ + name + "_"@ + uid + ".out.log"@
        }),
{
}

/// A field set by hand is the field of the service, whatever the others are.
pub proof fn lemma_choice_is_kept(choices: Choices)
    ensures
        choices.resolve().name == choices.name,
        choices.uid matches Some(uid) ==> choices.resolve().uid == uid,
        choices.domain_target matches Some(target) ==> choices.resolve().domain_target
            == target,
        choices.service_target matches Some(target) ==> choices.resolve().service_target
            == target,
        choices.plist_path matches Some(path) ==> choices.resolve().plist_path == path,
        choices.error_log_path matches Some(path) ==> choices.resolve().error_log_path == path,
        choices.out_log_path matches Some(path) ==> choices.resolve().out_log_path == path,
{
}

/// A default is made from the fields as they were resolved: the service
/// target from the domain target of the service, the log paths from its
/// user id.
pub proof fn lemma_defaults_follow_resolved_fields(choices: Choices)
    ensures
        choices.domain_target is None ==> choices.resolve().domain_target == spec_domain_target(
            choices.resolve().uid,
        ),
        choices.service_target is None ==> choices.resolve().service_target
            == spec_service_target(choices.resolve().domain_target, choices.name),
        choices.plist_path is None ==> choices.resolve().plist_path == spec_plist_path(
            choices.name,
        ),
        choices.error_log_path is None ==> choices.resolve().error_log_path
            == spec_error_log_path(choices.name, choices.resolve().uid),
        choices.out_log_path is None ==> choices.resolve().out_log_path == spec_out_log_path(
            choices.name,
            choices.resolve().uid,
        ),
{
}

/// The probe decides by the exit status alone: status zero means loaded, any
/// other status means not loaded, and neither is an error.
pub proof fn lemma_probe_status_is_the_answer(service: &Service, zero: bool)
    ensures
        service.spec_is_bootstrapped(Reply::Completed(zero)) == Ok::<bool, ServiceError>(zero),
{
}

/// Stopping a service that is not loaded asks for the probe and for the
/// signal, and succeeds whatever status the signalling exits with.
pub proof fn lemma_stop_of_unloaded_succeeds(service: &Service, signalled: bool)
    ensures
        service.spec_stop_run(
            StopStep::spec_first(),
            seq![Reply::Completed(false), Reply::Completed(signalled)],
        ) == (Run {
            requests: seq![
                service.spec_cmd(Subcommand::Print),
                service.spec_cmd(Subcommand::Kill),
            ],
            taken: 2,
            result: Some(Ok(())),
        }),
{
    let replies = seq![Reply::Completed(false), Reply::Completed(signalled)];
    let rest = replies.skip(1);
    assert(rest[0] == Reply::Completed(signalled));
    let last = service.spec_stop_run(StopStep::Kill, rest);
    assert(last == Run::ended(service.spec_cmd(Subcommand::Kill), Ok(())));
    let whole = service.spec_stop_run(StopStep::spec_first(), replies);
    assert(whole == last.after(service.spec_cmd(Subcommand::Print)));
    assert(whole.requests =~= seq![
        service.spec_cmd(Subcommand::Print),
        service.spec_cmd(Subcommand::Kill),
    ]);
}

/// Stopping a service that is loaded asks for the probe and for the
/// unloading, and is as good as the unloading.
pub proof fn lemma_stop_of_loaded_unloads(service: &Service, unloading: Reply)
    ensures
        service.spec_stop_run(StopStep::spec_first(), seq![Reply::Completed(true), unloading])
            == (Run {
            requests: seq![
                service.spec_cmd(Subcommand::Print),
                service.spec_cmd(Subcommand::Bootout),
            ],
            taken: 2,
            result: Some(spec_verdict(Subcommand::Bootout, unloading)),
        }),
{
    let replies = seq![Reply::Completed(true), unloading];
    let rest = replies.skip(1);
    assert(rest[0] == unloading);
    let last = service.spec_stop_run(StopStep::Bootout, rest);
    let whole = service.spec_stop_run(StopStep::spec_first(), replies);
    assert(whole == last.after(service.spec_cmd(Subcommand::Print)));
    assert(whole.requests =~= seq![
        service.spec_cmd(Subcommand::Print),
        service.spec_cmd(Subcommand::Bootout),
    ]);
}

/// The replies that lead past one log file: that it exists, or that it does
/// not and was then written.
pub open spec fn spec_log_file_replies(exists: bool) -> Seq<Reply> {
    if exists {
        seq![Reply::Completed(true)]
    } else {
        seq![Reply::Completed(false), Reply::Completed(true)]
    }
}

/// The requests that lead past a log file at `path`: whether it exists,
/// and, if it does not, to write it.
pub open spec fn spec_log_file_requests(path: Seq<char>, exists: bool) -> Seq<RequestView> {
    if exists {
        seq![RequestView::FileExists { path }]
    } else {
        seq![RequestView::FileExists { path }, RequestView::CreateEmpty { path }]
    }
}

/// From the probe on, starting a service that is not loaded runs exactly two
/// subcommands: `enable` on the service target, then `bootstrap` on the
/// domain target and the property list, whatever came of `enable`. Its
/// result is the first failure of the two; it succeeds if and only if both
/// exit with status zero.
pub proof fn lemma_start_of_unloaded_enables_then_loads(
    service: &Service,
    enabling: Reply,
    loading: Reply,
)
    ensures
        service.spec_start_run(StartStep::Probe, seq![Reply::Completed(false), enabling, loading])
            == (Run {
            requests: seq![
                service.spec_cmd(Subcommand::Print),
                service.spec_cmd(Subcommand::Enable),
                service.spec_cmd(Subcommand::Bootstrap),
            ],
            taken: 3,
            result: Some(
                spec_first_failure(
                    spec_failure(spec_verdict(Subcommand::Enable, enabling)),
                    spec_verdict(Subcommand::Bootstrap, loading),
                ),
            ),
        }),
        service.spec_start_run(
            StartStep::Probe,
            seq![Reply::Completed(false), enabling, loading],
        ).result == Some(Ok::<(), ServiceError>(())) <==> enabling == Reply::Completed(true)
            && loading == Reply::Completed(true),
        service.spec_args(Subcommand::Enable) == seq!["enable"@, service.service_target@],
        service.spec_args(Subcommand::Bootstrap) == seq![
            "bootstrap"@,
            service.domain_target@,
            service.plist_path@,
        ],
{
    let replies = seq![Reply::Completed(false), enabling, loading];
    let after_probe = replies.skip(1);
    let after_enable = after_probe.skip(1);
    assert(after_probe[0] == enabling);
    assert(after_enable[0] == loading);
    let enable_failure = spec_failure(spec_verdict(Subcommand::Enable, enabling));
    let third = service.spec_start_run(StartStep::Bootstrap(enable_failure), after_enable);
    let second = service.spec_start_run(StartStep::Enable, after_probe);
    assert(second == third.after(service.spec_cmd(Subcommand::Enable)));
    let whole = service.spec_start_run(StartStep::Probe, replies);
    assert(whole == second.after(service.spec_cmd(Subcommand::Print)));
    assert(whole.requests =~= seq![
        service.spec_cmd(Subcommand::Print),
        service.spec_cmd(Subcommand::Enable),
        service.spec_cmd(Subcommand::Bootstrap),
    ]);
}

/// From the probe on, starting a service that is loaded runs one subcommand,
/// `kickstart` on the property list, and is as good as that.
pub proof fn lemma_start_of_loaded_kickstarts(service: &Service, kicking: Reply)
    ensures
        service.spec_start_run(StartStep::Probe, seq![Reply::Completed(true), kicking]) == (Run {
            requests: seq![
                service.spec_cmd(Subcommand::Print),
                service.spec_cmd(Subcommand::Kickstart),
            ],
            taken: 2,
            result: Some(spec_verdict(Subcommand::Kickstart, kicking)),
        }),
        service.spec_args(Subcommand::Kickstart) == seq!["kickstart"@, service.plist_path@],
{
    let replies = seq![Reply::Completed(true), kicking];
    let rest = replies.skip(1);
    assert(rest[0] == kicking);
    let last = service.spec_start_run(StartStep::Kickstart, rest);
    let whole = service.spec_start_run(StartStep::Probe, replies);
    assert(whole == last.after(service.spec_cmd(Subcommand::Print)));
    assert(whole.requests =~= seq![
        service.spec_cmd(Subcommand::Print),
        service.spec_cmd(Subcommand::Kickstart),
    ]);
}

/// Where a run goes on to a next step, it is the run from that step after
/// the first request; stated for a start, whose runs the other laws take
/// apart reply by reply.
proof fn lemma_start_run_unfolds(service: &Service, step: StartStep, replies: Seq<Reply>)
    requires
        replies.len() > 0,
    ensures
        service.spec_start_run(step, replies) == match service.spec_start(step, replies[0]) {
            Progress::Next(next) => service.spec_start_run(next, replies.skip(1)).after(
                service.spec_start_request(step),
            ),
            Progress::Done(result) => Run::ended(service.spec_start_request(step), result),
        },
{
}

/// A start first makes sure of both log files, the error log before the
/// output log: it asks whether the file exists and has it written only if
/// it does not. When both are there it goes on to the probe, and from the
/// probe as the replies that follow say.
pub proof fn lemma_start_creates_missing_log_files(
    service: &Service,
    error_log_exists: bool,
    out_log_exists: bool,
    later: Seq<Reply>,
)
    ensures
        ({
            let replies = spec_log_file_replies(error_log_exists) + spec_log_file_replies(
                out_log_exists,
            ) + later;
            let logs = Run {
                requests: spec_log_file_requests(service.error_log_path@, error_log_exists)
                    + spec_log_file_requests(service.out_log_path@, out_log_exists),
                taken: spec_log_file_replies(error_log_exists).len() + spec_log_file_replies(
                    out_log_exists,
                ).len(),
                result: None,
            };
            service.spec_start_run(StartStep::spec_first(), replies) == service.spec_start_run(
                StartStep::Probe,
                later,
            ).following(logs)
        }),
{
    let first = spec_log_file_replies(error_log_exists);
    let second = spec_log_file_replies(out_log_exists);
    let replies = first + second + later;
    let from_probe = service.spec_start_run(StartStep::Probe, later);
    let error_path = service.error_log_path@;
    let out_path = service.out_log_path@;

    // The output log, from the replies that are left when the error log is done.
    let out_replies = second + later;
    let from_out = service.spec_start_run(StartStep::Logs(LogStep::FindOutLog), out_replies);
    let out_run = Run {
        requests: spec_log_file_requests(out_path, out_log_exists),
        taken: second.len(),
        result: None,
    };
    if out_log_exists {
        assert(out_replies[0] == Reply::Completed(true));
        assert(out_replies.skip(1) =~= later);
        lemma_start_run_unfolds(service, StartStep::Logs(LogStep::FindOutLog), out_replies);
        assert(from_out.requests =~= out_run.requests + from_probe.requests);
    } else {
        assert(out_replies[0] == Reply::Completed(false));
        let written = out_replies.skip(1);
        assert(written[0] == Reply::Completed(true));
        assert(written.skip(1) =~= later);
        lemma_start_run_unfolds(service, StartStep::Logs(LogStep::FindOutLog), out_replies);
        lemma_start_run_unfolds(service, StartStep::Logs(LogStep::WriteOutLog), written);
        assert(from_out.requests =~= out_run.requests + from_probe.requests);
    }
    assert(from_out == from_probe.following(out_run));

    // The error log before it.
    let whole = service.spec_start_run(StartStep::spec_first(), replies);
    let error_run = Run {
        requests: spec_log_file_requests(error_path, error_log_exists),
        taken: first.len(),
        result: None,
    };
    if error_log_exists {
        assert(replies[0] == Reply::Completed(true));
        assert(replies.skip(1) =~= out_replies);
        lemma_start_run_unfolds(service, StartStep::spec_first(), replies);
        assert(whole.requests =~= error_run.requests + from_out.requests);
    } else {
        assert(replies[0] == Reply::Completed(false));
        let written = replies.skip(1);
        assert(written[0] == Reply::Completed(true));
        assert(written.skip(1) =~= out_replies);
        lemma_start_run_unfolds(service, StartStep::spec_first(), replies);
        lemma_start_run_unfolds(service, StartStep::Logs(LogStep::WriteErrorLog), written);
        assert(whole.requests =~= error_run.requests + from_out.requests);
    }
    assert(whole == from_out.following(error_run));
    assert(whole.requests =~= (error_run.requests + out_run.requests) + from_probe.requests);
}

/// Once a restart has come to its start, it runs as a start does.
pub proof fn lemma_restart_ends_as_start(service: &Service, step: StartStep, replies: Seq<Reply>)
    ensures
        service.spec_restart_run(RestartStep::Start(step), replies) == service.spec_start_run(
            step,
            replies,
        ),
    decreases replies.len(),
{
    if replies.len() > 0 {
        match service.spec_start(step, replies[0]) {
            Progress::Next(next) => {
                lemma_restart_ends_as_start(service, next, replies.skip(1));
            },
            Progress::Done(_) => {},
        }
    }
}

/// A restart is a stop and then a start, in that order. While the stop has
/// not ended, or when it has failed, the restart is that stop and no more:
/// nothing of a start is asked for, and the failure of the stop is the
/// result. When the stop has succeeded, a whole start follows on the
/// replies that are left, and its result is the result of the restart.
pub proof fn lemma_restart_is_stop_then_start(
    service: &Service,
    step: StopStep,
    replies: Seq<Reply>,
)
    ensures
        ({
            let stopped = service.spec_stop_run(step, replies);
            let restarted = service.spec_restart_run(RestartStep::Stop(step), replies);
            if stopped.result == Some(Ok::<(), ServiceError>(())) {
                restarted == service.spec_start_run(
                    StartStep::spec_first(),
                    replies.skip(stopped.taken as int),
                ).following(stopped)
            } else {
                restarted == stopped
            }
        }),
    decreases replies.len(),
{
    let stopped = service.spec_stop_run(step, replies);
    let restarted = service.spec_restart_run(RestartStep::Stop(step), replies);
    if replies.len() > 0 {
        let request = service.spec_stop_request(step);
        let rest = replies.skip(1);
        match service.spec_stop(step, replies[0]) {
            Progress::Next(next) => {
                lemma_restart_is_stop_then_start(service, next, rest);
                let stopped_rest = service.spec_stop_run(next, rest);
                if stopped.result == Some(Ok::<(), ServiceError>(())) {
                    let started = service.spec_start_run(
                        StartStep::spec_first(),
                        rest.skip(stopped_rest.taken as int),
                    );
                    lemma_stop_run_takes_what_is_there(service, next, rest);
                    assert(rest.skip(stopped_rest.taken as int) =~= replies.skip(
                        stopped.taken as int,
                    ));
                    assert(restarted.requests =~= stopped.requests + started.requests);
                }
            },
            Progress::Done(Ok(_)) => {
                lemma_restart_ends_as_start(service, StartStep::spec_first(), rest);
                let started = service.spec_start_run(StartStep::spec_first(), rest);
                assert(restarted.requests =~= stopped.requests + started.requests);
            },
            Progress::Done(Err(_)) => {},
        }
    }
}

/// A stop takes no more replies than there are.
proof fn lemma_stop_run_takes_what_is_there(service: &Service, step: StopStep, replies: Seq<Reply>)
    ensures
        service.spec_stop_run(step, replies).taken <= replies.len(),
    decreases replies.len(),
{
    if replies.len() > 0 {
        match service.spec_stop(step, replies[0]) {
            Progress::Next(next) => {
                lemma_stop_run_takes_what_is_there(service, next, replies.skip(1));
            },
            Progress::Done(_) => {},
        }
    }
}

} // verus!
