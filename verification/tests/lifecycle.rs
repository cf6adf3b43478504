use launchctl::IoFailure;
use launchctl::LogStep;
use launchctl::Progress;
use launchctl::Reply;
use launchctl::Request;
use launchctl::RestartStep;
use launchctl::Service;
use launchctl::ServiceError;
use launchctl::StartStep;
use launchctl::StopStep;
use launchctl::Subcommand;

fn worker() -> Service {
    Service::builder().name("com.acme.worker").build()
}

fn run(args: &[&str]) -> Request {
    Request::Run {
        program: String::from("/bin/launchctl"),
        args: args.iter().map(|arg| String::from(*arg)).collect(),
    }
}

fn look_for(path: &str) -> Request {
    Request::FileExists { path: String::from(path) }
}

fn create(path: &str) -> Request {
    Request::CreateEmpty { path: String::from(path) }
}

fn denied() -> IoFailure {
    IoFailure { code: Some(13), message: String::from("Permission denied") }
}

fn not_found() -> IoFailure {
    IoFailure { code: Some(2), message: String::from("No such file or directory") }
}

const ERR_LOG: &str = "/tmp/com.acme.worker_501.err.log";
const OUT_LOG: &str = "/tmp/com.acme.worker_501.out.log";
const TARGET: &str = "gui/501/com.acme.worker";
const PLIST: &str = "~/Library/LaunchAgents/com.acme.worker.plist";

/// Plays a start against the replies given: the requests it made, and its
/// result if it ended. Fails if replies are left over.
fn play_start(service: &Service, replies: Vec<Reply>) -> (Vec<Request>, Option<Result<(), ServiceError>>) {
    let mut step = StartStep::first();
    let mut requests = Vec::new();
    let mut replies = replies.into_iter();
    loop {
        requests.push(service.start_request(&step));
        let Some(reply) = replies.next() else {
            return (requests, None);
        };
        match service.start(step, reply) {
            Progress::Next(next) => step = next,
            Progress::Done(result) => {
                assert!(replies.next().is_none());
                return (requests, Some(result));
            }
        }
    }
}

fn play_stop(service: &Service, replies: Vec<Reply>) -> (Vec<Request>, Option<Result<(), ServiceError>>) {
    let mut step = StopStep::first();
    let mut requests = Vec::new();
    let mut replies = replies.into_iter();
    loop {
        requests.push(service.stop_request(step));
        let Some(reply) = replies.next() else {
            return (requests, None);
        };
        match service.stop(step, reply) {
            Progress::Next(next) => step = next,
            Progress::Done(result) => {
                assert!(replies.next().is_none());
                return (requests, Some(result));
            }
        }
    }
}

fn play_restart(service: &Service, replies: Vec<Reply>) -> (Vec<Request>, Option<Result<(), ServiceError>>) {
    let mut step = RestartStep::first();
    let mut requests = Vec::new();
    let mut replies = replies.into_iter();
    loop {
        requests.push(service.restart_request(&step));
        let Some(reply) = replies.next() else {
            return (requests, None);
        };
        match service.restart(step, reply) {
            Progress::Next(next) => step = next,
            Progress::Done(result) => {
                assert!(replies.next().is_none());
                return (requests, Some(result));
            }
        }
    }
}

#[test]
fn cmd_runs_launchctl_from_bin() {
    assert_eq!(launchctl::command::launchctl(), "/bin/launchctl");
    match worker().cmd(Subcommand::Print) {
        Request::Run { program, .. } => assert_eq!(program, "/bin/launchctl"),
        other => panic!("not a command: {:?}", other),
    }
}

#[test]
fn cmd_arguments_of_each_subcommand() {
    let service = worker();
    assert_eq!(service.args(Subcommand::Print), vec!["print", TARGET]);
    assert_eq!(service.args(Subcommand::Enable), vec!["enable", TARGET]);
    assert_eq!(service.args(Subcommand::Bootstrap), vec!["bootstrap", "gui/501", PLIST]);
    assert_eq!(service.args(Subcommand::Kickstart), vec!["kickstart", PLIST]);
    assert_eq!(service.args(Subcommand::Bootout), vec!["bootout", "gui/501", PLIST]);
    assert_eq!(service.args(Subcommand::Kill), vec!["kill", "SIGTERM", TARGET]);
    assert_eq!(service.cmd(Subcommand::Kill), run(&["kill", "SIGTERM", TARGET]));
}

#[test]
fn cmd_uses_the_fields_as_they_are() {
    let service = Service::builder()
        .name("worker")
        .domain_target("domain")
        .service_target("target")
        .plist_path("/etc/worker.plist")
        .build();
    assert_eq!(service.cmd(Subcommand::Enable), run(&["enable", "target"]));
    assert_eq!(
        service.cmd(Subcommand::Bootstrap),
        run(&["bootstrap", "domain", "/etc/worker.plist"])
    );
    assert_eq!(service.cmd(Subcommand::Kickstart), run(&["kickstart", "/etc/worker.plist"]));
}

#[test]
fn is_bootstrapped_on_zero_exit() {
    assert_eq!(worker().is_bootstrapped(Reply::Completed(true)), Ok(true));
}

#[test]
fn is_bootstrapped_on_nonzero_exit() {
    assert_eq!(worker().is_bootstrapped(Reply::Completed(false)), Ok(false));
}

#[test]
fn is_bootstrapped_when_launchctl_cannot_run() {
    assert_eq!(
        worker().is_bootstrapped(Reply::Failed(not_found())),
        Err(ServiceError::Probe { name: String::from("com.acme.worker"), cause: not_found() })
    );
}

#[test]
fn verdict_of_each_reply() {
    assert_eq!(launchctl::lifecycle::verdict(Subcommand::Enable, Reply::Completed(true)), Ok(()));
    assert_eq!(
        launchctl::lifecycle::verdict(Subcommand::Enable, Reply::Completed(false)),
        Err(ServiceError::Exit(Subcommand::Enable))
    );
    assert_eq!(
        launchctl::lifecycle::verdict(Subcommand::Enable, Reply::Failed(denied())),
        Err(ServiceError::Io(denied()))
    );
}

#[test]
fn attempt_of_each_reply() {
    assert_eq!(launchctl::lifecycle::attempt(Reply::Completed(true)), Ok(()));
    assert_eq!(launchctl::lifecycle::attempt(Reply::Completed(false)), Ok(()));
    assert_eq!(
        launchctl::lifecycle::attempt(Reply::Failed(denied())),
        Err(ServiceError::Io(denied()))
    );
}

#[test]
fn log_requests_name_the_log_files() {
    let service = worker();
    assert_eq!(service.log_request(LogStep::FindErrorLog), look_for(ERR_LOG));
    assert_eq!(service.log_request(LogStep::WriteErrorLog), create(ERR_LOG));
    assert_eq!(service.log_request(LogStep::FindOutLog), look_for(OUT_LOG));
    assert_eq!(service.log_request(LogStep::WriteOutLog), create(OUT_LOG));
}

#[test]
fn create_log_files_step_by_step() {
    let service = worker();
    assert_eq!(LogStep::first(), LogStep::FindErrorLog);
    assert_eq!(
        service.create_log_files(LogStep::FindErrorLog, Reply::Completed(true)),
        Progress::Next(LogStep::FindOutLog)
    );
    assert_eq!(
        service.create_log_files(LogStep::FindErrorLog, Reply::Completed(false)),
        Progress::Next(LogStep::WriteErrorLog)
    );
    assert_eq!(
        service.create_log_files(LogStep::FindErrorLog, Reply::Failed(denied())),
        Progress::Next(LogStep::WriteErrorLog)
    );
    assert_eq!(
        service.create_log_files(LogStep::WriteErrorLog, Reply::Completed(true)),
        Progress::Next(LogStep::FindOutLog)
    );
    assert_eq!(
        service.create_log_files(LogStep::WriteErrorLog, Reply::Failed(denied())),
        Progress::Done(Err(ServiceError::Io(denied())))
    );
    assert_eq!(
        service.create_log_files(LogStep::FindOutLog, Reply::Completed(true)),
        Progress::Done(Ok(()))
    );
    assert_eq!(
        service.create_log_files(LogStep::FindOutLog, Reply::Completed(false)),
        Progress::Next(LogStep::WriteOutLog)
    );
    assert_eq!(
        service.create_log_files(LogStep::WriteOutLog, Reply::Completed(true)),
        Progress::Done(Ok(()))
    );
    assert_eq!(
        service.create_log_files(LogStep::WriteOutLog, Reply::Failed(denied())),
        Progress::Done(Err(ServiceError::Io(denied())))
    );
}

#[test]
fn start_of_unloaded_service_without_log_files() {
    let (requests, result) = play_start(
        &worker(),
        vec![
            Reply::Completed(false),
            Reply::Completed(true),
            Reply::Completed(false),
            Reply::Completed(true),
            Reply::Completed(false),
            Reply::Completed(true),
            Reply::Completed(true),
        ],
    );
    assert_eq!(
        requests,
        vec![
            look_for(ERR_LOG),
            create(ERR_LOG),
            look_for(OUT_LOG),
            create(OUT_LOG),
            run(&["print", TARGET]),
            run(&["enable", TARGET]),
            run(&["bootstrap", "gui/501", PLIST]),
        ]
    );
    assert_eq!(result, Some(Ok(())));
}

#[test]
fn start_leaves_log_files_that_exist() {
    let (requests, result) = play_start(
        &worker(),
        vec![
            Reply::Completed(true),
            Reply::Completed(true),
            Reply::Completed(false),
            Reply::Completed(true),
            Reply::Completed(true),
        ],
    );
    assert_eq!(
        requests,
        vec![
            look_for(ERR_LOG),
            look_for(OUT_LOG),
            run(&["print", TARGET]),
            run(&["enable", TARGET]),
            run(&["bootstrap", "gui/501", PLIST]),
        ]
    );
    assert_eq!(result, Some(Ok(())));
}

#[test]
fn start_of_loaded_service_kickstarts_by_plist() {
    let (requests, result) = play_start(
        &worker(),
        vec![
            Reply::Completed(true),
            Reply::Completed(false),
            Reply::Completed(true),
            Reply::Completed(true),
            Reply::Completed(true),
        ],
    );
    assert_eq!(
        requests,
        vec![
            look_for(ERR_LOG),
            look_for(OUT_LOG),
            create(OUT_LOG),
            run(&["print", TARGET]),
            run(&["kickstart", PLIST]),
        ]
    );
    assert_eq!(result, Some(Ok(())));
}

#[test]
fn start_fails_when_kickstart_exits_nonzero() {
    let (_, result) = play_start(
        &worker(),
        vec![
            Reply::Completed(true),
            Reply::Completed(true),
            Reply::Completed(true),
            Reply::Completed(false),
        ],
    );
    assert_eq!(result, Some(Err(ServiceError::Exit(Subcommand::Kickstart))));
}

#[test]
fn start_ends_when_a_log_file_cannot_be_written() {
    let (requests, result) =
        play_start(&worker(), vec![Reply::Completed(false), Reply::Failed(denied())]);
    assert_eq!(requests, vec![look_for(ERR_LOG), create(ERR_LOG)]);
    assert_eq!(result, Some(Err(ServiceError::Io(denied()))));

    let (requests, result) = play_start(
        &worker(),
        vec![Reply::Completed(true), Reply::Completed(false), Reply::Failed(denied())],
    );
    assert_eq!(requests, vec![look_for(ERR_LOG), look_for(OUT_LOG), create(OUT_LOG)]);
    assert_eq!(result, Some(Err(ServiceError::Io(denied()))));
}

#[test]
fn start_ends_when_the_probe_cannot_run() {
    let (requests, result) = play_start(
        &worker(),
        vec![Reply::Completed(true), Reply::Completed(true), Reply::Failed(not_found())],
    );
    assert_eq!(requests.len(), 3);
    assert_eq!(
        result,
        Some(Err(ServiceError::Probe {
            name: String::from("com.acme.worker"),
            cause: not_found()
        }))
    );
}

#[test]
fn start_bootstraps_after_failed_enable_and_reports_the_enable() {
    let (requests, result) = play_start(
        &worker(),
        vec![
            Reply::Completed(true),
            Reply::Completed(true),
            Reply::Completed(false),
            Reply::Completed(false),
            Reply::Completed(true),
        ],
    );
    assert_eq!(requests.len(), 5);
    assert_eq!(requests[3], run(&["enable", TARGET]));
    assert_eq!(requests[4], run(&["bootstrap", "gui/501", PLIST]));
    assert_eq!(result, Some(Err(ServiceError::Exit(Subcommand::Enable))));
}

#[test]
fn start_reports_the_first_of_two_failures() {
    let (_, result) = play_start(
        &worker(),
        vec![
            Reply::Completed(true),
            Reply::Completed(true),
            Reply::Completed(false),
            Reply::Failed(not_found()),
            Reply::Completed(false),
        ],
    );
    assert_eq!(result, Some(Err(ServiceError::Io(not_found()))));
}

#[test]
fn start_reports_a_failed_bootstrap() {
    let (_, result) = play_start(
        &worker(),
        vec![
            Reply::Completed(true),
            Reply::Completed(true),
            Reply::Completed(false),
            Reply::Completed(true),
            Reply::Completed(false),
        ],
    );
    assert_eq!(result, Some(Err(ServiceError::Exit(Subcommand::Bootstrap))));
}

#[test]
fn start_waits_for_each_reply() {
    let (requests, result) = play_start(&worker(), vec![]);
    assert_eq!(requests, vec![look_for(ERR_LOG)]);
    assert_eq!(result, None);
}

#[test]
fn stop_of_unloaded_service_succeeds_whatever_kill_says() {
    for signalled in [true, false] {
        let (requests, result) =
            play_stop(&worker(), vec![Reply::Completed(false), Reply::Completed(signalled)]);
        assert_eq!(
            requests,
            vec![run(&["print", TARGET]), run(&["kill", "SIGTERM", TARGET])]
        );
        assert_eq!(result, Some(Ok(())));
    }
}

#[test]
fn stop_of_unloaded_service_fails_when_kill_cannot_run() {
    let (_, result) =
        play_stop(&worker(), vec![Reply::Completed(false), Reply::Failed(not_found())]);
    assert_eq!(result, Some(Err(ServiceError::Io(not_found()))));
}

#[test]
fn stop_of_loaded_service_boots_it_out() {
    let (requests, result) =
        play_stop(&worker(), vec![Reply::Completed(true), Reply::Completed(true)]);
    assert_eq!(
        requests,
        vec![run(&["print", TARGET]), run(&["bootout", "gui/501", PLIST])]
    );
    assert_eq!(result, Some(Ok(())));
}

#[test]
fn stop_fails_when_bootout_fails() {
    let (_, result) = play_stop(&worker(), vec![Reply::Completed(true), Reply::Completed(false)]);
    assert_eq!(result, Some(Err(ServiceError::Exit(Subcommand::Bootout))));

    let (_, result) = play_stop(&worker(), vec![Reply::Completed(true), Reply::Failed(denied())]);
    assert_eq!(result, Some(Err(ServiceError::Io(denied()))));
}

#[test]
fn stop_ends_when_the_probe_cannot_run() {
    let (requests, result) = play_stop(&worker(), vec![Reply::Failed(not_found())]);
    assert_eq!(requests, vec![run(&["print", TARGET])]);
    assert_eq!(
        result,
        Some(Err(ServiceError::Probe {
            name: String::from("com.acme.worker"),
            cause: not_found()
        }))
    );
}

#[test]
fn restart_stops_then_starts() {
    let (requests, result) = play_restart(
        &worker(),
        vec![
            Reply::Completed(true),
            Reply::Completed(true),
            Reply::Completed(true),
            Reply::Completed(true),
            Reply::Completed(false),
            Reply::Completed(true),
            Reply::Completed(true),
        ],
    );
    assert_eq!(
        requests,
        vec![
            run(&["print", TARGET]),
            run(&["bootout", "gui/501", PLIST]),
            look_for(ERR_LOG),
            look_for(OUT_LOG),
            run(&["print", TARGET]),
            run(&["enable", TARGET]),
            run(&["bootstrap", "gui/501", PLIST]),
        ]
    );
    assert_eq!(result, Some(Ok(())));
}

#[test]
fn restart_is_the_stop_followed_by_the_start() {
    let stop_replies = vec![Reply::Completed(false), Reply::Completed(false)];
    let start_replies = vec![
        Reply::Completed(false),
        Reply::Completed(true),
        Reply::Completed(true),
        Reply::Completed(true),
        Reply::Completed(false),
    ];
    let service = worker();
    let (stop_requests, stop_result) = play_stop(&service, stop_replies.clone());
    let (start_requests, start_result) = play_start(&service, start_replies.clone());
    let mut all_replies = stop_replies;
    all_replies.extend(start_replies);
    let (requests, result) = play_restart(&service, all_replies);

    assert_eq!(stop_result, Some(Ok(())));
    let mut expected = stop_requests;
    expected.extend(start_requests);
    assert_eq!(requests, expected);
    assert_eq!(result, start_result);
    assert_eq!(result, Some(Err(ServiceError::Exit(Subcommand::Kickstart))));
}

#[test]
fn restart_does_not_start_after_a_failed_stop() {
    let (requests, result) =
        play_restart(&worker(), vec![Reply::Completed(true), Reply::Completed(false)]);
    assert_eq!(
        requests,
        vec![run(&["print", TARGET]), run(&["bootout", "gui/501", PLIST])]
    );
    assert_eq!(result, Some(Err(ServiceError::Exit(Subcommand::Bootout))));

    let (requests, result) = play_restart(&worker(), vec![Reply::Failed(not_found())]);
    assert_eq!(requests.len(), 1);
    assert_eq!(
        result,
        Some(Err(ServiceError::Probe {
            name: String::from("com.acme.worker"),
            cause: not_found()
        }))
    );
}

#[test]
fn restart_step_by_step() {
    let service = worker();
    assert_eq!(RestartStep::first(), RestartStep::Stop(StopStep::Probe));
    assert_eq!(
        service.restart(RestartStep::Stop(StopStep::Probe), Reply::Completed(false)),
        Progress::Next(RestartStep::Stop(StopStep::Kill))
    );
    assert_eq!(
        service.restart(RestartStep::Stop(StopStep::Kill), Reply::Completed(false)),
        Progress::Next(RestartStep::Start(StartStep::Logs(LogStep::FindErrorLog)))
    );
    assert_eq!(
        service.restart(RestartStep::Start(StartStep::Enable), Reply::Completed(false)),
        Progress::Next(RestartStep::Start(StartStep::Bootstrap(Some(ServiceError::Exit(
            Subcommand::Enable
        )))))
    );
    assert_eq!(
        service.restart(RestartStep::Start(StartStep::Kickstart), Reply::Completed(true)),
        Progress::Done(Ok(()))
    );
}
