use launchctl::Service;

#[test]
fn creation_basic() {
    let service = Service::builder()
        .name("com.<owner name>.<binary name>")
        .build();

    assert_eq!(service.name, "com.<owner name>.<binary name>");
    assert_eq!(service.uid, "501");
    assert_eq!(service.domain_target, "gui/501");
    assert_eq!(
        service.service_target,
        "gui/501/com.<owner name>.<binary name>"
    );
    assert_eq!(
        service.plist_path,
        "~/Library/LaunchAgents/com.<owner name>.<binary name>.plist"
    );
    assert_eq!(
        service.error_log_path,
        "/tmp/com.<owner name>.<binary name>_501.err.log"
    );
    assert_eq!(
        service.out_log_path,
        "/tmp/com.<owner name>.<binary name>_501.out.log"
    );
}

#[test]
fn creation_advanced() {
    let service = Service::builder()
        .name("some weird unconventional name")
        .uid("401")
        .build();

    assert_eq!(service.name, "some weird unconventional name");
    assert_eq!(service.uid, "401");
    assert_eq!(service.domain_target, "gui/401");
    assert_eq!(
        service.service_target,
        "gui/401/some weird unconventional name"
    );
    assert_eq!(
        service.plist_path,
        "~/Library/LaunchAgents/some weird unconventional name.plist"
    );
    assert_eq!(
        service.error_log_path,
        "/tmp/some weird unconventional name_401.err.log"
    );
    assert_eq!(
        service.out_log_path,
        "/tmp/some weird unconventional name_401.out.log"
    );
}

#[test]
fn creation_of_acme_worker() {
    let service = Service::builder().name("com.acme.worker").build();

    assert_eq!(service.service_target, "gui/501/com.acme.worker");
    assert!(service.plist_path.ends_with("com.acme.worker.plist"));
    assert_eq!(service.plist_path, "~/Library/LaunchAgents/com.acme.worker.plist");
    assert_eq!(service.error_log_path, "/tmp/com.acme.worker_501.err.log");
    assert_eq!(service.out_log_path, "/tmp/com.acme.worker_501.out.log");
}

#[test]
fn creation_uid_before_name() {
    let early = Service::builder().uid("401").name("worker").build();
    let late = Service::builder().name("worker").uid("401").build();

    assert_eq!(early, late);
    assert_eq!(early.domain_target, "gui/401");
    assert_eq!(early.error_log_path, "/tmp/worker_401.err.log");
}

#[test]
fn creation_uid_leaves_name_and_plist() {
    let default = Service::builder().name("worker").build();
    let other = Service::builder().name("worker").uid("401").build();

    assert_eq!(other.name, default.name);
    assert_eq!(other.plist_path, default.plist_path);
    assert_ne!(other.domain_target, default.domain_target);
    assert_ne!(other.service_target, default.service_target);
    assert_ne!(other.error_log_path, default.error_log_path);
    assert_ne!(other.out_log_path, default.out_log_path);
}

#[test]
fn creation_domain_target_reaches_service_target() {
    let service = Service::builder()
        .name("worker")
        .domain_target("user/502")
        .build();

    assert_eq!(service.uid, "501");
    assert_eq!(service.domain_target, "user/502");
    assert_eq!(service.service_target, "user/502/worker");
    assert_eq!(service.error_log_path, "/tmp/worker_501.err.log");
}

#[test]
fn creation_every_field_set() {
    let service = Service::builder()
        .name("worker")
        .uid("7")
        .domain_target("domain")
        .service_target("target")
        .plist_path("/etc/worker.plist")
        .error_log_path("/var/log/worker.err")
        .out_log_path("/var/log/worker.out")
        .build();

    assert_eq!(
        service,
        Service {
            name: String::from("worker"),
            uid: String::from("7"),
            domain_target: String::from("domain"),
            service_target: String::from("target"),
            plist_path: String::from("/etc/worker.plist"),
            error_log_path: String::from("/var/log/worker.err"),
            out_log_path: String::from("/var/log/worker.out"),
        }
    );
}

#[test]
fn creation_later_fields_do_not_change_earlier_ones() {
    let service = Service::builder()
        .name("worker")
        .service_target("elsewhere/worker")
        .out_log_path("/dev/null")
        .build();

    assert_eq!(service.domain_target, "gui/501");
    assert_eq!(service.service_target, "elsewhere/worker");
    assert_eq!(service.error_log_path, "/tmp/worker_501.err.log");
    assert_eq!(service.out_log_path, "/dev/null");
}

#[test]
fn creation_setter_called_twice_keeps_the_last() {
    let service = Service::builder().name("worker").uid("1").uid("2").build();

    assert_eq!(service.uid, "2");
    assert_eq!(service.domain_target, "gui/2");
}

#[test]
fn creation_with_empty_name() {
    let service = Service::builder().name("").build();

    assert_eq!(service.name, "");
    assert_eq!(service.service_target, "gui/501/");
    assert_eq!(service.plist_path, "~/Library/LaunchAgents/.plist");
    assert_eq!(service.error_log_path, "/tmp/_501.err.log");
}

#[test]
fn templates_one_by_one() {
    assert_eq!(launchctl::service::default_uid(), "501");
    assert_eq!(launchctl::service::domain_target_for("9"), "gui/9");
    assert_eq!(launchctl::service::service_target_for("gui/9", "n"), "gui/9/n");
    assert_eq!(
        launchctl::service::plist_path_for("n"),
        "~/Library/LaunchAgents/n.plist"
    );
    assert_eq!(launchctl::service::error_log_path_for("n", "9"), "/tmp/n_9.err.log");
    assert_eq!(launchctl::service::out_log_path_for("n", "9"), "/tmp/n_9.out.log");
}
