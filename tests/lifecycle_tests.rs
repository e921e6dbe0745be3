use runc_shim::container::{Container, ExecRequest, RuncExecFactory};
use runc_shim::error::ErrorKind;
use runc_shim::lifecycle::{
    check_kill_error, classify_kill_error, conclude_launch, is_absence_report, next_launch_step, KillTarget, LaunchStep,
    RuncExecLifecycle,
    RuncInitLifecycle, ShimOptions,
};
use runc_shim::process::{ProcessKind, ProcessRecord, Status, Stdio};
use runc_shim::relay::{plan_relay, Side, Stream};

fn options() -> ShimOptions {
    ShimOptions {
        binary_name: "runc".to_string(),
        no_pivot_root: false,
        no_new_keyring: false,
        io_uid: 0,
        io_gid: 0,
        criu_path: String::new(),
    }
}

fn init_lifecycle() -> RuncInitLifecycle {
    RuncInitLifecycle::new("runc", options(), "/run/bundle")
}

fn exec_lifecycle() -> RuncExecLifecycle {
    RuncExecLifecycle {
        runtime: "runc".to_string(),
        bundle: "/run/bundle".to_string(),
        container_id: "c1".to_string(),
        io_uid: 0,
        io_gid: 0,
        spec: "{}".to_string(),
    }
}

fn ok_out() -> Result<String, String> {
    Ok(String::new())
}

#[test]
fn pipe_mode_happy_path() {
    let stdio = Stdio::new("/tmp/in", "/tmp/out", "/tmp/err", false);
    let plan = plan_relay(&stdio);
    assert_eq!(plan.len(), 3);
    assert_eq!(plan[1].stream, Stream::Stdout);
    assert_eq!(plan[1].fifo, "/tmp/out");
    assert_eq!(plan[1].side, Side::Pipe);
    let lc = init_lifecycle();
    let mut p = ProcessRecord::new("c1", ProcessKind::Init, stdio);
    let report = conclude_launch(false, &ok_out(), &Ok(None), "4242", "failed to create runc container: ");
    assert!(!report.clean_socket);
    assert_eq!(report.result.as_ref().unwrap(), &4242);
    lc.complete_create(&mut p, &report, None).unwrap();
    assert_eq!(p.pid, 4242);
    assert_eq!(p.state, Status::Created);
    lc.complete_start(&mut p, &ok_out()).unwrap();
    assert_eq!(p.state, Status::Running);
    let (waiters, tasks) = p.notify_exit(0, 1000);
    assert!(waiters.is_empty());
    assert!(tasks.is_empty());
    assert_eq!(p.state, Status::Stopped);
    assert_eq!(p.exit_code, 0);
    assert_eq!(p.exited_at, Some(1000));
}

#[test]
fn terminal_mode_happy_path() {
    let stdio = Stdio::new("/tmp/in", "/tmp/out", "", true);
    let plan = plan_relay(&stdio);
    assert_eq!(plan.len(), 2);
    assert!(plan.iter().all(|t| t.side == Side::Console && t.keep_alive));
    let lc = init_lifecycle();
    let mut p = ProcessRecord::new("c1", ProcessKind::Init, stdio);
    let report = conclude_launch(true, &ok_out(), &Ok(Some(9)), "77", "failed to create runc container: ");
    assert!(report.clean_socket);
    lc.complete_create(&mut p, &report, Some(9)).unwrap();
    assert_eq!(p.console, Some(9));
    assert_eq!(p.pid, 77);
}

#[test]
fn create_failure_rolls_back_socket() {
    let report = conclude_launch(
        true,
        &Err("exit status 1".to_string()),
        &Ok(None),
        "",
        "failed to create runc container: ",
    );
    assert!(report.clean_socket);
    let e = report.result.unwrap_err();
    assert_eq!(e.kind, ErrorKind::Runtime);
    assert_eq!(e.message, "failed to create runc container: exit status 1");
}

#[test]
fn relay_failure_and_bad_pid_file() {
    let relay = Err(runc_shim::error::ShimError::new(ErrorKind::Io, "open stdout"));
    let r = conclude_launch(false, &ok_out(), &relay, "12", "x: ");
    assert_eq!(r.result.unwrap_err().kind, ErrorKind::Io);
    let r = conclude_launch(false, &ok_out(), &Ok(None), "12\n", "x: ");
    assert_eq!(r.result.unwrap_err().kind, ErrorKind::Io);
    let r = conclude_launch(false, &ok_out(), &Ok(None), "-5", "x: ");
    assert!(r.result.is_err());
    let r = conclude_launch(false, &ok_out(), &Ok(None), "+31", "x: ");
    assert_eq!(r.result.unwrap(), 31);
}

#[test]
fn kill_before_start() {
    let lc = exec_lifecycle();
    let p = ProcessRecord::new("e1", ProcessKind::Exec, Stdio::new("", "", "", false));
    let e = lc.kill(&p, 9, false).unwrap_err();
    assert_eq!(e.kind, ErrorKind::FailedPrecondition);
    assert_eq!(e.message, "process not created");
}

#[test]
fn exec_kill_ignores_all() {
    let lc = exec_lifecycle();
    let mut p = ProcessRecord::new("e1", ProcessKind::Exec, Stdio::new("", "", "", false));
    p.pid = 300;
    p.state = Status::Running;
    assert_eq!(lc.kill(&p, 15, true).unwrap(), KillTarget { pid: 300, signal: 15 });
    assert_eq!(lc.kill(&p, 15, false).unwrap(), KillTarget { pid: 300, signal: 15 });
    assert_eq!(lc.kill(&p, 64, true).unwrap_err().kind, ErrorKind::InvalidArgument);
    assert_eq!(lc.kill(&p, 64, false).unwrap_err().message, "invalid signal");
    p.notify_exit(0, 5);
    let e = lc.kill(&p, 9, true).unwrap_err();
    assert_eq!(e.kind, ErrorKind::NotFound);
    assert_eq!(e.message, "process already finished");
}

#[test]
fn delete_when_runtime_reports_absence() {
    let lc = init_lifecycle();
    let mut p = ProcessRecord::new("c1", ProcessKind::Init, Stdio::new("", "", "", false));
    let (r, _, _) = lc.complete_delete(&mut p, &Err("container c1 Does Not Exist".to_string()));
    assert!(r.is_ok());
    assert_eq!(p.state, Status::Deleted);
    assert!(p.exit_signal.is_fired());
}

#[test]
fn delete_failure_still_fires_exit_signal() {
    let lc = init_lifecycle();
    let mut p = ProcessRecord::new("c1", ProcessKind::Init, Stdio::new("", "", "", false));
    let (r, _, _) = lc.complete_delete(&mut p, &Err("permission denied".to_string()));
    let e = r.unwrap_err();
    assert_eq!(e.kind, ErrorKind::Runtime);
    assert_eq!(e.message, "failed delete: permission denied");
    assert_eq!(p.state, Status::Created);
    assert!(p.exit_signal.is_fired());
}

#[test]
fn delete_idempotence() {
    let lc = init_lifecycle();
    let mut p = ProcessRecord::new("c1", ProcessKind::Init, Stdio::new("/i", "/o", "", false));
    assert!(!p.exit_signal.register(1));
    assert!(!p.exit_signal.register(2));
    let (r1, woken1, _) = lc.complete_delete(&mut p, &ok_out());
    let (r2, woken2, _) = lc.complete_delete(&mut p, &Err("container does not exist".to_string()));
    assert!(r1.is_ok());
    assert!(r2.is_ok());
    assert_eq!(woken1, vec![1, 2]);
    assert!(woken2.is_empty());
    assert!(p.exit_signal.register(3));
}

#[test]
fn kill_errors_are_classified() {
    let e = check_kill_error("OS: Process Already Finished");
    assert_eq!(e.kind, ErrorKind::NotFound);
    assert_eq!(e.message, "process already finished");
    let e = check_kill_error("container \"x\" does not exist");
    assert_eq!(e.kind, ErrorKind::NotFound);
    assert_eq!(e.message, "no such container");
    let e = check_kill_error("Boom");
    assert_eq!(e.kind, ErrorKind::Other);
    assert_eq!(e.message, "unknown error after kill: boom");
    assert_eq!(classify_kill_error("no such process").kind, ErrorKind::NotFound);
    assert_eq!(classify_kill_error("NO SUCH PROCESS").kind, ErrorKind::Other);
    assert!(is_absence_report("x does not exist"));
    assert!(!is_absence_report("x Does Not Exist"));
}

#[test]
fn init_start_and_kill_commands() {
    let lc = init_lifecycle();
    assert_eq!(lc.opts.criu_path, "/run/bundle/work");
    let mut p = ProcessRecord::new("c1", ProcessKind::Init, Stdio::new("", "", "", false));
    assert_eq!(lc.start_command(&p).unwrap(), vec!["start", "c1"]);
    assert_eq!(lc.kill_command(&p, 9, true).unwrap(), vec!["kill", "--all", "c1", "9"]);
    p.pid = 10;
    let e = lc.complete_start(&mut p, &Err("boom".to_string())).unwrap_err();
    assert_eq!(e.message, "failed start: boom");
    assert_eq!(p.state, Status::Created);
    assert_eq!(lc.ps_command(&p).unwrap_err().kind, ErrorKind::FailedPrecondition);
    lc.complete_start(&mut p, &ok_out()).unwrap();
    assert_eq!(lc.start_command(&p).unwrap_err().kind, ErrorKind::FailedPrecondition);
    assert_eq!(lc.cgroup_target(&p).unwrap(), 10);
    assert_eq!(lc.ps_command(&p).unwrap(), vec!["ps", "c1"]);
    assert_eq!(lc.complete_ps(&Ok(vec![3, 4])).unwrap(), vec![3u32, 4]);
    assert_eq!(lc.complete_kill(&Err("container not running".to_string())).unwrap_err().kind, ErrorKind::NotFound);
    let mut opts = options();
    opts.criu_path = "/criu".to_string();
    assert_eq!(RuncInitLifecycle::new("runc", opts, "/b").opts.criu_path, "/criu");
    assert_eq!(RuncInitLifecycle::new("runc", options(), "").opts.criu_path, "work");
}

#[test]
fn create_command_lines() {
    let mut opts = options();
    opts.no_pivot_root = true;
    let lc = RuncInitLifecycle::new("runc", opts, "/b/");
    let init = ProcessRecord::new("c1", ProcessKind::Init, Stdio::new("", "/o", "", true));
    assert_eq!(
        lc.create_command(&init, Some("/tmp/sock")),
        vec!["create", "--pid-file", "/b/init.pid", "--no-pivot", "--console-socket", "/tmp/sock", "c1"]
    );
    let ex = exec_lifecycle();
    let p = ProcessRecord::new("e1", ProcessKind::Exec, Stdio::new("", "", "", false));
    assert_eq!(
        ex.start_command(&p, None, "/tmp/spec.json").unwrap(),
        vec!["exec", "--detach", "--pid-file", "/run/bundle/e1.pid", "--process", "/tmp/spec.json", "c1"]
    );
}

#[test]
fn exec_start_and_unimplemented_ops() {
    let ex = exec_lifecycle();
    let mut p = ProcessRecord::new("e1", ProcessKind::Exec, Stdio::new("", "", "", false));
    let bad = conclude_launch(false, &Err("no".to_string()), &Ok(None), "", "failed to start runc exec: ");
    assert!(ex.complete_start(&mut p, &bad, None).is_err());
    assert_eq!(p.state, Status::Created);
    let good = conclude_launch(false, &ok_out(), &Ok(None), "55", "failed to start runc exec: ");
    ex.complete_start(&mut p, &good, None).unwrap();
    assert_eq!(p.state, Status::Running);
    assert_eq!(p.pid, 55);
    assert_eq!(ex.update(&p).unwrap_err().kind, ErrorKind::Unimplemented);
    assert_eq!(ex.update(&p).unwrap_err().message, "exec update");
    assert_eq!(ex.stats(&p).unwrap_err().kind, ErrorKind::Unimplemented);
    assert_eq!(ex.ps(&p).unwrap_err().kind, ErrorKind::Unimplemented);
    let (r, _, _) = ex.delete(&mut p);
    assert!(r.is_ok());
    assert_eq!(p.state, Status::Deleted);
}

#[test]
fn wait_and_exit_notification() {
    let mut p = ProcessRecord::new("c1", ProcessKind::Init, Stdio::new("", "", "", false));
    p.pid = 8;
    p.state = Status::Running;
    assert_eq!(p.wait(1), None);
    assert!(!p.exit_signal.register(7));
    let (w, t) = p.notify_exit(137, 50);
    assert_eq!(w, vec![1]);
    assert_eq!(t, vec![7]);
    assert_eq!(p.wait(2), Some(137));
    let (w, t) = p.notify_exit(1, 60);
    assert!(w.is_empty() && t.is_empty());
    assert_eq!(p.exit_code, 137);
    assert_eq!(p.exited_at, Some(50));
}

fn exec_request(exec_id: &str) -> ExecRequest {
    ExecRequest {
        id: "c1".to_string(),
        exec_id: exec_id.to_string(),
        stdin: String::new(),
        stdout: "/o".to_string(),
        stderr: String::new(),
        terminal: false,
        spec: "{}".to_string(),
    }
}

#[test]
fn container_exec_map() {
    let factory = RuncExecFactory { runtime: "runc".to_string(), bundle: "/b".to_string(), io_uid: 1, io_gid: 2 };
    let init = ProcessRecord::new("c1", ProcessKind::Init, Stdio::new("", "", "", false));
    let mut c = Container::new("c1", "/b", init, init_lifecycle(), factory);
    c.add_exec(&exec_request("e1")).unwrap();
    c.add_exec(&exec_request("e2")).unwrap();
    assert_eq!(c.add_exec(&exec_request("e1")).unwrap_err().kind, ErrorKind::AlreadyExists);
    assert_eq!(c.find_exec("e2"), Some(1));
    assert_eq!(c.processes[0].lifecycle.io_gid, 2);
    assert_eq!(c.processes[0].process.pid, 0);
    assert_eq!(c.processes[0].process.exit_code, 0);
    assert!(c.processes[0].process.console.is_none());
    assert!(c.processes[0].process.wait_notifiers.is_empty());
    assert!(!c.processes[0].process.exit_signal.is_fired());
    let removed = c.remove_exec("e1").unwrap();
    assert_eq!(removed.process.id, "e1");
    assert!(c.remove_exec("e1").is_none());
    c.add_exec(&exec_request("e3")).unwrap();
    let gone = c.take_execs_for_delete();
    assert_eq!(gone.len(), 2);
    assert!(gone.iter().all(|d| d.entry.process.state == Status::Deleted && d.entry.process.exit_signal.is_fired()));
    assert_eq!(gone[0].entry.process.id, "e2");
    assert_eq!(gone[1].entry.lifecycle.container_id, "c1");
    assert!(c.processes.is_empty());
}

#[test]
fn delete_releases_waiters() {
    let lc = init_lifecycle();
    let mut p = ProcessRecord::new("c1", ProcessKind::Init, Stdio::new("", "", "", false));
    p.pid = 12;
    p.state = Status::Running;
    assert_eq!(p.wait(4), None);
    assert_eq!(p.wait(5), None);
    let (r, _, released) = lc.complete_delete(&mut p, &Err("busy".to_string()));
    assert!(r.is_err());
    assert!(released.is_empty());
    assert_eq!(p.wait_notifiers, vec![4, 5]);
    let (r, _, released) = lc.complete_delete(&mut p, &ok_out());
    assert!(r.is_ok());
    assert_eq!(released, vec![4, 5]);
    assert!(p.wait_notifiers.is_empty());
    assert_eq!(p.wait(6), Some(0));
    assert!(p.wait_notifiers.is_empty());
    let ex = exec_lifecycle();
    let mut e = ProcessRecord::new("e1", ProcessKind::Exec, Stdio::new("", "", "", false));
    assert_eq!(e.wait(1), None);
    let (_, _, released) = ex.delete(&mut e);
    assert_eq!(released, vec![1]);
    assert_eq!(e.wait(2), Some(0));
}

#[test]
fn launch_steps_in_order() {
    let err: Result<String, String> = Err("x".to_string());
    assert_eq!(next_launch_step(&err, None), LaunchStep::Conclude);
    assert_eq!(next_launch_step(&ok_out(), None), LaunchStep::WireRelay);
    assert_eq!(next_launch_step(&ok_out(), Some(&Ok(None))), LaunchStep::ReadPidFile);
    let bad = Err(runc_shim::error::ShimError::new(ErrorKind::Io, "open"));
    assert_eq!(next_launch_step(&ok_out(), Some(&bad)), LaunchStep::Conclude);
}
