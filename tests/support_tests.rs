use runc_shim::monitor::{ExitEvent, ExitMonitor, Topic};
use runc_shim::relay::{copy_step, plan_relay, single_fd, CopyEvent, CopyStep, Stream};
use runc_shim::process::Stdio;
use runc_shim::runtime::{
    command_outcome, create_args, delete_args, exec_args, exec_pid_path, exit_code_of, init_pid_path, join, kill_args, ps_args,
    work_dir_path,
    term_signal_of,
};
use runc_shim::snapshot::{SnapshotCommit, SnapshotPrepare, SnapshotRemove};
use runc_shim::text::{contains, same_text};

#[test]
fn monitor_delivers_in_order() {
    let mut m = ExitMonitor::new();
    let a = m.subscribe(Topic::Pid);
    let b = m.subscribe(Topic::Exec);
    let c = m.subscribe(Topic::All);
    assert_ne!(a, b);
    m.notify(&ExitEvent::pid(10, 0));
    m.notify(&ExitEvent::pid(11, 256));
    m.notify(&ExitEvent::exec("c1", "e1", 3));
    assert_eq!(m.recv(a).unwrap().code_for_pid(10), Some(0));
    assert_eq!(m.recv(a).unwrap().code_for_pid(11), Some(256));
    assert!(m.recv(a).is_none());
    assert_eq!(m.recv(b).unwrap().exit_code, 3);
    assert!(m.recv(b).is_none());
    assert_eq!(m.recv(c).unwrap().code_for_pid(10), Some(0));
    assert!(m.unsubscribe(a));
    assert!(!m.unsubscribe(a));
    assert!(m.recv(a).is_none());
}

#[test]
fn monitor_full_queue_drops_oldest() {
    let mut m = ExitMonitor::new();
    let a = m.subscribe(Topic::Pid);
    for i in 0..130 {
        m.notify(&ExitEvent::pid(i, i));
    }
    assert_eq!(m.subs[0].queue.len(), 128);
    assert_eq!(m.recv(a).unwrap().code_for_pid(2), Some(2));
    assert_eq!(ExitEvent::pid(5, 1).code_for_pid(6), None);
}

#[test]
fn empty_stdio_path_is_not_wired() {
    let plan = plan_relay(&Stdio::new("", "/o", "", false));
    assert_eq!(plan.len(), 1);
    assert_eq!(plan[0].stream, Stream::Stdout);
    assert!(plan[0].keep_alive);
    assert!(plan_relay(&Stdio::new("", "", "", true)).is_empty());
    assert!(Stdio::new("", "", "", true).is_null());
    let plan = plan_relay(&Stdio::new("/i", "", "/e", true));
    assert_eq!(plan.len(), 1);
    assert_eq!(plan[0].stream, Stream::Stdin);
}

#[test]
fn keep_alive_on_output_fifos() {
    let plan = plan_relay(&Stdio::new("/i", "/o", "/e", false));
    assert!(!plan[0].keep_alive);
    assert!(plan[1].keep_alive);
    assert!(plan[2].keep_alive);
}

#[test]
fn copy_task_stops_on_exit_signal() {
    assert_eq!(copy_step(CopyEvent::ExitSignal), CopyStep::Finish);
    assert_eq!(copy_step(CopyEvent::Read(5)), CopyStep::WriteAndContinue);
    assert_eq!(copy_step(CopyEvent::Read(0)), CopyStep::Finish);
    assert_eq!(copy_step(CopyEvent::WriteFailed), CopyStep::Finish);
}

#[test]
fn one_descriptor_per_rights_message() {
    assert_eq!(single_fd(&vec![7]).unwrap(), 7);
    assert_eq!(single_fd(&vec![]).unwrap_err().kind, runc_shim::error::ErrorKind::Protocol);
    assert!(single_fd(&vec![3, 4]).is_err());
}

#[test]
fn runtime_command_lines() {
    assert_eq!(
        create_args("c", "/p", true, true, None),
        vec!["create", "--pid-file", "/p", "--no-pivot", "--no-new-keyring", "c"]
    );
    assert_eq!(kill_args("c", 15, false), vec!["kill", "c", "15"]);
    assert_eq!(delete_args("c"), vec!["delete", "--force", "c"]);
    assert_eq!(ps_args("c"), vec!["ps", "c"]);
    assert_eq!(
        exec_args("c", false, None, Some("/s"), "/spec"),
        vec!["exec", "--console-socket", "/s", "--process", "/spec", "c"]
    );
    assert_eq!(init_pid_path("/b"), "/b/init.pid");
    assert_eq!(init_pid_path("/b/"), "/b/init.pid");
    assert_eq!(init_pid_path(""), "init.pid");
    assert_eq!(exec_pid_path("/b", "e1"), "/b/e1.pid");
    assert_eq!(exec_pid_path("/b", "/abs"), "/abs.pid");
    assert_eq!(work_dir_path(""), "work");
    assert_eq!(work_dir_path("b/"), "b/work");
    assert_eq!(join("a", "b"), "a/b");
}

#[test]
fn wait_status_decoding() {
    assert_eq!(exit_code_of(0), Some(0));
    assert_eq!(exit_code_of(256), Some(1));
    assert_eq!(exit_code_of(9), None);
    assert_eq!(term_signal_of(9), Some(9));
    assert_eq!(term_signal_of(256), None);
    assert_eq!(command_outcome(0, "out".to_string(), "err".to_string()), Ok("out".to_string()));
    assert_eq!(command_outcome(256, "out".to_string(), "err".to_string()), Err("err".to_string()));
}

#[test]
fn text_helpers() {
    assert!(contains("hello world", "o w"));
    assert!(contains("abc", ""));
    assert!(!contains("ab", "abc"));
    assert!(same_text("é", "é"));
    assert!(!same_text("a", "b"));
}

#[test]
fn snapshot_prepare_fields() {
    let mut m = SnapshotPrepare::new();
    assert_eq!(m.get_key(), "");
    assert_eq!(m.compute_size(), 0);
    m.set_key("k1".to_string());
    m.set_parent("p".to_string());
    assert_eq!(m.get_key(), "k1");
    assert_eq!(m.compute_size(), 4 + 3);
    m.mut_parent().push_str("arent");
    assert_eq!(m.get_parent(), "parent");
    assert_eq!(m.take_key(), "k1");
    assert_eq!(m.get_key(), "");
    m.clear_parent();
    assert_eq!(m, SnapshotPrepare::default());
}

#[test]
fn snapshot_commit_and_remove_fields() {
    let mut c = SnapshotCommit::new();
    c.set_name("n".to_string());
    c.mut_key().push_str("kk");
    assert_eq!(c.get_name(), "n");
    assert_eq!(c.compute_size(), 4 + 3);
    assert_eq!(c.take_name(), "n");
    c.clear_key();
    assert_eq!(c.get_key(), "");
    let mut r = SnapshotRemove::new();
    r.set_key("x".repeat(200));
    assert_eq!(r.compute_size(), 1 + 2 + 200);
    assert_eq!(r.take_key().len(), 200);
    r.clear_key();
    assert_eq!(r.get_key(), "");
}

#[test]
fn snapshot_wire_encoding() {
    let mut m = SnapshotPrepare::new();
    assert_eq!(m.write_to_bytes(), Vec::<u8>::new());
    m.set_key("k1".to_string());
    m.set_parent("p".to_string());
    let bytes = m.write_to_bytes();
    assert_eq!(bytes, vec![0x0a, 2, b'k', b'1', 0x12, 1, b'p']);
    assert_eq!(bytes.len() as u32, m.compute_size());
    let mut c = SnapshotCommit::new();
    c.set_name("n".to_string());
    assert_eq!(c.write_to_bytes(), vec![0x12, 1, b'n']);
    let mut r = SnapshotRemove::new();
    r.set_key("x".repeat(200));
    let bytes = r.write_to_bytes();
    assert_eq!(&bytes[..3], &[0x0a, 0xc8, 0x01]);
    assert_eq!(bytes.len() as u32, r.compute_size());
}

#[test]
fn error_text() {
    let e = runc_shim::error::ShimError::new(runc_shim::error::ErrorKind::Io, "open stdout");
    assert_eq!(e.to_string(), "open stdout");
    assert_eq!(e.clone_error().kind, runc_shim::error::ErrorKind::Io);
}
