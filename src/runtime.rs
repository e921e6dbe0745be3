use vstd::prelude::*;
use crate::text::{decimal, u32_to_decimal};

verus! {

/// The characters of each argument of a command line.
pub open spec fn argv_view(v: Seq<String>) -> Seq<Seq<char>> {
    v.map_values(|s: String| s@)
}

/// A flag that stands only when `on`.
pub open spec fn flag_if(on: bool, flag: Seq<char>) -> Seq<Seq<char>> {
    if on {
        seq![flag]
    } else {
        Seq::empty()
    }
}

/// An option with its value, present only when the value is.
pub open spec fn opt_arg(name: Seq<char>, value: Option<Seq<char>>) -> Seq<Seq<char>> {
    match value {
        Some(v) => seq![name, v],
        None => Seq::empty(),
    }
}

pub open spec fn opt_view(o: Option<&str>) -> Option<Seq<char>> {
    match o {
        Some(s) => Some(s@),
        None => None,
    }
}

fn push_arg(v: &mut Vec<String>, s: &str)
    ensures
        argv_view(final(v)@) == argv_view(old(v)@).push(s@),
{
    v.push(s.to_owned());
    assert(argv_view(final(v)@) =~= argv_view(old(v)@).push(s@));
}

fn push_flag_if(v: &mut Vec<String>, on: bool, flag: &str)
    ensures
        argv_view(final(v)@) == argv_view(old(v)@) + flag_if(on, flag@),
{
    if on {
        push_arg(v, flag);
    }
    assert(argv_view(final(v)@) =~= argv_view(old(v)@) + flag_if(on, flag@));
}

fn push_opt_arg(v: &mut Vec<String>, name: &str, value: Option<&str>)
    ensures
        argv_view(final(v)@) == argv_view(old(v)@) + opt_arg(name@, opt_view(value)),
{
    match value {
        Some(s) => {
            push_arg(v, name);
            push_arg(v, s);
        },
        None => {},
    }
    assert(argv_view(final(v)@) =~= argv_view(old(v)@) + opt_arg(name@, opt_view(value)));
}

/// `create --pid-file P [--no-pivot] [--no-new-keyring] [--console-socket S] <id>`
pub fn create_args(id: &str, pid_file: &str, no_pivot: bool, no_new_keyring: bool, console_socket: Option<&str>) -> (r: Vec<String>)
    ensures
        argv_view(r@) == seq!["create"@, "--pid-file"@, pid_file@] + flag_if(no_pivot, "--no-pivot"@)
            + flag_if(no_new_keyring, "--no-new-keyring"@) + opt_arg("--console-socket"@, opt_view(console_socket))
            + seq![id@],
{
    let mut v: Vec<String> = Vec::new();
    push_arg(&mut v, "create");
    push_arg(&mut v, "--pid-file");
    push_arg(&mut v, pid_file);
    push_flag_if(&mut v, no_pivot, "--no-pivot");
    push_flag_if(&mut v, no_new_keyring, "--no-new-keyring");
    push_opt_arg(&mut v, "--console-socket", console_socket);
    push_arg(&mut v, id);
    assert(argv_view(v@) =~= seq!["create"@, "--pid-file"@, pid_file@] + flag_if(no_pivot, "--no-pivot"@)
        + flag_if(no_new_keyring, "--no-new-keyring"@) + opt_arg("--console-socket"@, opt_view(console_socket))
        + seq![id@]);
    v
}

/// `start <id>`
pub fn start_args(id: &str) -> (r: Vec<String>)
    ensures
        argv_view(r@) == seq!["start"@, id@],
{
    let mut v: Vec<String> = Vec::new();
    push_arg(&mut v, "start");
    push_arg(&mut v, id);
    assert(argv_view(v@) =~= seq!["start"@, id@]);
    v
}

/// `kill [--all] <id> <signum>`
pub fn kill_args(id: &str, signal: u32, all: bool) -> (r: Vec<String>)
    ensures
        argv_view(r@) == seq!["kill"@] + flag_if(all, "--all"@) + seq![id@, decimal(signal as nat)],
{
    let mut v: Vec<String> = Vec::new();
    push_arg(&mut v, "kill");
    push_flag_if(&mut v, all, "--all");
    push_arg(&mut v, id);
    let signum = u32_to_decimal(signal);
    push_arg(&mut v, signum.as_str());
    assert(argv_view(v@) =~= seq!["kill"@] + flag_if(all, "--all"@) + seq![id@, decimal(signal as nat)]);
    v
}

/// `delete --force <id>`
pub fn delete_args(id: &str) -> (r: Vec<String>)
    ensures
        argv_view(r@) == seq!["delete"@, "--force"@, id@],
{
    let mut v: Vec<String> = Vec::new();
    push_arg(&mut v, "delete");
    push_arg(&mut v, "--force");
    push_arg(&mut v, id);
    assert(argv_view(v@) =~= seq!["delete"@, "--force"@, id@]);
    v
}

/// `exec [--detach] [--pid-file P] [--console-socket S] --process <spec.json> <id>`
pub fn exec_args(id: &str, detach: bool, pid_file: Option<&str>, console_socket: Option<&str>, process_spec: &str) -> (r: Vec<String>)
    ensures
        argv_view(r@) == seq!["exec"@] + flag_if(detach, "--detach"@) + opt_arg("--pid-file"@, opt_view(pid_file))
            + opt_arg("--console-socket"@, opt_view(console_socket)) + seq!["--process"@, process_spec@, id@],
{
    let mut v: Vec<String> = Vec::new();
    push_arg(&mut v, "exec");
    push_flag_if(&mut v, detach, "--detach");
    push_opt_arg(&mut v, "--pid-file", pid_file);
    push_opt_arg(&mut v, "--console-socket", console_socket);
    push_arg(&mut v, "--process");
    push_arg(&mut v, process_spec);
    push_arg(&mut v, id);
    assert(argv_view(v@) =~= seq!["exec"@] + flag_if(detach, "--detach"@) + opt_arg("--pid-file"@, opt_view(pid_file))
        + opt_arg("--console-socket"@, opt_view(console_socket)) + seq!["--process"@, process_spec@, id@]);
    v
}

/// `ps <id>`
pub fn ps_args(id: &str) -> (r: Vec<String>)
    ensures
        argv_view(r@) == seq!["ps"@, id@],
{
    let mut v: Vec<String> = Vec::new();
    push_arg(&mut v, "ps");
    push_arg(&mut v, id);
    assert(argv_view(v@) =~= seq!["ps"@, id@]);
    v
}

/// `name` joined onto the directory `base` as a path: an absolute `name`
/// replaces `base`; otherwise a `/` separates the two unless `base` is empty
/// or already ends in one.
pub open spec fn join_path(base: Seq<char>, name: Seq<char>) -> Seq<char> {
    if name.len() > 0 && name[0] == '/' {
        name
    } else if base.len() == 0 {
        name
    } else if base.last() == '/' {
        base + name
    } else {
        base + "/"@ + name
    }
}

/// Joins `name` onto the directory `base`.
pub fn join(base: &str, name: &str) -> (r: String)
    ensures
        r@ == join_path(base@, name@),
{
    let bn = base.unicode_len();
    if name.unicode_len() > 0 && name.get_char(0) == '/' {
        return name.to_owned();
    }
    if bn == 0 {
        return name.to_owned();
    }
    let mut p = base.to_owned();
    if base.get_char(bn - 1) != '/' {
        p.append("/");
    }
    p.append(name);
    p
}

/// `{bundle}/init.pid`, as a path join.
pub fn init_pid_path(bundle: &str) -> (r: String)
    ensures
        r@ == join_path(bundle@, "init.pid"@),
{
    join(bundle, "init.pid")
}

/// `{bundle}/{exec_id}.pid`, as a path join.
pub fn exec_pid_path(bundle: &str, exec_id: &str) -> (r: String)
    ensures
        r@ == join_path(bundle@, exec_id@ + ".pid"@),
{
    let mut name = exec_id.to_owned();
    name.append(".pid");
    join(bundle, name.as_str())
}

/// `{bundle}/work`, the default checkpoint work directory, as a path join.
pub fn work_dir_path(bundle: &str) -> (r: String)
    ensures
        r@ == join_path(bundle@, "work"@),
{
    join(bundle, "work")
}

/// The exit code that a raw `waitpid` status carries, for a normal exit.
pub open spec fn wait_exit_code(raw: i32) -> Option<i32> {
    if raw & 0x7f == 0 {
        Some((raw >> 8) & 0xff)
    } else {
        None
    }
}

/// The signal that ended the child, for a status that reports one.
pub open spec fn wait_term_signal(raw: i32) -> Option<i32> {
    if raw & 0x7f != 0 && raw & 0x7f != 0x7f {
        Some(raw & 0x7f)
    } else {
        None
    }
}

/// The exit code of a raw wait status, when the child exited normally.
pub fn exit_code_of(raw: i32) -> (r: Option<i32>)
    ensures
        r == wait_exit_code(raw),
{
    if raw & 0x7f == 0 {
        Some((raw >> 8) & 0xff)
    } else {
        None
    }
}

/// The terminating signal of a raw wait status, when a signal ended the child.
pub fn term_signal_of(raw: i32) -> (r: Option<i32>)
    ensures
        r == wait_term_signal(raw),
{
    let low = raw & 0x7f;
    if low != 0 && low != 0x7f {
        Some(low)
    } else {
        None
    }
}

/// What one runtime invocation gave: its output on success, its standard
/// error as the failure message otherwise. Success is a normal exit with 0.
pub fn command_outcome(raw_status: i32, stdout: String, stderr: String) -> (r: Result<String, String>)
    ensures
        wait_exit_code(raw_status) == Some(0i32) ==> r == Ok::<String, String>(stdout),
        wait_exit_code(raw_status) != Some(0i32) ==> r == Err::<String, String>(stderr),
{
    match exit_code_of(raw_status) {
        Some(0) => Ok(stdout),
        _ => Err(stderr),
    }
}

} // verus!
