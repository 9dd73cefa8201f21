use lib::error::ErrorKind;
use lib::fd::FileDesc;
use lib::env::parse_env_entry;
use lib::util::until_nul;
use lib::process::{
    exec_exit_code, null_device_options, resolve_stdio, share_pipe, spawn_result, Command, CommandDebugPart,
    ExitCode, ExitStatus, Stdio, StdioPlan,
};

fn base_env() -> Vec<(Vec<u8>, Vec<u8>)> {
    vec![
        (b"PATH".to_vec(), b"/bin".to_vec()),
        (b"HOME".to_vec(), b"/root".to_vec()),
        (b"LANG".to_vec(), b"C".to_vec()),
        (b"HOME".to_vec(), b"/home/u".to_vec()),
    ]
}

#[test]
fn new_command_has_the_program_as_first_argument() {
    let c = Command::new(b"ls");
    assert_eq!(c.get_program(), &b"ls".to_vec());
    let args = c.get_args();
    assert_eq!(args.len(), 0);
    assert!(args.is_empty());
    assert!(!c.get_env_clear());
    assert!(c.get_envs().is_empty());
    assert_eq!(c.get_current_dir(), None);
}

#[test]
fn args_after_the_program() {
    let mut c = Command::new(b"ls");
    c.arg(b"-l");
    c.arg(b"/tmp");
    let mut a = c.get_args();
    assert_eq!(a.len(), 2);
    assert_eq!(a.next(), Some(b"-l".to_vec()));
    assert_eq!(a.next(), Some(b"/tmp".to_vec()));
    assert_eq!(a.next(), None);
}

#[test]
fn env_changes_are_sorted_by_key() {
    let mut c = Command::new(b"x");
    c.env_mut().set(b"ZED", b"1");
    c.env_mut().set(b"ALPHA", b"2");
    c.env_mut().remove(b"MID");
    c.env_mut().set(b"ALPHA", b"3");
    assert_eq!(
        c.get_envs(),
        vec![
            (b"ALPHA".to_vec(), Some(b"3".to_vec())),
            (b"MID".to_vec(), None),
            (b"ZED".to_vec(), Some(b"1".to_vec())),
        ]
    );
}

#[test]
fn env_remove_after_clear_drops_the_change() {
    let mut c = Command::new(b"x");
    c.env_mut().set(b"A", b"1");
    c.env_mut().clear();
    c.env_mut().set(b"B", b"2");
    c.env_mut().remove(b"B");
    c.env_mut().remove(b"C");
    assert!(c.get_env_clear());
    assert!(c.get_envs().is_empty());
}

#[test]
fn have_changed_path() {
    let mut c = Command::new(b"x");
    assert!(!c.env_mut().have_changed_path());
    c.env_mut().set(b"PATHX", b"1");
    assert!(!c.env_mut().have_changed_path());
    c.env_mut().remove(b"PATH");
    assert!(c.env_mut().have_changed_path());
}

#[test]
fn resolved_env_applies_the_changes_to_the_inherited_one() {
    let mut c = Command::new(b"x");
    c.env_mut().set(b"LANG", b"de");
    c.env_mut().remove(b"PATH");
    c.env_mut().set(b"NEW", b"v");
    assert_eq!(
        c.get_resolved_envs(&base_env()),
        vec![
            (b"HOME".to_vec(), b"/home/u".to_vec()),
            (b"LANG".to_vec(), b"de".to_vec()),
            (b"NEW".to_vec(), b"v".to_vec()),
        ]
    );
}

#[test]
fn resolved_env_when_cleared() {
    let mut c = Command::new(b"x");
    c.env_mut().clear();
    c.env_mut().set(b"ONLY", b"1");
    assert_eq!(c.get_resolved_envs(&base_env()), vec![(b"ONLY".to_vec(), b"1".to_vec())]);
}

#[test]
fn resolved_env_unchanged_is_the_inherited_one_sorted() {
    let c = Command::new(b"x");
    assert_eq!(
        c.get_resolved_envs(&base_env()),
        vec![
            (b"HOME".to_vec(), b"/home/u".to_vec()),
            (b"LANG".to_vec(), b"C".to_vec()),
            (b"PATH".to_vec(), b"/bin".to_vec()),
        ]
    );
}

#[test]
fn capture_envp_none_when_unchanged() {
    let c = Command::new(b"x");
    assert_eq!(c.capture_envp(&base_env()).unwrap(), None);
}

#[test]
fn capture_envp_entries() {
    let mut c = Command::new(b"x");
    c.env_mut().clear();
    c.env_mut().set(b"B", b"2");
    c.env_mut().set(b"A", b"1");
    assert_eq!(c.capture_envp(&base_env()).unwrap(), Some(vec![b"A=1\0".to_vec(), b"B=2\0".to_vec()]));
}

#[test]
fn capture_envp_rejects_nul() {
    let mut c = Command::new(b"x");
    c.env_mut().set(b"A", b"1\x002");
    let e = c.capture_envp(&base_env()).unwrap_err();
    assert_eq!(e.kind(), ErrorKind::InvalidInput);
    assert_eq!(e.message(), Some("nul byte found in provided data"));
}

#[test]
fn cstring_args_and_saw_nul() {
    let mut c = Command::new(b"prog");
    c.arg(b"a");
    assert!(!c.saw_nul());
    let (p, a) = c.cstring_args().unwrap();
    assert_eq!(p, b"prog\0".to_vec());
    assert_eq!(a, vec![b"prog\0".to_vec(), b"a\0".to_vec()]);
    c.arg(b"b\0c");
    assert!(c.saw_nul());
    assert_eq!(c.cstring_args().unwrap_err().kind(), ErrorKind::InvalidInput);
}

#[test]
fn prepare_spawn_request() {
    let mut c = Command::new(b"/bin/sh");
    c.arg(b"-c");
    c.uid(7);
    c.stdout(Stdio::MakePipe);
    let req = c.prepare_spawn(&base_env()).unwrap();
    assert_eq!(req.program, b"/bin/sh\0".to_vec());
    assert_eq!(req.argv, vec![b"/bin/sh\0".to_vec(), b"-c\0".to_vec()]);
    assert!(req.envp.is_none());
    assert_eq!(req.uid, 7);
    assert_eq!(req.gid, 0);
    assert!(c.take_stdin().is_none());
    assert!(matches!(c.take_stdout(), Some(Stdio::MakePipe)));
    assert!(c.take_stdout().is_none());
    assert!(c.take_stderr().is_none());
}

#[test]
fn prepare_spawn_rejects_nul_in_program() {
    let c = Command::new(b"a\0b");
    let e = c.prepare_spawn(&base_env()).unwrap_err();
    assert_eq!(e.message(), Some("nul byte found in provided data"));
}

#[test]
fn spawn_cwd_cases() {
    let mut c = Command::new(b"x");
    assert_eq!(c.spawn_cwd().unwrap(), None);
    c.cwd(b"/srv");
    assert_eq!(c.get_current_dir(), Some(b"/srv".to_vec()));
    assert_eq!(c.spawn_cwd().unwrap(), Some(b"/srv\0".to_vec()));
    c.cwd(b"/s\0rv");
    assert_eq!(c.spawn_cwd().unwrap_err().kind(), ErrorKind::InvalidInput);
}

#[test]
fn resolve_stdio_plans() {
    assert!(matches!(resolve_stdio(None), StdioPlan::Inherit));
    assert!(matches!(resolve_stdio(Some(Stdio::Inherit)), StdioPlan::Inherit));
    assert!(matches!(resolve_stdio(Some(Stdio::Null)), StdioPlan::OpenNull));
    assert!(matches!(resolve_stdio(Some(Stdio::MakePipe)), StdioPlan::MakePipe));
    assert!(matches!(resolve_stdio(Some(Stdio::ParentStdout)), StdioPlan::ParentStdout));
    assert!(matches!(resolve_stdio(Some(Stdio::ParentStderr)), StdioPlan::ParentStderr));
    match resolve_stdio(Some(Stdio::Pipe(FileDesc::from_raw_handle(12)))) {
        StdioPlan::Existing(fd) => assert_eq!(fd.as_raw_handle(), 12),
        _ => panic!("a pipe end is handed over"),
    }
    let f = lib::fs::open_result(21, 0).unwrap();
    match resolve_stdio(Some(Stdio::InheritFile(f))) {
        StdioPlan::Existing(fd) => assert_eq!(fd.as_raw_handle(), 21),
        _ => panic!("a file is handed over"),
    }
    let o = null_device_options();
    assert_eq!(o.flags().unwrap(), 2);
}

#[test]
fn spawn_result_cases() {
    let p = spawn_result(77).unwrap();
    assert_eq!(p.id(), 77);
    assert_eq!(p.realm_id(), 77);
    let e = spawn_result((-2i64) as u64).err().unwrap();
    assert_eq!(e.raw_os_error(), Some(2));
}

#[test]
fn wait_caches_the_status() {
    let mut p = spawn_result(5).unwrap();
    assert!(p.cached_status() == None);
    assert_eq!(p.kill(), Some(9));
    assert_eq!(p.finish_wait(-10, 0).err().unwrap().raw_os_error(), Some(10));
    assert!(p.cached_status() == None);
    assert!(p.finish_wait(5, 3).unwrap() == ExitStatus(3));
    assert!(p.cached_status() == Some(ExitStatus(3)));
    assert_eq!(p.kill(), None);
    assert_eq!(p.send_signal(15), None);
}

#[test]
fn try_wait_cases() {
    let mut p = spawn_result(5).unwrap();
    assert!(p.finish_try_wait(0, 0).unwrap() == None);
    assert!(p.cached_status() == None);
    assert!(p.finish_try_wait(1, 0).unwrap() == Some(ExitStatus(0)));
    assert!(p.cached_status() == Some(ExitStatus(0)));
    assert!(lib::process::Process::signal_result(0, 0).is_ok());
    assert_eq!(lib::process::Process::signal_result(-1, 3).unwrap_err().raw_os_error(), Some(3));
}

#[test]
fn exit_status_values() {
    let ok = ExitStatus::new(0);
    assert!(ok.exit_ok().is_ok());
    assert_eq!(ok.code(), Some(0));
    assert_eq!(ok.signal(), None);
    let bad = ExitStatus::new(-3);
    let e = bad.exit_ok().unwrap_err();
    assert_eq!(e.code(), Some(-3));
    assert!(e.into_status() == bad);
    assert_eq!(bad.to_string(), "exit status: -3");
    assert_eq!(ExitStatus::new(42).to_string(), "exit status: 42");
    assert_eq!(exec_exit_code(ExitStatus::new(4)), 4);
}

#[test]
fn exit_status_debug_text() {
    assert_eq!(ExitStatus::new(3).debug_string(), "vespera_exit_status(3)");
    assert_eq!(ExitStatus::new(-7).debug_string(), "vespera_exit_status(-7)");
    let e = ExitStatus::new(2).exit_ok().unwrap_err();
    assert_eq!(e.debug_string(), "vespera_exit_status_error(2)");
}

#[test]
fn command_args_to_vec_lists_the_rest() {
    let mut c = Command::new(b"prog");
    c.arg(b"a");
    c.arg(b"b");
    let mut args = c.get_args();
    assert_eq!(args.to_vec(), vec![b"a".to_vec(), b"b".to_vec()]);
    args.next();
    assert_eq!(args.to_vec(), vec![b"b".to_vec()]);
}

#[test]
fn shared_pipe_hands_the_child_the_second_end() {
    let (handle, ours, theirs) = share_pipe((FileDesc::from_raw_handle(3), FileDesc::from_raw_handle(4)));
    assert_eq!(handle, 4);
    assert_eq!(ours.as_raw_handle(), 3);
    assert_eq!(theirs.as_raw_handle(), 4);
}

#[test]
fn exit_codes() {
    assert_eq!(ExitCode::success().as_i32(), 0);
    assert_eq!(ExitCode::failure().as_i32(), 1);
    assert_eq!(ExitCode::from_u8(255).as_i32(), 255);
}

fn render(parts: &[CommandDebugPart]) -> String {
    let mut s = String::new();
    for p in parts {
        match p {
            CommandDebugPart::Cd(d) => s.push_str(&format!("cd {} && ", String::from_utf8_lossy(d))),
            CommandDebugPart::EnvClear => s.push_str("env -i "),
            CommandDebugPart::EnvPrefix => s.push_str("env "),
            CommandDebugPart::Unset(k) => s.push_str(&format!("-u {} ", String::from_utf8_lossy(k))),
            CommandDebugPart::Assign(k, v) => {
                s.push_str(&format!("{}={} ", String::from_utf8_lossy(k), String::from_utf8_lossy(v)))
            }
            CommandDebugPart::Program(p) => s.push_str(&format!("[{}] ", String::from_utf8_lossy(p))),
            CommandDebugPart::FirstArg(a) => s.push_str(&String::from_utf8_lossy(a)),
            CommandDebugPart::Arg(a) => s.push_str(&format!(" {}", String::from_utf8_lossy(a))),
        }
    }
    s
}

#[test]
fn debug_parts_plain() {
    let mut c = Command::new(b"ls");
    c.arg(b"-a");
    assert_eq!(render(&c.debug_parts()), "ls -a");
}

#[test]
fn debug_parts_with_everything() {
    let mut c = Command::new(b"ls");
    c.cwd(b"/w");
    c.env_mut().remove(b"B");
    c.env_mut().set(b"A", b"1");
    c.env_mut().remove(b"C");
    c.arg(b"x");
    assert_eq!(render(&c.debug_parts()), "cd /w && env -u B -u C A=1 ls x");
    let f = c.debug_fields();
    assert!(f.env && f.cwd && !f.stdin && !f.stdout && !f.stderr);
}

#[test]
fn debug_parts_cleared_env() {
    let mut c = Command::new(b"ls");
    c.env_mut().clear();
    c.env_mut().set(b"K", b"v");
    assert_eq!(render(&c.debug_parts()), "env -i K=v ls");
}

#[test]
fn debug_fields_of_a_plain_command() {
    let mut c = Command::new(b"ls");
    c.stderr(Stdio::Null);
    let f = c.debug_fields();
    assert!(!f.env && !f.cwd && !f.stdin && !f.stdout && f.stderr);
}

#[test]
fn captured_envp_parses_back_into_the_pairs() {
    let mut c = Command::new(b"x");
    c.env_mut().clear();
    c.env_mut().set(b"KEY", b"a=b");
    c.env_mut().set(b"EMPTY", b"");
    let entries = c.capture_envp(&base_env()).unwrap().unwrap();
    let parsed: Vec<(Vec<u8>, Vec<u8>)> =
        entries.iter().map(|e| parse_env_entry(&until_nul(e)).unwrap()).collect();
    assert_eq!(
        parsed,
        vec![(b"EMPTY".to_vec(), b"".to_vec()), (b"KEY".to_vec(), b"a=b".to_vec())]
    );
}
