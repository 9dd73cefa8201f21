use lib::error::{Error, ErrorKind};
use lib::paths::{
    chdir_result, current_exe, current_exe_step, getcwd_result, home_dir, join_path, join_paths, split_paths,
    temp_dir, CurrentExeStep, SplitPaths,
};

fn collect(mut s: SplitPaths) -> Vec<Vec<u8>> {
    let mut out = Vec::new();
    while let Some(p) = s.next() {
        out.push(p);
    }
    out
}

#[test]
fn split_paths_basic() {
    let s = split_paths(b"/bin:/usr/bin");
    assert_eq!(s.len(), 2);
    assert_eq!(collect(s), vec![b"/bin".to_vec(), b"/usr/bin".to_vec()]);
}

#[test]
fn split_paths_empty_entries_are_the_current_directory() {
    assert_eq!(
        collect(split_paths(b"a::b:")),
        vec![b"a".to_vec(), b".".to_vec(), b"b".to_vec(), b".".to_vec()]
    );
    assert_eq!(collect(split_paths(b"")), vec![b".".to_vec()]);
    assert_eq!(collect(split_paths(b":")), vec![b".".to_vec(), b".".to_vec()]);
}

#[test]
fn join_paths_basic() {
    let v = vec![b"/bin".to_vec(), b"".to_vec(), b"/opt/x".to_vec()];
    assert_eq!(join_paths(&v).unwrap(), b"/bin::/opt/x".to_vec());
    assert_eq!(join_paths(&vec![]).unwrap(), Vec::<u8>::new());
    assert_eq!(join_paths(&vec![b"one".to_vec()]).unwrap(), b"one".to_vec());
}

#[test]
fn join_paths_rejects_a_separator() {
    let e = join_paths(&vec![b"/a".to_vec(), b"/b:c".to_vec()]).unwrap_err();
    assert_eq!(e.to_string(), "path segment contains separator ':'");
}

#[test]
fn split_after_join_gives_the_entries_back() {
    let v = vec![b"/usr/local/bin".to_vec(), b"x".to_vec(), b"/y/z".to_vec()];
    let joined = join_paths(&v).unwrap();
    assert_eq!(collect(split_paths(&joined)), v);
}

#[test]
fn join_after_split_gives_the_list_back() {
    let list = b"a:b::c".to_vec();
    let mut s = split_paths(&list);
    let mut pieces = Vec::new();
    while let Some(p) = s.next() {
        pieces.push(if p == b".".to_vec() { Vec::new() } else { p });
    }
    assert_eq!(join_paths(&pieces).unwrap(), list);
}

#[test]
fn join_path_rules() {
    assert_eq!(join_path(b"/usr", b"bin"), b"/usr/bin".to_vec());
    assert_eq!(join_path(b"/usr/", b"bin"), b"/usr/bin".to_vec());
    assert_eq!(join_path(b"", b"bin"), b"bin".to_vec());
    assert_eq!(join_path(b"/usr", b"/etc"), b"/etc".to_vec());
    assert_eq!(join_path(b"/usr", b""), b"/usr/".to_vec());
}

#[test]
fn current_exe_absolute() {
    let r = current_exe(Some(b"/bin/app".to_vec()), Err(Error::from_raw_os_error(2))).unwrap();
    assert_eq!(r, b"/bin/app".to_vec());
}

#[test]
fn current_exe_relative_is_resolved() {
    let r = current_exe(Some(b"tools/app".to_vec()), Ok(b"/home/u".to_vec())).unwrap();
    assert_eq!(r, b"/home/u/tools/app".to_vec());
}

#[test]
fn current_exe_relative_reports_cwd_failure() {
    let e = current_exe(Some(b"app".to_vec()), Err(Error::from_raw_os_error(13))).unwrap_err();
    assert_eq!(e.raw_os_error(), Some(13));
}

#[test]
fn current_exe_without_argv0() {
    let e = current_exe(None, Ok(b"/".to_vec())).unwrap_err();
    assert_eq!(e.kind(), ErrorKind::NotFound);
    assert_eq!(e.message(), Some("argv[0] empty"));
}

#[test]
fn temp_and_home() {
    assert_eq!(temp_dir(), b"/tmp".to_vec());
    assert_eq!(home_dir(Some(b"/home/u".to_vec())), Some(b"/home/u".to_vec()));
    assert_eq!(home_dir(None), None);
}

#[test]
fn getcwd_result_cases() {
    let mut buf = vec![0u8; 16];
    buf[..5].copy_from_slice(b"/home");
    assert_eq!(getcwd_result(&buf, true, 0).unwrap(), b"/home".to_vec());
    assert_eq!(getcwd_result(&buf, false, 34).unwrap_err().raw_os_error(), Some(34));
    assert_eq!(getcwd_result(b"/abc", true, 0).unwrap(), b"/abc".to_vec());
}

#[test]
fn chdir_result_cases() {
    assert!(chdir_result(0, 0).is_ok());
    assert!(chdir_result(-2, 0).is_ok());
    assert_eq!(chdir_result(-1, 20).unwrap_err().kind(), ErrorKind::NotADirectory);
}

#[test]
fn current_exe_step_asks_for_the_cwd_only_for_a_relative_name() {
    match current_exe_step(Some(b"/bin/app".to_vec())) {
        CurrentExeStep::Done(Ok(p)) => assert_eq!(p, b"/bin/app".to_vec()),
        other => panic!("unexpected step {:?}", other),
    }
    match current_exe_step(Some(b"tools/app".to_vec())) {
        CurrentExeStep::NeedsCwd(p) => {
            assert_eq!(p, b"tools/app".to_vec());
            let r = current_exe(Some(p), Ok(b"/home/u".to_vec())).unwrap();
            assert_eq!(r, b"/home/u/tools/app".to_vec());
        }
        other => panic!("unexpected step {:?}", other),
    }
    match current_exe_step(None) {
        CurrentExeStep::Done(Err(e)) => {
            assert_eq!(e.kind(), ErrorKind::NotFound);
            assert_eq!(e.message(), Some("argv[0] empty"));
        }
        other => panic!("unexpected step {:?}", other),
    }
}
