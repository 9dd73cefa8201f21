use lib::args::{init, Args};
use lib::util::until_nul;
use lib::env::{env_call_result, getenv_key, parse_env_entry, setenv, unsetenv, Env};
use lib::error::ErrorKind;

#[test]
fn init_clamps_negative_counts() {
    assert_eq!(init(-3), 0);
    assert_eq!(init(0), 0);
    assert_eq!(init(4), 4);
}

#[test]
fn args_from_both_ends() {
    let mut a = Args::from_vec(vec![b"prog".to_vec(), b"x".to_vec(), b"y".to_vec()]);
    assert_eq!(a.len(), 3);
    assert_eq!(a.next(), Some(b"prog".to_vec()));
    assert_eq!(a.next_back(), Some(b"y".to_vec()));
    assert_eq!(a.len(), 1);
    assert_eq!(a.next_back(), Some(b"x".to_vec()));
    assert_eq!(a.next(), None);
    assert_eq!(a.next_back(), None);
}

#[test]
fn parse_env_entry_splits_at_the_first_equals() {
    assert_eq!(parse_env_entry(b"A=b=c"), Some((b"A".to_vec(), b"b=c".to_vec())));
    assert_eq!(parse_env_entry(b"=x"), Some((Vec::new(), b"x".to_vec())));
    assert_eq!(parse_env_entry(b"K="), Some((b"K".to_vec(), Vec::new())));
    assert_eq!(parse_env_entry(b"NOEQ"), None);
}

#[test]
fn env_skips_entries_without_equals() {
    let entries = vec![b"A=1".to_vec(), b"junk".to_vec(), b"B=2".to_vec()];
    let mut e = Env::from_entries(&entries);
    assert_eq!(e.len(), 2);
    assert_eq!(e.next(), Some((b"A".to_vec(), b"1".to_vec())));
    assert_eq!(e.next(), Some((b"B".to_vec(), b"2".to_vec())));
    assert_eq!(e.next(), None);
}

#[test]
fn getenv_key_cases() {
    assert_eq!(getenv_key(b"HOME"), Some(b"HOME\0".to_vec()));
    assert_eq!(getenv_key(b"HO\0ME"), None);
}

#[test]
fn setenv_arguments() {
    assert_eq!(setenv(b"K", b"V").unwrap(), (b"K\0".to_vec(), b"V\0".to_vec()));
    let e = setenv(b"K\0", b"V").unwrap_err();
    assert_eq!(e.kind(), ErrorKind::InvalidInput);
    assert_eq!(e.message(), Some("env key contains a NUL byte"));
    let e = setenv(b"K", b"V\0").unwrap_err();
    assert_eq!(e.message(), Some("env value contains a NUL byte"));
    let e = setenv(b"\0", b"\0").unwrap_err();
    assert_eq!(e.message(), Some("env key contains a NUL byte"));
}

#[test]
fn unsetenv_arguments() {
    assert_eq!(unsetenv(b"K").unwrap(), b"K\0".to_vec());
    assert_eq!(unsetenv(b"\0K").unwrap_err().message(), Some("env key contains a NUL byte"));
}

#[test]
fn env_call_result_cases() {
    assert!(env_call_result(0, 0).is_ok());
    assert_eq!(env_call_result(-1, 22).unwrap_err().kind(), ErrorKind::InvalidInput);
}

#[test]
fn setenv_entry_parses_back() {
    let (k, v) = setenv(b"NAME", b"x=y").unwrap();
    let mut entry = until_nul(&k);
    entry.push(b'=');
    entry.extend_from_slice(&until_nul(&v));
    assert_eq!(parse_env_entry(&entry), Some((b"NAME".to_vec(), b"x=y".to_vec())));
}

#[test]
fn args_to_vec_lists_the_rest() {
    let mut a = Args::from_vec(vec![b"prog".to_vec(), b"x".to_vec(), b"y".to_vec()]);
    assert_eq!(a.to_vec(), vec![b"prog".to_vec(), b"x".to_vec(), b"y".to_vec()]);
    a.next();
    a.next_back();
    assert_eq!(a.to_vec(), vec![b"x".to_vec()]);
}

#[test]
fn env_to_vec_lists_the_rest() {
    let entries = vec![b"A=1".to_vec(), b"B=2".to_vec()];
    let mut e = Env::from_entries(&entries);
    assert_eq!(e.to_vec(), vec![(b"A".to_vec(), b"1".to_vec()), (b"B".to_vec(), b"2".to_vec())]);
    e.next();
    assert_eq!(e.to_vec(), vec![(b"B".to_vec(), b"2".to_vec())]);
}
