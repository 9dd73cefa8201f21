use lib::error::{Error, ErrorKind};
use lib::fd::{first_nonempty, pipe_result, read_to_end_step, FileDesc, ReadToEndStep};
use lib::futex::{futex_wait_result, futex_wake_result};
use lib::keys::{order_keys, EnvMap, KeyOrder};
use lib::stdio::{is_ebadf, panic_output, stream_result, Stderr, Stdin, Stdout, STDIN_BUF_SIZE};
use lib::target::{target, Arch, Cc, Env, LinkerFlavor, Lld, Os, PanicStrategy, RelocModel};
use lib::thread::{available_parallelism, cpuinfo_open_result, set_name, sleep_request, Thread};
use lib::time::Duration;
use lib::util::{cstr, to_c_string, until_nul};

#[test]
fn target_description() {
    let t = target();
    assert_eq!(t.llvm_target, "x86_64-unknown-vespera");
    assert_eq!(t.metadata.description.as_deref(), Some("VesperaOS userspace (x86_64)"));
    assert_eq!(t.metadata.tier, Some(3));
    assert_eq!(t.metadata.host_tools, Some(false));
    assert_eq!(t.metadata.std, Some(true));
    assert_eq!(t.pointer_width, 64);
    assert_eq!(t.arch, Arch::X86_64);
    assert_eq!(
        t.data_layout,
        "e-m:e-p270:32:32-p271:32:32-p272:64:64-i64:64-i128:128-f80:128-n8:16:32:64-S128"
    );
    assert_eq!(t.options.os, Os::Vespera);
    assert_eq!(t.options.env, Env::Unspecified);
    assert_eq!(t.options.linker_flavor, LinkerFlavor::Gnu(Cc::No, Lld::Yes));
    assert_eq!(t.options.linker.as_deref(), Some("rust-lld"));
    assert_eq!(t.options.vendor, "unknown");
    assert_eq!(t.options.max_atomic_width, Some(64));
    assert!(t.options.has_thread_local);
    assert!(t.options.position_independent_executables);
    assert!(t.options.static_position_independent_executables);
    assert_eq!(t.options.relocation_model, RelocModel::Pic);
    assert_eq!(t.options.panic_strategy, PanicStrategy::Abort);
}

#[test]
fn filedesc_handles() {
    let fd = FileDesc::from_raw_handle(9);
    assert_eq!(fd.as_raw_handle(), 9);
    assert!(!fd.is_read_vectored());
    assert!(!fd.is_write_vectored());
    assert!(fd.flush().is_ok());
    assert!(fd.set_cloexec().is_ok());
    assert_eq!(fd.set_nonblocking(true).unwrap_err().kind(), ErrorKind::Unsupported);
    assert_eq!(fd.into_raw_handle(), 9);
}

#[test]
fn filedesc_positioned_io_is_unsupported() {
    let fd = FileDesc::from_raw_handle(1);
    let mut buf = vec![0u8; 4];
    let mut bufs = vec![vec![0u8; 2]];
    assert_eq!(fd.read_at(&mut buf, 0).unwrap_err().kind(), ErrorKind::Unsupported);
    assert_eq!(fd.read_buf_at(&mut buf, 0).unwrap_err().kind(), ErrorKind::Unsupported);
    assert_eq!(fd.read_vectored_at(&mut bufs, 0).unwrap_err().kind(), ErrorKind::Unsupported);
    assert_eq!(fd.write_at(&buf, 0).unwrap_err().kind(), ErrorKind::Unsupported);
    assert_eq!(fd.write_vectored_at(&bufs, 0).unwrap_err().kind(), ErrorKind::Unsupported);
}

#[test]
fn positioned_reads_leave_the_buffers_alone() {
    let fd = FileDesc::from_raw_handle(1);
    let mut buf = b"keep".to_vec();
    let mut bufs = vec![b"ab".to_vec(), b"c".to_vec()];
    assert!(fd.read_at(&mut buf, 3).is_err());
    assert!(fd.read_buf_at(&mut buf, 3).is_err());
    assert!(fd.read_vectored_at(&mut bufs, 3).is_err());
    assert_eq!(buf, b"keep".to_vec());
    assert_eq!(bufs, vec![b"ab".to_vec(), b"c".to_vec()]);
}

#[test]
fn futex_results() {
    assert!(!futex_wait_result(-110, 110));
    assert!(futex_wait_result(0, 110));
    assert!(futex_wait_result(-11, 110));
    assert!(futex_wake_result(1));
    assert!(!futex_wake_result(0));
    assert!(!futex_wake_result(-22));
}

#[test]
fn filedesc_results() {
    assert_eq!(FileDesc::duplicate_result(4).unwrap().as_raw_handle(), 4);
    assert_eq!(FileDesc::duplicate_result(-9).unwrap_err().raw_os_error(), Some(9));
    assert_eq!(FileDesc::transfer_result(3).unwrap(), 3);
    assert_eq!(FileDesc::transfer_result(-4).unwrap_err().kind(), ErrorKind::Interrupted);
    let (r, w) = pipe_result(0, [5, 6]).unwrap();
    assert_eq!((r.as_raw_handle(), w.as_raw_handle()), (5, 6));
    assert_eq!(pipe_result(-23, [0, 0]).unwrap_err().raw_os_error(), Some(23));
}

#[test]
fn vectored_io_uses_the_first_nonempty_buffer() {
    assert_eq!(first_nonempty(&[0, 0, 5, 2]), Some(2));
    assert_eq!(first_nonempty(&[3]), Some(0));
    assert_eq!(first_nonempty(&[0, 0]), None);
    assert_eq!(first_nonempty(&[]), None);
}

#[test]
fn stdio_values() {
    let _ = (Stdin::new(), Stdout::new(), Stderr::new());
    assert_eq!(STDIN_BUF_SIZE, 8192);
    assert!(!is_ebadf(&lib::error::Error::from_raw_os_error(9)));
    assert!(panic_output().is_some());
    assert_eq!(stream_result(12).unwrap(), 12);
    assert_eq!(stream_result(-32).unwrap_err().kind(), ErrorKind::BrokenPipe);
}

#[test]
fn thread_values() {
    let t = Thread::from_spawn_result(11).unwrap();
    assert_eq!(t.id(), 11);
    assert_eq!(Thread::from_spawn_result((-12i64) as u64).unwrap_err().kind(), ErrorKind::OutOfMemory);
    set_name(b"worker");
    let ts = sleep_request(&Duration::new(2, 500));
    assert_eq!((ts.tv_sec, ts.tv_nsec), (2, 500));
}

#[test]
fn parallelism_cases() {
    assert_eq!(cpuinfo_open_result(3, 0).unwrap(), 3);
    assert_eq!(cpuinfo_open_result(u64::MAX, 2).unwrap_err().kind(), ErrorKind::NotFound);
    assert_eq!(available_parallelism(16, 16, 4, 0).unwrap(), 4);
    assert_eq!(available_parallelism(-1, 16, 4, 5).unwrap_err().raw_os_error(), Some(5));
    let e = available_parallelism(8, 16, 4, 0).unwrap_err();
    assert_eq!(e.kind(), ErrorKind::UnexpectedEof);
    assert_eq!(e.message(), Some("short read"));
    let e = available_parallelism(16, 16, 0, 0).unwrap_err();
    assert_eq!(e.kind(), ErrorKind::InvalidData);
    assert_eq!(e.message(), Some("zero cores"));
}

#[test]
fn c_strings() {
    assert_eq!(to_c_string(b"abc"), Some(b"abc\0".to_vec()));
    assert_eq!(to_c_string(b""), Some(b"\0".to_vec()));
    assert_eq!(to_c_string(b"a\0"), None);
    assert_eq!(until_nul(b"ab\0cd"), b"ab".to_vec());
    assert_eq!(until_nul(b"abc"), b"abc".to_vec());
    assert_eq!(cstr(b"/p").unwrap(), b"/p\0".to_vec());
    let e = cstr(b"/p\0q").unwrap_err();
    assert_eq!(e.kind(), ErrorKind::InvalidInput);
    assert_eq!(e.message(), Some("path contains a NUL byte"));
}

#[test]
fn key_order() {
    assert_eq!(order_keys(b"a", b"b"), KeyOrder::Less);
    assert_eq!(order_keys(b"ab", b"a"), KeyOrder::Greater);
    assert_eq!(order_keys(b"", b""), KeyOrder::Equal);
    assert_eq!(order_keys(b"", b"a"), KeyOrder::Less);
    assert_eq!(order_keys(b"abc", b"abd"), KeyOrder::Less);
    assert_eq!(order_keys(b"\xff", b"a"), KeyOrder::Greater);
}

#[test]
fn env_map_insert_and_remove() {
    let mut m = EnvMap::new();
    m.insert(b"b".to_vec(), Some(b"2".to_vec()));
    m.insert(b"a".to_vec(), None);
    m.insert(b"c".to_vec(), Some(b"3".to_vec()));
    m.insert(b"b".to_vec(), Some(b"20".to_vec()));
    assert_eq!(
        m.to_vec(),
        vec![
            (b"a".to_vec(), None),
            (b"b".to_vec(), Some(b"20".to_vec())),
            (b"c".to_vec(), Some(b"3".to_vec())),
        ]
    );
    m.remove(b"b");
    m.remove(b"zz");
    assert_eq!(m.len(), 2);
    assert_eq!(m.entry(1), (b"c".to_vec(), Some(b"3".to_vec())));
    m.clear();
    assert!(m.is_empty());
}

#[test]
fn c_string_reads_back_as_its_bytes() {
    for s in [&b""[..], &b"a"[..], &b"/usr/bin"[..]] {
        let c = to_c_string(s).unwrap();
        assert_eq!(until_nul(&c), s.to_vec());
    }
}

#[test]
fn read_to_end_steps() {
    assert!(matches!(read_to_end_step(7, Ok(0)), ReadToEndStep::Done(7)));
    assert!(matches!(read_to_end_step(7, Ok(5)), ReadToEndStep::Keep { read: 5, total: 12 }));
    assert!(matches!(read_to_end_step(7, Err(Error::from_raw_os_error(4))), ReadToEndStep::Retry));
    match read_to_end_step(7, Err(Error::from_raw_os_error(2))) {
        ReadToEndStep::Fail(e) => assert_eq!(e.raw_os_error(), Some(2)),
        other => panic!("unexpected step {:?}", other),
    }
}
