use pronyx::cli::{parse_binding, parse_config, Arguments, Binding, FileSystem};
use pronyx::errno::{Errno, EINVAL, UNKNOWN_ERRNO};
use pronyx::errors::{describe_parts, write_decimal, Error};
use pronyx::utils::Config;

fn binding(host: &str, guest: &str) -> Binding {
    Binding { host_path: host.to_string(), guest_path: guest.to_string() }
}

fn arguments() -> Arguments {
    Arguments {
        rootfs: None,
        bindings: Vec::new(),
        cwd: None,
        root_id: false,
        link2symlink: false,
        command: None,
    }
}

#[test]
fn binding_with_both_paths() {
    assert_eq!(parse_binding("/home:/mnt"), binding("/home", "/mnt"));
    assert_eq!(parse_binding(":/mnt"), binding("", "/mnt"));
    assert_eq!(parse_binding("a:b:"), binding("a", "b"));
    assert_eq!(parse_binding("a::"), binding("a", ""));
    assert_eq!(parse_binding("::"), binding("", ""));
}

#[test]
fn binding_with_one_path() {
    assert_eq!(parse_binding("/home"), binding("/home", "/home"));
    assert_eq!(parse_binding("/home:"), binding("/home", "/home"));
    assert_eq!(parse_binding(":"), binding("", ""));
    assert_eq!(parse_binding("a:b:c"), binding("a", "a"));
    assert_eq!(parse_binding("a:b:c:"), binding("a", "a"));
    assert_eq!(parse_binding("a::c"), binding("a", "a"));
    assert_eq!(parse_binding(""), binding("", ""));
}

#[test]
fn binding_agrees_with_split_terminator() {
    for raw in ["a", "a:b", "a:", ":b", ":", "::", "a:b:", "a:b:c", "é:ü", "x:y:z:", "a::", ":::"] {
        let parts: Vec<&str> = raw.split_terminator(':').collect();
        let expected = if parts.len() == 2 {
            binding(parts[0], parts[1])
        } else {
            binding(parts[0], parts[0])
        };
        assert_eq!(parse_binding(raw), expected);
    }
}

#[test]
fn config_with_defaults() {
    let (fs, command, config) = parse_config(arguments()).unwrap();
    assert_eq!(fs, FileSystem { root: "/".to_string(), bindings: vec![], cwd: "/".to_string() });
    assert_eq!(fs, FileSystem::new());
    assert_eq!(command, vec!["/bin/sh".to_string()]);
    assert_eq!(config, Config { root_id: false, link2symlink: false });
}

#[test]
fn config_with_everything_given() {
    let args = Arguments {
        rootfs: Some("/srv/guest".to_string()),
        bindings: vec!["/proc".to_string(), "/home/me:/root".to_string()],
        cwd: Some("/root".to_string()),
        root_id: true,
        link2symlink: true,
        command: Some(vec!["ls".to_string(), "-l".to_string()]),
    };
    let (fs, command, config) = parse_config(args).unwrap();
    assert_eq!(fs.root, "/srv/guest");
    assert_eq!(fs.cwd, "/root");
    assert_eq!(fs.bindings, vec![binding("/proc", "/proc"), binding("/home/me", "/root")]);
    assert_eq!(command, vec!["ls".to_string(), "-l".to_string()]);
    assert_eq!(config, Config { root_id: true, link2symlink: true });
}

#[test]
fn config_refuses_an_empty_binding() {
    let mut args = arguments();
    args.bindings = vec!["/proc".to_string(), "".to_string()];
    let error = parse_config(args).unwrap_err();
    assert_eq!(error.get_errno(), Errno { raw: EINVAL });
    assert_eq!(EINVAL, 22);
    assert!(error.msg.is_some());
}

#[test]
fn errno_from_raw() {
    assert_eq!(Errno::from_raw(2), Errno { raw: 2 });
    assert_eq!(Errno::from_raw(22).raw, EINVAL);
    assert_eq!(Errno::from_raw(0), Errno::unknown());
    assert_eq!(Errno::from_raw(-1).raw, UNKNOWN_ERRNO);
    assert_eq!(Errno::from_raw(99_999).raw, UNKNOWN_ERRNO);
    for raw in [-5, 0, 1, 2, 11, 22, 34, 133, 4096, i32::MAX] {
        let once = Errno::from_raw(raw);
        assert!(once.raw == raw || once.raw == UNKNOWN_ERRNO);
        assert_eq!(Errno::from_raw(once.raw), once);
    }
    assert_eq!(Errno::unknown().raw, 0);
}

#[test]
fn errno_description() {
    assert_eq!(Errno { raw: 2 }.desc(), "ENOENT: No such file or directory");
    assert_eq!(Errno::unknown().desc(), "UnknownErrno: Unknown errno");
}

#[test]
fn error_constructors() {
    let e = Error::unknown();
    assert_eq!((e.errno.raw, e.msg.clone(), e.source.clone()), (0, None, None));
    let e = Error::errno(Errno { raw: 13 });
    assert_eq!((e.errno.raw, e.msg.clone(), e.source.clone()), (13, None, None));
    let e = Error::msg("bad".to_string());
    assert_eq!((e.errno.raw, e.msg.clone(), e.source.clone()), (0, Some("bad".to_string()), None));
    let e = Error::errno_with_msg(Errno { raw: 2 }, "gone".to_string());
    assert_eq!((e.errno.raw, e.msg.clone(), e.source.clone()), (2, Some("gone".to_string()), None));
    let e = e.with_errno(Errno { raw: 5 });
    assert_eq!((e.get_errno().raw, e.msg.clone()), (5, Some("gone".to_string())));
    let e = e.with_msg("again".to_string());
    assert_eq!((e.get_errno().raw, e.msg.clone()), (5, Some("again".to_string())));
}

#[test]
fn errors_are_equal_by_number() {
    assert!(Error::errno(Errno { raw: 2 }) == Error::errno_with_msg(Errno { raw: 2 }, "x".to_string()));
    assert!(Error::errno(Errno { raw: 2 }) != Error::errno(Errno { raw: 3 }));
    assert!(Error::unknown() == Error::msg("whatever".to_string()));
}

#[test]
fn error_from_other_errors() {
    let e = Error::from(Errno { raw: 17 });
    assert_eq!((e.errno.raw, e.msg.clone(), e.source.clone()), (17, None, None));
    let e = Error::from(std::io::Error::from_raw_os_error(2));
    assert_eq!(e.errno.raw, 2);
    assert_eq!(e.msg, None);
    assert!(e.source.as_ref().unwrap().contains("os error 2"));
    let e = Error::from(std::io::Error::new(std::io::ErrorKind::Other, "plain"));
    assert_eq!((e.errno.raw, e.msg.clone(), e.source.clone()), (0, None, Some("plain".to_string())));
    let e = Error::from(std::io::Error::from_raw_os_error(99_999));
    assert_eq!(e.errno.raw, 0);
    let bytes = vec![0xff, 0xfe];
    let e = Error::from(std::str::from_utf8(&bytes).unwrap_err());
    assert_eq!(e.errno.raw, 0);
    assert!(e.msg.as_ref().unwrap().starts_with("utf8 error: invalid utf-8"));
    let e = Error::from(std::path::Path::new("/a").strip_prefix("/b").unwrap_err());
    assert_eq!((e.errno.raw, e.msg.clone()), (0, Some("prefix not found".to_string())));
    let e = Error::from_os_error(None, "cause".to_string());
    assert_eq!((e.errno.raw, e.source.clone()), (0, Some("cause".to_string())));
    let e = Error::from_os_error(Some(13), "cause".to_string());
    assert_eq!(e.errno.raw, 13);
}

#[test]
fn error_description() {
    assert_eq!(
        Error::errno(Errno { raw: 2 }).describe(),
        "Error with ENOENT: No such file or directory(2)"
    );
    assert_eq!(
        Error::errno_with_msg(Errno { raw: 13 }, "no way".to_string()).describe(),
        "Error with EACCES: Permission denied(13), msg: no way"
    );
    assert_eq!(
        Error::from_os_error(Some(2), "gone".to_string()).with_msg("look".to_string()).describe(),
        "Error with ENOENT: No such file or directory(2), msg: look, source: gone"
    );
    assert_eq!(Error::unknown().describe(), "Error with UnknownErrno: Unknown errno(0)");
    assert_eq!(
        describe_parts("E", "7", &None, &Some("s".to_string())),
        "Error with E(7), source: s"
    );
}

#[test]
fn numbers_in_decimal() {
    for n in [0, 1, 9, 10, 11, 99, 100, 101, 2147483647, -1, -10, -2147483648, 22, 133, 4095] {
        assert_eq!(write_decimal(n), format!("{}", n));
    }
    assert_eq!(write_decimal(-120), "-120");
    assert_eq!(Error::errno(Errno { raw: -7 }).describe(), "Error with UnknownErrno: Unknown errno(-7)");
}
