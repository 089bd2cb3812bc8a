use ssh_local_exec::args::{ConnectAddress, ListenAddress, ListenAddresses};
use ssh_local_exec::credential::Command;
use ssh_local_exec::protocol::{forwarded_signals, CborDecoder, CborEncoder, OsSignal, Signal};
use ssh_local_exec::socket::{socket_target, unix_address_text, AttemptError, AttemptLoop, SocketTarget};

fn inet(s: &str) -> SocketTarget {
    SocketTarget::Inet(s.to_string())
}

fn is_inet(t: &SocketTarget, s: &str) -> bool {
    matches!(t, SocketTarget::Inet(a) if a == s)
}

fn is_unix(t: &SocketTarget, s: &str) -> bool {
    matches!(t, SocketTarget::Unix(a) if a == s)
}

#[test]
fn address_kinds() {
    assert!(is_inet(&socket_target("localhost:22222"), "localhost:22222"));
    assert!(is_inet(&socket_target("server:22222"), "server:22222"));
    assert!(is_inet(&socket_target("inet:localhost:33333"), "localhost:33333"));
    assert!(is_unix(&socket_target("unix:sock"), "sock"));
    assert!(is_unix(&socket_target("unix:/tmp/s.sock"), "/tmp/s.sock"));
    assert!(is_unix(&socket_target("/run/user/sle.sock"), "/run/user/sle.sock"));
    assert!(is_inet(&socket_target("inet:/odd"), "/odd"));
    assert!(is_inet(&socket_target(""), ""));
    assert!(is_inet(&socket_target("inet"), "inet"));
    let _ = inet("x");
}

#[test]
fn unix_addresses_shown() {
    assert_eq!(unix_address_text(Some("/tmp/s"), false), "unix:/tmp/s");
    assert_eq!(unix_address_text(Some("/tmp/s"), true), "unix:/tmp/s");
    assert_eq!(unix_address_text(None, true), "unix:<unnamed>");
}

#[test]
fn attempts_first_success_wins() {
    let mut l: AttemptLoop<&str> = AttemptLoop::new();
    assert_eq!(l.on_attempt::<u32>(Err("refused")), None);
    assert_eq!(l.on_attempt::<u32>(Ok(7)), Some(7));
}

#[test]
fn attempts_report_last_error() {
    let mut l: AttemptLoop<&str> = AttemptLoop::new();
    assert_eq!(l.on_attempt::<u32>(Err("first")), None);
    assert_eq!(l.on_attempt::<u32>(Err("second")), None);
    assert_eq!(l.finish(), AttemptError::Last("second"));
    let l: AttemptLoop<&str> = AttemptLoop::new();
    assert_eq!(l.finish(), AttemptError::NoAddress);
}

#[test]
fn listen_addresses() {
    let a = ListenAddress::from("localhost:22222".to_string());
    assert_eq!(a.as_str(), "localhost:22222");
    assert_eq!(a.to_string(), "localhost:22222");
    assert!(is_inet(&a.socket_target(), "localhost:22222"));
    let b = ListenAddress::from("unix:/tmp/s".to_string());
    let all = ListenAddresses::new(vec![a.clone(), b]);
    assert_eq!(all.values().len(), 2);
    assert_eq!(all.values()[0].as_str(), "localhost:22222");
    assert_eq!(all.values()[1].as_str(), "unix:/tmp/s");
    assert!(is_unix(&all.values()[1].socket_target(), "/tmp/s"));
}

#[test]
fn connect_address() {
    let a = ConnectAddress::new("localhost:33333".to_string());
    assert_eq!(a.as_str(), "localhost:33333");
    assert_eq!(a.to_string(), "localhost:33333");
    assert!(is_inet(&a.socket_target(), "localhost:33333"));
}

#[test]
fn credential_commands() {
    let req = Command::Get.spawn_request();
    assert_eq!(req.command, "git");
    assert_eq!(req.args, vec!["credential".to_string(), "fill".to_string()]);
    assert_eq!(Command::Store.spawn_request().args[1], "approve");
    assert_eq!(Command::Erase.spawn_request().args[1], "reject");
}

#[test]
fn signals_delivered() {
    assert_eq!(Option::<OsSignal>::from(Signal::Terminate), Some(OsSignal::SigTerm));
    assert_eq!(Option::<OsSignal>::from(Signal::Io), Some(OsSignal::SigInt));
    assert_eq!(Signal::Kill.os_signal(), OsSignal::SigKill);
    assert_eq!(Signal::WindowChange.os_signal(), OsSignal::SigWinch);
    let fwd = forwarded_signals();
    assert_eq!(fwd.len(), 11);
    assert!(!fwd.contains(&Signal::Kill));
    assert_eq!(fwd[0], Signal::Alarm);
}

#[test]
fn codecs_keep_inner() {
    let mut d: CborDecoder<u32, Vec<u8>> = CborDecoder::new(vec![1, 2]);
    d.inner_mut().push(3);
    assert_eq!(*d.inner_mut(), vec![1, 2, 3]);
    let mut e = CborEncoder::new(5u8);
    *e.inner_mut() += 1;
    assert_eq!(*e.inner_mut(), 6);
}
