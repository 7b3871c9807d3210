use sockcore::addr::{decode, SocketAddr, SocketAddrUnix};
use sockcore::flags::SocketType;
use sockcore::normalize::{check, Errno, RawReturn};
use sockcore::ops::{done, new_fd, socket_type_from, Error, SOCKET_TYPE_LEN};

#[test]
fn libc_convention() {
    assert_eq!(check(RawReturn::Libc { ret: 5, errno: 0 }), Ok(5));
    assert_eq!(check(RawReturn::Libc { ret: 0, errno: 99 }), Ok(0));
    assert_eq!(
        check(RawReturn::Libc { ret: -1, errno: libc::EACCES }),
        Err(Errno { raw: libc::EACCES })
    );
}

#[test]
fn syscall_convention() {
    assert_eq!(check(RawReturn::Syscall { value: 3 }), Ok(3));
    let eperm = (-(libc::EPERM as isize)) as usize;
    assert_eq!(check(RawReturn::Syscall { value: eperm }), Err(Errno { raw: libc::EPERM }));
    let ebadf = (-(libc::EBADF as isize)) as usize;
    assert_eq!(check(RawReturn::Syscall { value: ebadf }), Err(Errno { raw: libc::EBADF }));
    assert_eq!(check(RawReturn::Syscall { value: usize::MAX - 4095 }), Ok(usize::MAX - 4095));
    assert_eq!(check(RawReturn::Syscall { value: usize::MAX - 4094 }), Err(Errno { raw: 4095 }));
}

#[test]
fn both_paths_agree() {
    let e = libc::ECONNREFUSED;
    let via_libc = check(RawReturn::Libc { ret: -1, errno: e });
    let via_syscall = check(RawReturn::Syscall { value: (-(e as isize)) as usize });
    assert_eq!(via_libc, via_syscall);
    assert_eq!(
        check(RawReturn::Libc { ret: 42, errno: e }),
        check(RawReturn::Syscall { value: 42 })
    );
}

#[test]
fn errno_accessors() {
    let e = Errno::from_raw_os_error(libc::EINTR);
    assert_eq!(e.raw_os_error(), libc::EINTR);
}

#[test]
fn descriptors() {
    assert_eq!(new_fd(RawReturn::Libc { ret: 3, errno: 0 }), Ok(3));
    assert_eq!(new_fd(RawReturn::Syscall { value: 7 }), Ok(7));
    assert_eq!(
        new_fd(RawReturn::Libc { ret: -1, errno: libc::EMFILE }),
        Err(Error::Os(Errno { raw: libc::EMFILE }))
    );
    assert_eq!(
        new_fd(RawReturn::Syscall { value: 0x8000_0000 }),
        Err(Error::BadDescriptor { returned: 0x8000_0000 })
    );
    assert_eq!(new_fd(RawReturn::Syscall { value: 0x7fff_ffff }), Ok(i32::MAX));
}

#[test]
fn unit_results() {
    assert_eq!(done(RawReturn::Libc { ret: 0, errno: 0 }), Ok(()));
    assert_eq!(
        done(RawReturn::Libc { ret: -1, errno: libc::EADDRINUSE }),
        Err(Error::Os(Errno { raw: libc::EADDRINUSE }))
    );
    let enotconn = (-(libc::ENOTCONN as isize)) as usize;
    assert_eq!(
        done(RawReturn::Syscall { value: enotconn }),
        Err(Error::Os(Errno { raw: libc::ENOTCONN }))
    );
}

#[test]
fn stream_socket_reports_stream_type() {
    let fd = new_fd(RawReturn::Libc { ret: 4, errno: 0 });
    assert_eq!(fd, Ok(4));
    let t = socket_type_from(
        RawReturn::Libc { ret: 0, errno: 0 },
        SocketType::Stream.as_raw(),
        SOCKET_TYPE_LEN,
    );
    assert_eq!(t, Ok(SocketType::Stream));
    let t = socket_type_from(RawReturn::Syscall { value: 0 }, libc::SOCK_DGRAM as u32, 4);
    assert_eq!(t, Ok(SocketType::Datagram));
}

#[test]
fn socket_type_errors() {
    assert_eq!(
        socket_type_from(RawReturn::Libc { ret: -1, errno: libc::ENOTSOCK }, 1, 4),
        Err(Error::Os(Errno { raw: libc::ENOTSOCK }))
    );
    assert_eq!(
        socket_type_from(RawReturn::Libc { ret: 0, errno: 0 }, 1, 2),
        Err(Error::OptionLen { len: 2 })
    );
    assert_eq!(
        socket_type_from(RawReturn::Libc { ret: 0, errno: 0 }, 10, 4),
        Err(Error::UnrecognizedValue { value: 10 })
    );
}

#[test]
fn unix_peer_with_full_layout_decodes() {
    let fd = new_fd(RawReturn::Libc { ret: 6, errno: 0 }).unwrap();
    assert_eq!(fd, 6);
    let peer = SocketAddrUnix::new(b"/tmp/core_test.sock").unwrap();
    let bytes = peer.encode();
    let mut storage = [0u8; 128];
    storage[..bytes.len()].copy_from_slice(&bytes);
    let addr = decode(&storage, bytes.len()).unwrap();
    assert_eq!(addr, SocketAddr::Unix(peer));
}
