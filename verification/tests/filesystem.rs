use tweetfs::fs::TweetFS;
use tweetfs::protocol::{Errno, FileAttributes, Operation, Reply};

const WRITE_ONLY: u32 = 1;

fn open(fs: &mut TweetFS) -> u64 {
    match fs.call(Operation::Open { flags: WRITE_ONLY }) {
        Reply::Opened { fh, direct_io, keep_cache } => {
            assert!(direct_io);
            assert!(!keep_cache);
            fh
        }
        other => panic!("open was answered with {:?}", other),
    }
}

fn write(fs: &mut TweetFS, fh: u64, offset: u64, data: &[u8]) -> Reply {
    fs.call(Operation::Write { fh, offset, data: data.to_vec() })
}

#[test]
fn open_write_write_release_publishes_the_text() {
    let mut fs = TweetFS::new(1000, 1000);
    let fh = open(&mut fs);
    assert_eq!(write(&mut fs, fh, 0, b"hello"), Reply::Written { size: 5 });
    assert_eq!(write(&mut fs, fh, 5, b" world"), Reply::Written { size: 6 });
    assert_eq!(
        fs.call(Operation::Release { fh }),
        Reply::Released { status: "hello world".to_string() }
    );
    assert!(!fs.is_open(fh));
    assert!(fs.is_idle());
}

#[test]
fn write_at_an_offset_publishes_the_zero_filled_text() {
    let mut fs = TweetFS::new(1000, 1000);
    let fh = open(&mut fs);
    assert_eq!(write(&mut fs, fh, 3, b"abc"), Reply::Written { size: 3 });
    let expected = String::from_utf8_lossy(&[0u8, 0, 0, b'a', b'b', b'c']).into_owned();
    assert_eq!(expected, "\0\0\0abc");
    assert_eq!(expected.len(), 6);
    assert_eq!(fs.call(Operation::Release { fh }), Reply::Released { status: expected });
}

#[test]
fn open_for_reading_is_refused_and_allocates_nothing() {
    let mut fs = TweetFS::new(1000, 1000);
    let read_only = libc::O_RDONLY as u32;
    assert_eq!(
        fs.call(Operation::Open { flags: read_only }),
        Reply::Error(Errno::PermissionDenied)
    );
    assert!(fs.is_idle());
    assert!(!fs.is_open(0));
}

#[test]
fn open_for_reading_and_writing_is_refused() {
    let mut fs = TweetFS::new(1000, 1000);
    let read_write = libc::O_RDWR as u32;
    assert_eq!(
        fs.call(Operation::Open { flags: read_write }),
        Reply::Error(Errno::PermissionDenied)
    );
    assert_eq!(fs.call(Operation::Open { flags: 3 }), Reply::Error(Errno::PermissionDenied));
    assert_eq!(
        fs.call(Operation::Open { flags: read_write | libc::O_APPEND as u32 }),
        Reply::Error(Errno::PermissionDenied)
    );
    assert!(fs.is_idle());
}

#[test]
fn open_for_writing_with_other_flags_is_granted() {
    let mut fs = TweetFS::new(1000, 1000);
    let flags = (libc::O_WRONLY | libc::O_APPEND | libc::O_TRUNC) as u32;
    let reply = fs.call(Operation::Open { flags });
    assert!(matches!(reply, Reply::Opened { direct_io: true, keep_cache: false, .. }));
    assert!(!fs.is_idle());
}

#[test]
fn write_to_a_handle_never_opened_is_an_io_error() {
    let mut fs = TweetFS::new(1000, 1000);
    assert_eq!(write(&mut fs, 999, 0, b"lost"), Reply::Error(Errno::Io));
    assert!(fs.is_idle());
    assert!(!fs.is_open(999));
    let fh = open(&mut fs);
    assert!(fh != 999);
    assert_eq!(write(&mut fs, 999, 0, b"lost"), Reply::Error(Errno::Io));
    assert!(fs.is_open(fh));
    assert!(!fs.is_open(999));
    assert_eq!(fs.call(Operation::Release { fh }), Reply::Released { status: String::new() });
}

#[test]
fn write_after_release_is_an_io_error() {
    let mut fs = TweetFS::new(1000, 1000);
    let fh = open(&mut fs);
    assert_eq!(write(&mut fs, fh, 0, b"once"), Reply::Written { size: 4 });
    assert_eq!(
        fs.call(Operation::Release { fh }),
        Reply::Released { status: "once".to_string() }
    );
    assert_eq!(write(&mut fs, fh, 0, b"again"), Reply::Error(Errno::Io));
    assert!(fs.is_idle());
}

#[test]
fn second_release_is_an_io_error() {
    let mut fs = TweetFS::new(1000, 1000);
    let fh = open(&mut fs);
    assert_eq!(fs.call(Operation::Release { fh }), Reply::Released { status: String::new() });
    assert_eq!(fs.call(Operation::Release { fh }), Reply::Error(Errno::Io));
    assert!(fs.is_idle());
}

#[test]
fn release_of_a_handle_never_opened_is_an_io_error() {
    let mut fs = TweetFS::new(1000, 1000);
    assert_eq!(fs.call(Operation::Release { fh: 999 }), Reply::Error(Errno::Io));
    assert_eq!(fs.call(Operation::Release { fh: u64::MAX }), Reply::Error(Errno::Io));
    assert_eq!(write(&mut fs, u64::MAX, 0, b""), Reply::Error(Errno::Io));
}

#[test]
fn opens_give_distinct_handles() {
    let mut fs = TweetFS::new(1000, 1000);
    let mut handles: Vec<u64> = Vec::new();
    for _ in 0..50 {
        let fh = open(&mut fs);
        assert!(!handles.contains(&fh));
        handles.push(fh);
    }
    for fh in handles {
        assert!(fs.is_open(fh));
    }
}

#[test]
fn handles_keep_their_own_content() {
    let mut fs = TweetFS::new(1000, 1000);
    let a = open(&mut fs);
    let b = open(&mut fs);
    assert_eq!(write(&mut fs, a, 0, b"first"), Reply::Written { size: 5 });
    assert_eq!(write(&mut fs, b, 0, b"second"), Reply::Written { size: 6 });
    assert_eq!(write(&mut fs, a, 5, b"!"), Reply::Written { size: 1 });
    assert_eq!(
        fs.call(Operation::Release { fh: b }),
        Reply::Released { status: "second".to_string() }
    );
    assert!(fs.is_open(a));
    assert_eq!(
        fs.call(Operation::Release { fh: a }),
        Reply::Released { status: "first!".to_string() }
    );
}

#[test]
fn invalid_utf8_is_replaced_when_the_text_is_published() {
    let mut fs = TweetFS::new(1000, 1000);
    let fh = open(&mut fs);
    assert_eq!(write(&mut fs, fh, 0, &[b'a', 0xff, b'b']), Reply::Written { size: 3 });
    assert_eq!(
        fs.call(Operation::Release { fh }),
        Reply::Released { status: "a\u{fffd}b".to_string() }
    );
}

#[test]
fn multibyte_text_is_published_as_written() {
    let mut fs = TweetFS::new(1000, 1000);
    let fh = open(&mut fs);
    let text = "gr\u{fc}\u{df}e \u{1f426}";
    assert_eq!(
        write(&mut fs, fh, 0, text.as_bytes()),
        Reply::Written { size: text.len() }
    );
    assert_eq!(fs.call(Operation::Release { fh }), Reply::Released { status: text.to_string() });
}

#[test]
fn empty_write_is_accepted_with_size_zero() {
    let mut fs = TweetFS::new(1000, 1000);
    let fh = open(&mut fs);
    assert_eq!(write(&mut fs, fh, 0, b""), Reply::Written { size: 0 });
    assert_eq!(fs.call(Operation::Release { fh }), Reply::Released { status: String::new() });
}

#[test]
fn getattr_reports_the_fixed_attributes() {
    let mut fs = TweetFS::new(1234, 56);
    let expected = Reply::Attr {
        attr: FileAttributes { mode: 0o100200, ino: 1, nlink: 1, uid: 1234, gid: 56 },
        ttl_secs: 60 * 60 * 24 * 365,
    };
    assert_eq!(fs.call(Operation::Getattr), expected);
    let fh = open(&mut fs);
    assert_eq!(fs.call(Operation::Getattr), expected);
    assert_eq!(fs.getattr(), expected);
    assert!(fs.is_open(fh));
}

#[test]
fn other_operations_change_nothing() {
    let mut fs = TweetFS::new(1000, 1000);
    assert_eq!(fs.call(Operation::Other), Reply::Unhandled);
    assert!(fs.is_idle());
    let fh = open(&mut fs);
    assert_eq!(write(&mut fs, fh, 0, b"kept"), Reply::Written { size: 4 });
    assert_eq!(fs.call(Operation::Other), Reply::Unhandled);
    assert_eq!(
        fs.call(Operation::Release { fh }),
        Reply::Released { status: "kept".to_string() }
    );
}

#[test]
fn operations_can_be_called_one_by_one() {
    let mut fs = TweetFS::new(1000, 1000);
    let fh = match fs.open(WRITE_ONLY) {
        Reply::Opened { fh, .. } => fh,
        other => panic!("open was answered with {:?}", other),
    };
    assert_eq!(fs.write(fh, 2, b"ok"), Reply::Written { size: 2 });
    assert_eq!(fs.release(fh), Reply::Released { status: "\0\0ok".to_string() });
    assert_eq!(fs.release(fh), Reply::Error(Errno::Io));
    assert_eq!(fs.open(0), Reply::Error(Errno::PermissionDenied));
}
