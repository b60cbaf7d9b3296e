use userfaultfd::flags::{
    IOCTLS_ALL, IOCTL_API, IOCTL_COPY, IOCTL_REGISTER, IOCTL_UNREGISTER, IOCTL_WAKE, IOCTL_ZEROPAGE,
};
use userfaultfd::{CopyMode, ErrorKind, Ioctls, OsError, RegisterMode, ZeropageMode};

#[test]
fn members_have_the_bits_of_the_kernel() {
    assert_eq!(RegisterMode::missing().bits(), 1);
    assert_eq!(RegisterMode::wp().bits(), 2);
    assert_eq!(RegisterMode::all().bits(), 3);
    assert_eq!(RegisterMode::empty().bits(), 0);
    assert_eq!(CopyMode::dontwake().bits(), 1);
    assert_eq!(CopyMode::all().bits(), 1);
    assert_eq!(CopyMode::empty().bits(), 0);
    assert_eq!(ZeropageMode::dontwake().bits(), 1);
    assert_eq!(ZeropageMode::all().bits(), 1);
    assert_eq!(ZeropageMode::empty().bits(), 0);
    assert_eq!(Ioctls::api().bits(), 1 << 0x3f);
    assert_eq!(Ioctls::register().bits(), 1 << 0);
    assert_eq!(Ioctls::unregister().bits(), 1 << 1);
    assert_eq!(Ioctls::wake().bits(), 1 << 2);
    assert_eq!(Ioctls::copy().bits(), 1 << 3);
    assert_eq!(Ioctls::zeropage().bits(), 1 << 4);
    assert_eq!(Ioctls::api_ioctls().bits(), IOCTL_API | IOCTL_REGISTER | IOCTL_UNREGISTER);
    assert_eq!(Ioctls::range_ioctls().bits(), IOCTL_WAKE | IOCTL_COPY | IOCTL_ZEROPAGE);
    assert_eq!(Ioctls::range_ioctls_basic().bits(), IOCTL_WAKE | IOCTL_COPY);
    assert_eq!(Ioctls::all().bits(), IOCTLS_ALL);
    assert_eq!(Ioctls::empty().bits(), 0);
}

#[test]
fn from_bits_refuses_undefined_bits() {
    assert_eq!(RegisterMode::from_bits(0), Some(RegisterMode::empty()));
    assert_eq!(RegisterMode::from_bits(3), Some(RegisterMode::all()));
    assert_eq!(RegisterMode::from_bits(4), None);
    assert_eq!(RegisterMode::from_bits(5), None);
    assert_eq!(CopyMode::from_bits(1), Some(CopyMode::dontwake()));
    assert_eq!(CopyMode::from_bits(2), None);
    assert_eq!(ZeropageMode::from_bits(1), Some(ZeropageMode::dontwake()));
    assert_eq!(ZeropageMode::from_bits(u64::MAX), None);
    assert_eq!(Ioctls::from_bits(0x1c), Some(Ioctls::range_ioctls()));
    assert_eq!(Ioctls::from_bits(0x20), None);
}

#[test]
fn from_bits_truncate_drops_undefined_bits() {
    assert_eq!(RegisterMode::from_bits_truncate(0xff).bits(), 3);
    assert_eq!(RegisterMode::from_bits_truncate(6), RegisterMode::wp());
    assert_eq!(CopyMode::from_bits_truncate(0xfe), CopyMode::empty());
    assert_eq!(ZeropageMode::from_bits_truncate(3), ZeropageMode::dontwake());
    assert_eq!(Ioctls::from_bits_truncate(u64::MAX), Ioctls::all());
    assert_eq!(Ioctls::from_bits_truncate(0x2c).bits(), 0x0c);
}

#[test]
fn membership_union_and_intersection() {
    let both = RegisterMode::missing().union(RegisterMode::wp());
    assert_eq!(both, RegisterMode::all());
    assert!(both.contains(RegisterMode::missing()));
    assert!(both.contains(RegisterMode::wp()));
    assert!(both.contains(RegisterMode::empty()));
    assert!(!RegisterMode::missing().contains(RegisterMode::wp()));
    assert!(!RegisterMode::missing().contains(both));
    assert_eq!(both.intersection(RegisterMode::wp()), RegisterMode::wp());
    assert_eq!(RegisterMode::missing().intersection(RegisterMode::wp()), RegisterMode::empty());
    assert!(RegisterMode::empty().is_empty());
    assert!(!RegisterMode::wp().is_empty());

    let range = Ioctls::wake().union(Ioctls::copy()).union(Ioctls::zeropage());
    assert_eq!(range, Ioctls::range_ioctls());
    assert!(range.contains(Ioctls::range_ioctls_basic()));
    assert!(!Ioctls::range_ioctls_basic().contains(range));
    assert_eq!(range.intersection(Ioctls::api_ioctls()), Ioctls::empty());
    assert_eq!(Ioctls::api_ioctls().union(range), Ioctls::all());
    assert!(CopyMode::dontwake().contains(CopyMode::dontwake()));
    assert!(!CopyMode::empty().contains(CopyMode::dontwake()));
    assert!(ZeropageMode::dontwake().union(ZeropageMode::empty()).contains(ZeropageMode::dontwake()));
}

#[test]
fn ioctls_are_written_in_the_order_of_the_kernel() {
    assert_eq!(Ioctls::empty().to_string(), "[]");
    assert_eq!(Ioctls::copy().to_string(), "[IOCTL_COPY]");
    assert_eq!(Ioctls::api().to_string(), "[IOCTL_API]");
    assert_eq!(
        Ioctls::api_ioctls().to_string(),
        "[IOCTL_APIIOCTL_REGISTERIOCTL_UNREGISTER]"
    );
    assert_eq!(
        Ioctls::range_ioctls().to_string(),
        "[IOCTL_WAKEIOCTL_COPYIOCTL_ZEROPAGE]"
    );
    assert_eq!(
        Ioctls::all().to_string(),
        "[IOCTL_APIIOCTL_REGISTERIOCTL_UNREGISTERIOCTL_WAKEIOCTL_COPYIOCTL_ZEROPAGE]"
    );
}

#[test]
fn error_kinds() {
    assert_eq!(OsError::from_raw_os_error(4).kind(), ErrorKind::Interrupted);
    assert_eq!(OsError::from_raw_os_error(11).kind(), ErrorKind::WouldBlock);
    assert_eq!(OsError::from_raw_os_error(22).kind(), ErrorKind::InvalidInput);
    assert_eq!(OsError::from_raw_os_error(16).kind(), ErrorKind::Busy);
    assert_eq!(OsError::from_raw_os_error(2).kind(), ErrorKind::NotFound);
    assert_eq!(OsError::from_raw_os_error(28).kind(), ErrorKind::NoSpace);
    assert_eq!(OsError::from_raw_os_error(14).kind(), ErrorKind::Fault);
    assert_eq!(OsError::from_raw_os_error(1).kind(), ErrorKind::Other);
    assert_eq!(OsError::from_raw_os_error(0).kind(), ErrorKind::Other);
    assert_eq!(OsError::from_raw_os_error(-4).kind(), ErrorKind::Other);
    assert_eq!(OsError::from_raw_os_error(9).raw_os_error(), 9);
}
