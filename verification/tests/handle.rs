use userfaultfd::defines::{UffdioCopy, UffdioRange, UffdioRegister, UffdioZeropage};
use userfaultfd::{CopyMode, Handle, Range, RegisterMode, ZeropageMode};

#[test]
fn handle_keeps_its_descriptor() {
    let h = Handle::from_fd(9);
    assert_eq!(h.as_raw_fd(), 9);
    assert_eq!(h.into_raw_fd(), 9);
}

#[test]
fn evented_descriptor_is_the_descriptor_of_the_handle() {
    let h = Handle::from_fd(11);
    let evented = h.get_eventfd();
    assert_eq!(*evented.0, 11);
}

#[test]
fn each_operation_has_its_own_command() {
    let h = Handle::from_fd(6);
    let range = Range { start: 0x1000, len: 0x2000 };
    let register = h.register(range, RegisterMode::missing().union(RegisterMode::wp()));
    let unregister = h.unregister(range);
    let wake = h.wake(range);
    let copy = h.copy(0x1000, 0x9000, 0x2000, CopyMode::dontwake());
    let zeropage = h.zeropage(range, ZeropageMode::dontwake());
    assert_eq!(register.cmd, 0xC020_AA00);
    assert_eq!(unregister.cmd, 0x8010_AA01);
    assert_eq!(wake.cmd, 0x8010_AA02);
    assert_eq!(copy.cmd, 0xC028_AA03);
    assert_eq!(zeropage.cmd, 0xC020_AA04);
    for fd in [register.fd, unregister.fd, wake.fd, copy.fd, zeropage.fd] {
        assert_eq!(fd, 6);
    }
}

#[test]
fn requests_carry_what_was_asked() {
    let h = Handle::from_fd(6);
    let range = Range { start: 0x1000, len: 0x2000 };
    let wire = UffdioRange { start: 0x1000, len: 0x2000 };
    assert_eq!(
        h.register(range, RegisterMode::wp()).arg,
        UffdioRegister { range: wire, mode: 2, ioctls: 0 }
    );
    assert_eq!(h.unregister(range).arg, wire);
    assert_eq!(h.wake(range).arg, wire);
    assert_eq!(
        h.copy(0x1000, 0x9000, 0x2000, CopyMode::dontwake()).arg,
        UffdioCopy { dst: 0x1000, src: 0x9000, len: 0x2000, mode: 1, copy: 0 }
    );
    assert_eq!(
        h.zeropage(range, ZeropageMode::dontwake()).arg,
        UffdioZeropage { range: wire, mode: 1, zeropage: 0 }
    );
    assert_eq!(UffdioRange::from(range), wire);
}

#[test]
fn a_pending_request_goes_out_as_the_first_did() {
    let h = Handle::from_fd(6);
    let first = h.copy(0x1000, 0x9000, 0x2000, CopyMode::dontwake());
    let again = h.copy_again(first.arg);
    assert_eq!(again, first);
    let rest = UffdioCopy { dst: 0x2000, src: 0xa000, len: 0x1000, mode: 1, copy: 0x1000 };
    let next = h.copy_again(rest);
    assert_eq!(next.fd, 6);
    assert_eq!(next.cmd, first.cmd);
    assert_eq!(next.arg, rest);

    let range = Range { start: 0x1000, len: 0x2000 };
    let first = h.zeropage(range, ZeropageMode::empty());
    let again = h.zeropage_again(first.arg);
    assert_eq!(again, first);
    let rest = UffdioZeropage {
        range: UffdioRange { start: 0x2000, len: 0x1000 },
        mode: 0,
        zeropage: 0x1000,
    };
    let next = h.zeropage_again(rest);
    assert_eq!(next.fd, 6);
    assert_eq!(next.cmd, first.cmd);
    assert_eq!(next.arg, rest);
    assert!(next.cmd != h.copy_again(UffdioCopy { dst: 0, src: 0, len: 0, mode: 0, copy: 0 }).cmd);
    assert!(next.cmd != h.unregister(range).cmd);
}
