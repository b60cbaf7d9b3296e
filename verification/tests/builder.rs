use userfaultfd::defines::{UffdioApi, UffdioRange, UffdioRegister, UFFD_EVENT_PAGEFAULT};
use userfaultfd::raw_interface::{uffdio_api, uffdio_register, uffdio_zeropage};
use userfaultfd::{
    Builder, CreationFailed, Ioctls, Message, OsError, Progress, Range, RegisterMode, Transfer,
    ZeropageMode,
};

#[test]
fn new_builder_has_everything_off() {
    let b = Builder::new();
    assert!(!b.close_on_exec);
    assert!(!b.non_block);
    assert!(!b.event_fork);
    assert!(!b.event_remap);
    assert!(!b.event_remove);
    assert!(!b.event_unmap);
    assert!(!b.hugetlbfs);
    assert!(!b.shmem);
    assert_eq!(b, Builder::default());
    assert_eq!(b.flags(), 0);
    assert_eq!(b.features(), 0);
}

#[test]
fn setters_change_one_option_each() {
    let off = Builder::new();
    assert_eq!(off.close_on_exec(true), Builder { close_on_exec: true, ..off });
    assert_eq!(off.non_block(true), Builder { non_block: true, ..off });
    assert_eq!(off.event_fork(true), Builder { event_fork: true, ..off });
    assert_eq!(off.event_remap(true), Builder { event_remap: true, ..off });
    assert_eq!(off.event_remove(true), Builder { event_remove: true, ..off });
    assert_eq!(off.event_unmap(true), Builder { event_unmap: true, ..off });
    assert_eq!(off.hugetlbfs(true), Builder { hugetlbfs: true, ..off });
    assert_eq!(off.shmem(true), Builder { shmem: true, ..off });
    assert_eq!(off.shmem(true).shmem(false), off);
}

#[test]
fn creation_flags() {
    assert_eq!(Builder::new().close_on_exec(true).flags(), 0x80000);
    assert_eq!(Builder::new().non_block(true).flags(), 0x800);
    assert_eq!(Builder::new().non_block(true).close_on_exec(true).flags(), 0x80800);
    assert_eq!(Builder::new().event_fork(true).shmem(true).flags(), 0);
}

#[test]
fn requested_features() {
    assert_eq!(Builder::new().event_fork(true).features(), 0x02);
    assert_eq!(Builder::new().event_remap(true).features(), 0x04);
    assert_eq!(Builder::new().event_remove(true).features(), 0x08);
    assert_eq!(Builder::new().hugetlbfs(true).features(), 0x10);
    assert_eq!(Builder::new().shmem(true).features(), 0x20);
    assert_eq!(Builder::new().event_unmap(true).features(), 0x40);
    let all = Builder::new()
        .event_fork(true)
        .event_remap(true)
        .event_remove(true)
        .event_unmap(true)
        .hugetlbfs(true)
        .shmem(true);
    assert_eq!(all.features(), 0x7e);
    assert_eq!(Builder::new().close_on_exec(true).non_block(true).features(), 0);
}

#[test]
fn create_fails_where_the_creation_call_failed() {
    let got = Builder::new().create(-1);
    assert_eq!(got.unwrap_err(), CreationFailed(OsError { errno: 1 }));
    let got = Builder::new().non_block(true).create(-24);
    assert_eq!(got.unwrap_err(), CreationFailed(OsError { errno: 24 }));
}

#[test]
fn create_asks_for_the_negotiation() {
    let b = Builder::new().close_on_exec(true).event_fork(true).event_unmap(true);
    let (handle, request) = b.create(7).unwrap();
    assert_eq!(handle.as_raw_fd(), 7);
    assert_eq!(request.fd, 7);
    assert_eq!(request.cmd, 0xC018_AA3F);
    assert_eq!(request.arg, UffdioApi { api: 0xAA, features: 0x42, ioctls: 0 });
}

#[test]
fn missing_page_round() {
    let b = Builder::new().non_block(true);
    assert_eq!(b.flags(), 0x800);
    let (handle, negotiation) = b.create(3).unwrap();
    assert_eq!(negotiation.arg.features, 0);
    let granted = UffdioApi { api: 0xAA, features: 0, ioctls: 0x8000_0000_0000_0003 };
    assert_eq!(uffdio_api(Ok(0), &granted), Ok(0x8000_0000_0000_0003));

    let start = 0x7f00_0000_0000u64;
    let request = handle.register(Range { start, len: 12288 }, RegisterMode::missing());
    assert_eq!(request.fd, 3);
    assert_eq!(request.cmd, 0xC020_AA00);
    assert_eq!(
        request.arg,
        UffdioRegister { range: UffdioRange { start, len: 12288 }, mode: 1, ioctls: 0 }
    );
    let answered = UffdioRegister { ioctls: 0x1c, ..request.arg };
    let available = uffdio_register(Ok(0), &answered).unwrap();
    assert!(available.contains(Ioctls::wake()));
    assert!(available.contains(Ioctls::copy()));

    let mut record = [0u8; 32];
    record[0] = UFFD_EVENT_PAGEFAULT;
    record[16..24].copy_from_slice(&start.to_le_bytes());
    let fault = match handle.read_message(Ok(32), &record) {
        Ok(Message::Pagefault(fault)) => fault,
        other => panic!("not a page fault: {:?}", other),
    };
    assert_eq!(fault.address, start);

    let fill = handle.zeropage(Range::from(&fault), ZeropageMode::empty());
    assert_eq!(fill.fd, 3);
    assert_eq!(fill.cmd, 0xC020_AA04);
    assert_eq!(fill.arg.range, UffdioRange { start, len: 4096 });
    assert_eq!(fill.arg.mode, 0);
    let done = Progress { outcome: Ok(0), done: 4096 };
    assert_eq!(uffdio_zeropage(Transfer::Pending(fill.arg), &[done]), Transfer::Done);
}
