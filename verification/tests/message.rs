use std::mem::size_of;

use userfaultfd::defines::{
    UFFD_EVENT_FORK, UFFD_EVENT_PAGEFAULT, UFFD_EVENT_REMAP, UFFD_EVENT_REMOVE, UFFD_EVENT_UNMAP,
    UFFD_MSG_SIZE,
};
use userfaultfd::{
    ForkMessage, Handle, Message, OsError, PagefaultMessage, Range, ReadFailed, RemapMessage,
    RemoveMessage, UffdMsg, UnmapMessage,
};

fn record(event: u8) -> UffdMsg {
    let mut r = [0u8; 32];
    r[0] = event;
    r
}

fn put(r: &mut UffdMsg, at: usize, bytes: &[u8]) {
    r[at..at + bytes.len()].copy_from_slice(bytes);
}

#[test]
fn assert_sizes() {
    assert!(size_of::<PagefaultMessage>() == size_of::<UffdMsg>());
    assert!(size_of::<ForkMessage>() == size_of::<UffdMsg>());
    assert!(size_of::<RemapMessage>() == size_of::<UffdMsg>());
    assert!(size_of::<RemoveMessage>() == size_of::<UffdMsg>());
    assert!(size_of::<UnmapMessage>() == size_of::<UffdMsg>());
}

#[test]
fn record_size_is_thirty_two() {
    assert_eq!(size_of::<UffdMsg>(), UFFD_MSG_SIZE);
    assert_eq!(UFFD_MSG_SIZE, 32);
}

#[test]
fn decode_pagefault() {
    let mut r = record(UFFD_EVENT_PAGEFAULT);
    put(&mut r, 8, &1u64.to_le_bytes());
    put(&mut r, 16, &0x7f12_3456_7000u64.to_le_bytes());
    match Message::decode(&r) {
        Some(Message::Pagefault(m)) => {
            assert_eq!(m.event, 0x12);
            assert_eq!(m.flags, 1);
            assert_eq!(m.address, 0x7f12_3456_7000);
            assert_eq!(m.pad, 0);
        }
        other => panic!("not a page fault: {:?}", other),
    }
}

#[test]
fn decode_reads_every_byte_of_a_field() {
    let mut r = record(UFFD_EVENT_PAGEFAULT);
    put(&mut r, 1, &[0xa1]);
    put(&mut r, 2, &[0x02, 0x03]);
    put(&mut r, 4, &[0x04, 0x05, 0x06, 0x07]);
    put(&mut r, 8, &[0x01, 0x02, 0x03, 0x04, 0x05, 0x06, 0x07, 0x08]);
    put(&mut r, 16, &[0x11, 0x12, 0x13, 0x14, 0x15, 0x16, 0x17, 0x18]);
    put(&mut r, 24, &[0x21, 0x22, 0x23, 0x24, 0x25, 0x26, 0x27, 0x28]);
    let expected = PagefaultMessage {
        event: 0x12,
        reserved1: 0xa1,
        reserved2: 0x0302,
        reserved3: 0x0706_0504,
        flags: 0x0807_0605_0403_0201,
        address: 0x1817_1615_1413_1211,
        pad: 0x2827_2625_2423_2221,
    };
    assert_eq!(Message::decode(&r), Some(Message::Pagefault(expected)));
}

#[test]
fn decode_fork() {
    let mut r = record(UFFD_EVENT_FORK);
    put(&mut r, 8, &0xdead_beefu32.to_le_bytes());
    put(&mut r, 12, &0x0102_0304u32.to_le_bytes());
    match Message::decode(&r) {
        Some(Message::Fork(m)) => {
            assert_eq!(m.ufd, 0xdead_beef);
            assert_eq!(m.pad1, 0x0102_0304);
            assert_eq!(m.pad2, 0);
            assert_eq!(m.pad3, 0);
        }
        other => panic!("not a fork: {:?}", other),
    }
}

#[test]
fn decode_remap() {
    let mut r = record(UFFD_EVENT_REMAP);
    put(&mut r, 8, &0x1000u64.to_le_bytes());
    put(&mut r, 16, &0x9000u64.to_le_bytes());
    put(&mut r, 24, &0x3000u64.to_le_bytes());
    match Message::decode(&r) {
        Some(Message::Remap(m)) => {
            assert_eq!(m.from, 0x1000);
            assert_eq!(m.to, 0x9000);
            assert_eq!(m.len, 0x3000);
        }
        other => panic!("not a remap: {:?}", other),
    }
}

#[test]
fn decode_remove() {
    let mut r = record(UFFD_EVENT_REMOVE);
    put(&mut r, 8, &0x4000u64.to_le_bytes());
    put(&mut r, 16, &0x6000u64.to_le_bytes());
    match Message::decode(&r) {
        Some(Message::Remove(m)) => {
            assert_eq!(m.start, 0x4000);
            assert_eq!(m.end, 0x6000);
        }
        other => panic!("not a remove: {:?}", other),
    }
}

#[test]
fn decode_unmap() {
    let mut r = record(UFFD_EVENT_UNMAP);
    put(&mut r, 8, &u64::MAX.to_le_bytes());
    put(&mut r, 16, &0xffff_ffff_ffff_f000u64.to_le_bytes());
    match Message::decode(&r) {
        Some(Message::Unmap(m)) => {
            assert_eq!(m.start, u64::MAX);
            assert_eq!(m.end, 0xffff_ffff_ffff_f000);
        }
        other => panic!("not an unmap: {:?}", other),
    }
}

#[test]
fn decode_refuses_unknown_kinds() {
    for event in [0x00u8, 0x01, 0x11, 0x17, 0xff] {
        assert!(!Message::is_known(event));
        assert_eq!(Message::decode(&record(event)), None);
    }
    for event in [0x12u8, 0x13, 0x14, 0x15, 0x16] {
        assert!(Message::is_known(event));
        assert!(Message::decode(&record(event)).is_some());
    }
}

#[test]
fn range_of_a_buffer() {
    let r = Range::from_raw_parts(0x7000_0000, 12288, 1);
    assert_eq!(r, Range { start: 0x7000_0000, len: 12288 });
    let words = Range::from_raw_parts(0x7000_0000, 512, 8);
    assert_eq!(words, Range { start: 0x7000_0000, len: 4096 });
    let none = Range::from_raw_parts(0x10, 0, 4);
    assert_eq!(none, Range { start: 0x10, len: 0 });
}

#[test]
fn range_of_a_pagefault() {
    let mut r = record(UFFD_EVENT_PAGEFAULT);
    put(&mut r, 16, &0x7f00_0000_2000u64.to_le_bytes());
    let fault = match Message::decode(&r) {
        Some(Message::Pagefault(m)) => m,
        other => panic!("not a page fault: {:?}", other),
    };
    assert_eq!(Range::from(&fault), Range { start: 0x7f00_0000_2000, len: 4096 });
}

#[test]
fn read_message_passes_errors_on() {
    let h = Handle::from_fd(3);
    let r = record(UFFD_EVENT_PAGEFAULT);
    assert_eq!(
        h.read_message(Err(OsError { errno: 11 }), &r),
        Err(ReadFailed::Os(OsError { errno: 11 }))
    );
    assert_eq!(
        h.read_message(Err(OsError { errno: 22 }), &record(0)),
        Err(ReadFailed::Os(OsError { errno: 22 }))
    );
}

#[test]
fn read_message_decodes_what_was_read() {
    let h = Handle::from_fd(3);
    let mut r = record(UFFD_EVENT_REMOVE);
    put(&mut r, 8, &0x2000u64.to_le_bytes());
    put(&mut r, 16, &0x5000u64.to_le_bytes());
    match h.read_message(Ok(32), &r) {
        Ok(Message::Remove(m)) => {
            assert_eq!(m.start, 0x2000);
            assert_eq!(m.end, 0x5000);
        }
        other => panic!("not a remove: {:?}", other),
    }
}

#[test]
fn read_message_gives_no_message_for_an_empty_read() {
    let h = Handle::from_fd(3);
    assert_eq!(h.read_message(Ok(0), &record(0)), Err(ReadFailed::Short(0)));
    let mut r = record(UFFD_EVENT_PAGEFAULT);
    put(&mut r, 16, &0x7000u64.to_le_bytes());
    assert_eq!(h.read_message(Ok(0), &r), Err(ReadFailed::Short(0)));
}

#[test]
fn read_message_gives_no_message_for_a_short_read() {
    let h = Handle::from_fd(3);
    let mut r = record(UFFD_EVENT_PAGEFAULT);
    put(&mut r, 8, &1u64.to_le_bytes());
    assert_eq!(h.read_message(Ok(16), &r), Err(ReadFailed::Short(16)));
    assert_eq!(h.read_message(Ok(1), &r), Err(ReadFailed::Short(1)));
    assert_eq!(h.read_message(Ok(31), &r), Err(ReadFailed::Short(31)));
    assert_eq!(h.read_message(Ok(16), &record(0xff)), Err(ReadFailed::Short(16)));
}

#[test]
fn read_message_takes_one_whole_record_only() {
    let h = Handle::from_fd(3);
    let r = record(UFFD_EVENT_FORK);
    assert!(h.read_message(Ok(32), &r).is_ok());
    assert_eq!(h.read_message(Ok(33), &r), Err(ReadFailed::Short(33)));
    assert_eq!(h.read_message(Ok(64), &r), Err(ReadFailed::Short(64)));
}

#[test]
fn whole_record_is_a_read_of_the_size_of_a_record() {
    assert!(Handle::whole_record(&Ok(32)));
    assert!(Handle::whole_record(&Ok(UFFD_MSG_SIZE)));
    assert!(!Handle::whole_record(&Ok(0)));
    assert!(!Handle::whole_record(&Ok(16)));
    assert!(!Handle::whole_record(&Ok(33)));
    assert!(!Handle::whole_record(&Err(OsError { errno: 11 })));
}
