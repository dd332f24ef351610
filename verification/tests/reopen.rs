use name_to_handle_at_rs::error::HandleError;
use name_to_handle_at_rs::flags::{OpenFlags, ALL_FLAGS};
use name_to_handle_at_rs::handle::LinuxFileHandle;
use name_to_handle_at_rs::platform;
use name_to_handle_at_rs::reopen::OpenRequest;
use std::collections::TryReserveError;

fn refusal() -> TryReserveError {
    Vec::<u8>::new().try_reserve(usize::MAX).unwrap_err()
}

#[test]
fn a_request_holds_a_copy_of_the_words_and_the_signed_flags() {
    let words: [u32; 4] = [8, 1, 0xdead_beef, 0x0bad_cafe];
    let h = LinuxFileHandle::try_from(&words[..]).unwrap();
    let flags = OpenFlags::from_bits(platform::O_PATH).unwrap();
    let request = h.open_by_handle(flags).unwrap();
    assert_eq!(request.buffer, words);
    assert_eq!(request.flags, 0o10000000);
    assert_ne!(request.buffer.as_ptr(), h.get_slice().as_ptr());

    let flags = OpenFlags::from_bits(platform::O_RDWR)
        .unwrap()
        .union(OpenFlags::from_bits(platform::O_CLOEXEC).unwrap());
    let request = h.open_by_handle(flags).unwrap();
    assert_eq!(request.flags, 0o2000002);
    assert_eq!(h.get_slice(), &words);
}

#[test]
fn flags_beyond_the_signed_range_are_refused() {
    let h = LinuxFileHandle::from_vec(&[1, 2, 3, 4]).unwrap();
    let r = h.open_by_handle(OpenFlags::from_bits_retain(0x8000_0000));
    assert_eq!(r, Err(HandleError::Conversion));
    let r = h.open_by_handle(OpenFlags::from_bits_retain(u32::MAX));
    assert_eq!(r, Err(HandleError::Conversion));
    let r = h.open_by_handle(OpenFlags::from_bits_retain(0x7fff_ffff)).unwrap();
    assert_eq!(r.flags, i32::MAX);
}

#[test]
fn a_refused_copy_is_an_allocation_failure() {
    let r = OpenRequest::prepare(Err(refusal()), OpenFlags::empty());
    assert_eq!(r, Err(HandleError::Alloc));
    let r = OpenRequest::prepare(Err(refusal()), OpenFlags::from_bits_retain(u32::MAX));
    assert_eq!(r, Err(HandleError::Alloc));
    let r = OpenRequest::prepare(Ok(vec![1, 2]), OpenFlags::from_bits_retain(u32::MAX));
    assert_eq!(r, Err(HandleError::Conversion));
    let r = OpenRequest::prepare(Ok(vec![1, 2]), OpenFlags::from_bits_retain(64));
    assert_eq!(r, Ok(OpenRequest { buffer: vec![1, 2], flags: 64 }));
}

#[test]
fn the_call_returns_a_descriptor_or_fails_with_the_error_code() {
    let request = || OpenRequest { buffer: vec![4, 1, 9], flags: 0 };
    assert_eq!(request().finish(7, 0), Ok(7));
    assert_eq!(request().finish(0, 13), Ok(0));
    assert_eq!(request().finish(i32::MAX, 1), Ok(i32::MAX));
    assert_eq!(request().finish(-1, 1), Err(HandleError::Os(1)));
    assert_eq!(request().finish(-1, 116), Err(HandleError::Os(116)));
    assert_eq!(request().finish(i32::MIN, 13), Err(HandleError::Os(13)));
}

#[test]
fn the_flags_have_the_values_of_the_platform() {
    assert_eq!(platform::O_RDONLY, 0);
    assert_eq!(platform::O_WRONLY, 1);
    assert_eq!(platform::O_RDWR, 2);
    assert_eq!(platform::O_CREAT, 0x40);
    assert_eq!(platform::O_EXCL, 0x80);
    assert_eq!(platform::O_NOCTTY, 0x100);
    assert_eq!(platform::O_TRUNC, 0x200);
    assert_eq!(platform::O_APPEND, 0x400);
    assert_eq!(platform::O_NONBLOCK, 0x800);
    assert_eq!(platform::O_DSYNC, 0x1000);
    assert_eq!(platform::O_ASYNC, 0x2000);
    assert_eq!(platform::O_DIRECT, 0x4000);
    assert_eq!(platform::O_LARGEFILE, 0);
    assert_eq!(platform::O_DIRECTORY, 0x10000);
    assert_eq!(platform::O_NOFOLLOW, 0x20000);
    assert_eq!(platform::O_NOATIME, 0x40000);
    assert_eq!(platform::O_CLOEXEC, 0x80000);
    assert_eq!(platform::O_SYNC, 0x101000);
    assert_eq!(platform::O_FSYNC, platform::O_SYNC);
    assert_eq!(platform::O_RSYNC, platform::O_SYNC);
    assert_eq!(platform::O_PATH, 0x200000);
    assert_eq!(platform::O_TMPFILE, 0x410000);
    assert_eq!(ALL_FLAGS, 0x7f_7fc3);
}

#[test]
fn from_bits_takes_named_bits_only() {
    assert_eq!(OpenFlags::from_bits(0).map(|f| f.bits()), Some(0));
    assert_eq!(OpenFlags::from_bits(platform::O_PATH).map(|f| f.bits()), Some(0x200000));
    assert_eq!(OpenFlags::from_bits(ALL_FLAGS).map(|f| f.bits()), Some(ALL_FLAGS));
    assert_eq!(OpenFlags::from_bits(4), None);
    assert_eq!(OpenFlags::from_bits(platform::O_PATH | 0x20), None);
    assert_eq!(OpenFlags::from_bits(0x8000_0000), None);
    assert_eq!(OpenFlags::from_bits_retain(0x8000_0004).bits(), 0x8000_0004);
}

#[test]
fn sets_of_flags_compose() {
    let creat = OpenFlags::from_bits(platform::O_CREAT).unwrap();
    let excl = OpenFlags::from_bits(platform::O_EXCL).unwrap();
    let sync = OpenFlags::from_bits(platform::O_SYNC).unwrap();
    let dsync = OpenFlags::from_bits(platform::O_DSYNC).unwrap();
    let both = creat.union(excl);
    assert_eq!(both.bits(), 0xc0);
    assert_eq!(both.union(OpenFlags::empty()), both);
    assert_eq!(both.intersection(creat), creat);
    assert_eq!(creat.intersection(excl), OpenFlags::empty());
    assert_eq!(sync.intersection(dsync), dsync);
    assert!(both.contains(creat));
    assert!(both.contains(excl));
    assert!(both.contains(both));
    assert!(both.contains(OpenFlags::empty()));
    assert!(!creat.contains(both));
    assert!(sync.contains(dsync));
    assert!(!dsync.contains(sync));
    assert!(OpenFlags::empty().is_empty());
    assert!(creat.intersection(excl).is_empty());
    assert!(!both.is_empty());
    assert_eq!(OpenFlags::empty().bits(), 0);
}

#[test]
fn a_handle_without_words_is_prepared_without_storage() {
    let h = LinuxFileHandle::from_vec(&[]).unwrap();
    let request = h.open_by_handle(OpenFlags::from_bits_retain(platform::O_PATH)).unwrap();
    assert_eq!(request, OpenRequest { buffer: vec![], flags: 0x200000 });
    let r = h.open_by_handle(OpenFlags::from_bits_retain(0x8000_0000));
    assert_eq!(r, Err(HandleError::Conversion));
}
