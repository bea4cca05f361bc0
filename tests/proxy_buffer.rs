use pve_lxc_syscalld::lxcseccomp::{ProxyError, ProxyMessageBuffer, SeccompNotifyProxyMsg, ENVELOPE_SIZE};
use pve_lxc_syscalld::seccomp::{SeccompNotif, SeccompNotifResp, SeccompNotifSizes, SizesMismatch};
use std::rc::Rc;

const PACKET: usize = 136;

fn native() -> SeccompNotifSizes {
    SeccompNotifSizes { notif: 80, notif_resp: 24, data: 64 }
}

fn envelope(reserved0: u64, sizes: SeccompNotifSizes, cookie_len: u64) -> Vec<u8> {
    let mut v = Vec::new();
    v.extend_from_slice(&reserved0.to_le_bytes());
    v.extend_from_slice(&4242i32.to_le_bytes());
    v.extend_from_slice(&17i32.to_le_bytes());
    v.extend_from_slice(&sizes.notif.to_le_bytes());
    v.extend_from_slice(&sizes.notif_resp.to_le_bytes());
    v.extend_from_slice(&sizes.data.to_le_bytes());
    v.extend_from_slice(&[0, 0]);
    v.extend_from_slice(&cookie_len.to_le_bytes());
    v
}

fn notif_bytes() -> Vec<u8> {
    let mut v = Vec::new();
    v.extend_from_slice(&0x1122_3344_5566_7788u64.to_le_bytes());
    v.extend_from_slice(&1234u32.to_le_bytes());
    v.extend_from_slice(&0u32.to_le_bytes());
    v.extend_from_slice(&(-2i32).to_le_bytes());
    v.extend_from_slice(&0xc000_003eu32.to_le_bytes());
    v.extend_from_slice(&0x7fff_0000_1000u64.to_le_bytes());
    for k in 0..6u64 {
        v.extend_from_slice(&(100 + k).to_le_bytes());
    }
    v
}

fn message(reserved0: u64, sizes: SeccompNotifSizes, cookie_len: u64, cookie: &[u8]) -> Vec<u8> {
    let mut v = envelope(reserved0, sizes, cookie_len);
    v.extend_from_slice(&notif_bytes());
    v.extend_from_slice(&[0xaa; 24]);
    v.extend_from_slice(cookie);
    v
}

fn cookie10() -> Vec<u8> {
    (1..=10u8).collect()
}

#[test]
fn round_trip_scenario() {
    let mut buf: ProxyMessageBuffer<i32> = ProxyMessageBuffer::new(32, native());
    let data = message(0, native(), 10, &cookie10());
    assert_eq!(data.len(), PACKET + 10);
    assert_eq!(buf.recv(&data, vec![3, 4]), Ok(true));
    assert_eq!(buf.cookie().len(), 10);
    assert_eq!(buf.cookie_len(), 10);
    assert_eq!(buf.cookie(), &cookie10()[..]);
    assert_eq!(buf.request().id, 0x1122_3344_5566_7788);
    let id = buf.request().id;
    assert_eq!(buf.response_mut().id, id);
    assert_eq!(buf.monitor_pid(), 4242);
    assert_eq!(buf.init_pid(), 17);
    assert_eq!(buf.pid_fd(), Some(&3));
    assert_eq!(buf.mem_fd(), Some(&4));
}

#[test]
fn request_fields_are_decoded() {
    let mut buf: ProxyMessageBuffer<i32> = ProxyMessageBuffer::new(32, native());
    buf.recv(&message(0, native(), 10, &cookie10()), vec![3, 4]).unwrap();
    let req: SeccompNotif = *buf.request();
    assert_eq!(req.pid, 1234);
    assert_eq!(req.flags, 0);
    assert_eq!(req.data.nr, -2);
    assert_eq!(req.data.arch, 0xc000_003e);
    assert_eq!(req.data.instruction_pointer, 0x7fff_0000_1000);
    assert_eq!(req.data.args, [100, 101, 102, 103, 104, 105]);
}

#[test]
fn accepted_message_gets_denial_by_default() {
    let mut buf: ProxyMessageBuffer<i32> = ProxyMessageBuffer::new(32, native());
    buf.recv(&message(0, native(), 10, &cookie10()), vec![3, 4]).unwrap();
    let resp = *buf.response_mut();
    assert_eq!(
        resp,
        SeccompNotifResp { id: 0x1122_3344_5566_7788, val: -1, error: -libc::ENOSYS, flags: 0 }
    );
}

#[test]
fn respond_sends_envelope_request_and_response() {
    let mut buf: ProxyMessageBuffer<i32> = ProxyMessageBuffer::new(32, native());
    buf.recv(&message(0, native(), 10, &cookie10()), vec![3, 4]).unwrap();
    let out = buf.respond();
    let mut expected = envelope(0, native(), 10);
    expected.extend_from_slice(&notif_bytes());
    expected.extend_from_slice(&0x1122_3344_5566_7788u64.to_le_bytes());
    expected.extend_from_slice(&(-1i64).to_le_bytes());
    expected.extend_from_slice(&(-libc::ENOSYS).to_le_bytes());
    expected.extend_from_slice(&0u32.to_le_bytes());
    assert_eq!(out.len(), PACKET);
    assert_eq!(out, expected);
}

#[test]
fn handler_verdict_is_sent() {
    let mut buf: ProxyMessageBuffer<i32> = ProxyMessageBuffer::new(32, native());
    buf.recv(&message(0, native(), 10, &cookie10()), vec![3, 4]).unwrap();
    {
        let resp = buf.response_mut();
        resp.val = 0;
        resp.error = 0;
        resp.flags = 1;
    }
    let out = buf.respond();
    assert_eq!(&out[120..128], &0i64.to_le_bytes());
    assert_eq!(&out[128..132], &0i32.to_le_bytes());
    assert_eq!(&out[132..136], &1u32.to_le_bytes());
}

#[test]
fn reserved_nonzero_is_protocol_mismatch() {
    let mut buf: ProxyMessageBuffer<i32> = ProxyMessageBuffer::new(32, native());
    let data = message(1, native(), 10, &cookie10());
    assert_eq!(buf.recv(&data, vec![3, 4]), Err(ProxyError::ProtocolMismatch));
    assert_eq!(buf.cookie_len(), 0);
    assert_eq!(buf.cookie().len(), 0);
    assert_eq!(buf.pid_fd(), None);
    assert_eq!(buf.mem_fd(), None);
}

#[test]
fn cookie_length_mismatch_names_both_lengths() {
    let mut buf: ProxyMessageBuffer<i32> = ProxyMessageBuffer::new(32, native());
    let data = message(0, native(), 5, &[9u8; 7]);
    assert_eq!(
        buf.recv(&data, vec![3, 4]),
        Err(ProxyError::LengthMismatch { packet_size: PACKET, cookie_len: 5, len: PACKET + 7 })
    );
    assert_eq!(buf.cookie().len(), 0);
}

#[test]
fn size_descriptor_off_by_one() {
    let mut buf: ProxyMessageBuffer<i32> = ProxyMessageBuffer::new(32, native());
    let mut sizes = native();
    sizes.notif += 1;
    let data = message(0, sizes, 10, &cookie10());
    assert_eq!(buf.recv(&data, vec![3, 4]), Err(ProxyError::SizeMismatch));
    for sizes in [
        SeccompNotifSizes { notif_resp: 25, ..native() },
        SeccompNotifSizes { data: 63, ..native() },
    ] {
        let data = message(0, sizes, 10, &cookie10());
        assert_eq!(buf.recv(&data, vec![3, 4]), Err(ProxyError::SizeMismatch));
    }
}

#[test]
fn zero_byte_receive_is_end_of_stream() {
    let mut buf: ProxyMessageBuffer<i32> = ProxyMessageBuffer::new(32, native());
    buf.recv(&message(0, native(), 10, &cookie10()), vec![3, 4]).unwrap();
    let before = buf.respond();
    assert_eq!(buf.recv(&[], vec![7, 8]), Ok(false));
    assert_eq!(buf.respond(), before);
    assert_eq!(buf.cookie(), &cookie10()[..]);
    assert_eq!(buf.pid_fd(), Some(&3));
    assert_eq!(buf.mem_fd(), Some(&4));
}

#[test]
fn short_message_is_too_short() {
    let mut buf: ProxyMessageBuffer<i32> = ProxyMessageBuffer::new(32, native());
    let data = message(0, native(), 0, &[]);
    for len in [1, ENVELOPE_SIZE, PACKET - 1] {
        assert_eq!(buf.recv(&data[..len], vec![3, 4]), Err(ProxyError::TooShort));
    }
    // even a reserved field that is not zero is not looked at
    let bad = message(1, native(), 0, &[]);
    assert_eq!(buf.recv(&bad[..PACKET - 1], vec![3, 4]), Err(ProxyError::TooShort));
}

#[test]
fn message_without_cookie_is_accepted() {
    let mut buf: ProxyMessageBuffer<i32> = ProxyMessageBuffer::new(32, native());
    assert_eq!(buf.recv(&message(0, native(), 0, &[]), vec![3, 4]), Ok(true));
    assert_eq!(buf.cookie_len(), 0);
}

#[test]
fn cookie_of_full_capacity_is_accepted() {
    let mut buf: ProxyMessageBuffer<i32> = ProxyMessageBuffer::new(32, native());
    let cookie = [5u8; 32];
    assert_eq!(buf.recv(&message(0, native(), 32, &cookie), vec![3, 4]), Ok(true));
    assert_eq!(buf.cookie(), &cookie[..]);
}

#[test]
fn cookie_over_capacity_is_too_long() {
    let mut buf: ProxyMessageBuffer<i32> = ProxyMessageBuffer::new(32, native());
    let data = message(0, native(), 33, &[5u8; 33]);
    assert_eq!(buf.recv(&data, vec![3, 4]), Err(ProxyError::TooLong));
}

#[test]
fn huge_cookie_length_is_refused() {
    let mut buf: ProxyMessageBuffer<i32> = ProxyMessageBuffer::new(32, native());
    let data = message(0, native(), u64::MAX, &cookie10());
    let r = buf.recv(&data, vec![3, 4]);
    assert!(r == Err(ProxyError::CookieLenOverflow) || matches!(r, Err(ProxyError::LengthMismatch { .. })));
    assert_eq!(buf.cookie_len(), 0);
}

#[test]
fn missing_descriptors_are_released() {
    let mut buf: ProxyMessageBuffer<Rc<()>> = ProxyMessageBuffer::new(32, native());
    let data = message(0, native(), 10, &cookie10());
    let one = Rc::new(());
    assert_eq!(buf.recv(&data, vec![one.clone()]), Err(ProxyError::MissingFds));
    assert_eq!(Rc::strong_count(&one), 1);
    assert!(buf.pid_fd().is_none() && buf.mem_fd().is_none());
    assert_eq!(buf.recv(&data, vec![]), Err(ProxyError::MissingFds));
    assert!(buf.pid_fd().is_none() && buf.mem_fd().is_none());
}

#[test]
fn failed_receive_releases_earlier_descriptors() {
    let mut buf: ProxyMessageBuffer<Rc<()>> = ProxyMessageBuffer::new(32, native());
    let (a, b) = (Rc::new(()), Rc::new(()));
    buf.recv(&message(0, native(), 10, &cookie10()), vec![a.clone(), b.clone()]).unwrap();
    assert_eq!(Rc::strong_count(&a), 2);
    assert_eq!(buf.recv(&message(1, native(), 10, &cookie10()), vec![]), Err(ProxyError::ProtocolMismatch));
    assert_eq!(Rc::strong_count(&a), 1);
    assert_eq!(Rc::strong_count(&b), 1);
}

#[test]
fn new_receive_replaces_descriptors() {
    let mut buf: ProxyMessageBuffer<Rc<()>> = ProxyMessageBuffer::new(32, native());
    let (a, b, c, d, e) = (Rc::new(()), Rc::new(()), Rc::new(()), Rc::new(()), Rc::new(()));
    buf.recv(&message(0, native(), 10, &cookie10()), vec![a.clone(), b.clone()]).unwrap();
    buf.recv(&message(0, native(), 0, &[]), vec![c.clone(), d.clone(), e.clone()]).unwrap();
    assert_eq!(Rc::strong_count(&a), 1);
    assert_eq!(Rc::strong_count(&b), 1);
    assert_eq!(Rc::strong_count(&e), 1);
    assert!(Rc::ptr_eq(buf.pid_fd().unwrap(), &c));
    assert!(Rc::ptr_eq(buf.mem_fd().unwrap(), &d));
}

#[test]
fn drop_fds_twice_is_drop_fds_once() {
    let mut buf: ProxyMessageBuffer<Rc<()>> = ProxyMessageBuffer::new(32, native());
    let (a, b) = (Rc::new(()), Rc::new(()));
    buf.recv(&message(0, native(), 10, &cookie10()), vec![a.clone(), b.clone()]).unwrap();
    buf.drop_fds();
    let once = buf.respond();
    assert_eq!(Rc::strong_count(&a), 1);
    buf.drop_fds();
    assert_eq!(buf.respond(), once);
    assert!(buf.pid_fd().is_none() && buf.mem_fd().is_none());
    assert_eq!(buf.cookie(), &cookie10()[..]);
}

#[test]
fn set_len_checks_the_length_alone() {
    let mut buf: ProxyMessageBuffer<i32> = ProxyMessageBuffer::new(32, native());
    buf.recv(&message(0, native(), 10, &cookie10()), vec![3, 4]).unwrap();
    assert_eq!(buf.set_len(PACKET + 9), Err(ProxyError::LengthMismatch { packet_size: PACKET, cookie_len: 10, len: PACKET + 9 }));
    assert_eq!(buf.set_len(PACKET + 10), Ok(()));
    assert_eq!(buf.cookie_len(), 10);
}

#[test]
fn envelope_bytes_round_trip() {
    let bytes = envelope(0, native(), 10);
    let msg = SeccompNotifyProxyMsg::read(&bytes, 0);
    assert_eq!(msg.monitor_pid, 4242);
    assert_eq!(msg.cookie_len, 10);
    let mut out = Vec::new();
    msg.write(&mut out);
    assert_eq!(out, bytes);
}

#[test]
fn kernel_sizes_check() {
    assert_eq!(native().check(), Ok(native()));
    assert_eq!(SeccompNotifSizes::native(), native());
    let other = SeccompNotifSizes { notif: 88, ..native() };
    assert_eq!(other.check(), Err(SizesMismatch { kernel: other, ours: native() }));
}
