//! Receiving and answering the seccomp notifications an lxc monitor forwards to its proxy.
use crate::seccomp::{
    is_notif_at, notif_bytes, resp_at, resp_bytes, SeccompNotif, SeccompNotifResp,
    SeccompNotifSizes,
};
use crate::wire::{
    lemma_le_value_ext, get_i32, get_u16, get_u64, i32_at, i32_bytes, put_i32, put_u16, put_u64, u16_at, u16_bytes,
    u64_at, u64_bytes,
};
use vstd::prelude::*;

verus! {

/// Bytes of the envelope that precedes the kernel structures on the wire.
pub const ENVELOPE_SIZE: usize = 32;

/// Relies on `libc::ENOSYS`: the platform's errno value for "function not implemented".
/// Its sign and size differ between targets (38 on most Linux targets, a large negative
/// value on Haiku); on none is it `i32::MIN`, so its negation is an `i32`.
#[verifier::external_body]
fn enosys() -> (r: i32)
    ensures
        r != i32::MIN,
{
    libc::ENOSYS
}

/// Seccomp notification proxy message sent by the lxc monitor ahead of a `SeccompNotif`, a
/// `SeccompNotifResp` and a cookie.
#[derive(Clone, Copy, Debug, PartialEq, Eq, Structural)]
pub struct SeccompNotifyProxyMsg {
    /// Reserved data, must be zero.
    pub reserved0: u64,
    /// The lxc monitor's pid; nothing vouches for it.
    pub monitor_pid: i32,
    /// The container's init pid; nothing vouches for it.
    pub init_pid: i32,
    /// The structure sizes the monitor believes the kernel uses.
    pub sizes: SeccompNotifSizes,
    /// The length of the cookie that follows the kernel structures.
    pub cookie_len: u64,
}

/// What the `ENVELOPE_SIZE` bytes of `s` at `base` hold.
pub open spec fn envelope_at(s: Seq<u8>, base: int) -> SeccompNotifyProxyMsg {
    SeccompNotifyProxyMsg {
        reserved0: u64_at(s, base),
        monitor_pid: i32_at(s, base + 8),
        init_pid: i32_at(s, base + 12),
        sizes: SeccompNotifSizes {
            notif: u16_at(s, base + 16),
            notif_resp: u16_at(s, base + 18),
            data: u16_at(s, base + 20),
        },
        cookie_len: u64_at(s, base + 24),
    }
}

/// The bytes of `m`, with the two bytes of padding after the sizes zero.
pub open spec fn envelope_bytes(m: SeccompNotifyProxyMsg) -> Seq<u8> {
    u64_bytes(m.reserved0) + i32_bytes(m.monitor_pid) + i32_bytes(m.init_pid) + u16_bytes(
        m.sizes.notif,
    ) + u16_bytes(m.sizes.notif_resp) + u16_bytes(m.sizes.data) + seq![0u8, 0u8] + u64_bytes(
        m.cookie_len,
    )
}

impl SeccompNotifyProxyMsg {
    /// Reads an envelope from the bytes of `b` at `base`.
    pub fn read(b: &[u8], base: usize) -> (r: SeccompNotifyProxyMsg)
        requires
            base + ENVELOPE_SIZE <= b.len(),
        ensures
            r == envelope_at(b@, base as int),
    {
        SeccompNotifyProxyMsg {
            reserved0: get_u64(b, base),
            monitor_pid: get_i32(b, base + 8),
            init_pid: get_i32(b, base + 12),
            sizes: SeccompNotifSizes {
                notif: get_u16(b, base + 16),
                notif_resp: get_u16(b, base + 18),
                data: get_u16(b, base + 20),
            },
            cookie_len: get_u64(b, base + 24),
        }
    }

    /// Appends the bytes of this envelope to `out`.
    pub fn write(&self, out: &mut Vec<u8>)
        ensures
            final(out)@ == old(out)@ + envelope_bytes(*self),
    {
        put_u64(out, self.reserved0);
        put_i32(out, self.monitor_pid);
        put_i32(out, self.init_pid);
        put_u16(out, self.sizes.notif);
        put_u16(out, self.sizes.notif_resp);
        put_u16(out, self.sizes.data);
        out.push(0);
        out.push(0);
        put_u64(out, self.cookie_len);
        assert(out@ =~= old(out)@ + envelope_bytes(*self));
    }
}

/// Why a proxied message was refused.
#[derive(Clone, Copy, Debug, PartialEq, Eq, Structural)]
pub enum ProxyError {
    /// Fewer bytes than the envelope and the two kernel structures take.
    TooShort,
    /// The reserved field was not zero: the monitor speaks another protocol.
    ProtocolMismatch,
    /// The monitor's structure sizes differ from the kernel's.
    SizeMismatch,
    /// More cookie bytes than the buffer holds.
    TooLong,
    /// The announced cookie length does not fit in `usize`.
    CookieLenOverflow,
    /// The fixed part and the announced cookie length do not add up to what arrived.
    LengthMismatch { packet_size: usize, cookie_len: usize, len: usize },
    /// Fewer than two file descriptors came with the message.
    MissingFds,
}

/// The first `n` bytes of a read that delivered `data`, missing bytes reading as zero.
pub open spec fn padded(data: Seq<u8>, n: nat) -> Seq<u8> {
    Seq::new(n, |i: int| if i < data.len() { data[i] } else { 0u8 })
}

/// A cookie region after a read that delivered `data`, the cookie starting at `at`.
pub open spec fn overlay(region: Seq<u8>, data: Seq<u8>, at: nat) -> Seq<u8> {
    Seq::new(region.len(), |i: int| if at + i < data.len() { data[at + i] } else { region[i] })
}

/// What a `ProxyMessageBuffer` holds.
pub struct BufferModel<F> {
    pub envelope: SeccompNotifyProxyMsg,
    pub request: SeccompNotif,
    pub response: SeccompNotifResp,
    /// The whole cookie region; its length is the buffer's cookie capacity.
    pub cookie_region: Seq<u8>,
    /// The validated cookie length.
    pub cookie_len: nat,
    /// The kernel's structure sizes, captured at construction.
    pub sizes: SeccompNotifSizes,
    /// Bytes of the envelope and the two kernel structures.
    pub packet_size: nat,
    /// The errno value of a denied call.
    pub enosys: i32,
    pub pid_fd: Option<F>,
    pub mem_fd: Option<F>,
}

impl<F> BufferModel<F> {
    pub open spec fn wf(self) -> bool {
        &&& self.sizes == SeccompNotifSizes::spec_native()
        &&& self.packet_size == ENVELOPE_SIZE + self.sizes.notif + self.sizes.notif_resp
        &&& self.cookie_len <= self.cookie_region.len()
        &&& self.enosys != i32::MIN
    }

    /// The checks on a message of `len` bytes, in order; on success the cookie length.
    pub open spec fn validate(self, len: nat) -> Result<nat, ProxyError> {
        if len < self.packet_size {
            Err(ProxyError::TooShort)
        } else if self.envelope.reserved0 != 0 {
            Err(ProxyError::ProtocolMismatch)
        } else if self.envelope.sizes != self.sizes {
            Err(ProxyError::SizeMismatch)
        } else if len - self.packet_size > self.cookie_region.len() {
            Err(ProxyError::TooLong)
        } else if self.envelope.cookie_len > usize::MAX {
            Err(ProxyError::CookieLenOverflow)
        } else if len != self.packet_size + self.envelope.cookie_len {
            Err(
                ProxyError::LengthMismatch {
                    packet_size: self.packet_size as usize,
                    cookie_len: self.envelope.cookie_len as usize,
                    len: len as usize,
                },
            )
        } else {
            Ok(self.envelope.cookie_len as nat)
        }
    }

    /// The fail-closed verdict on the current request.
    pub open spec fn default_response(self) -> SeccompNotifResp {
        SeccompNotifResp { id: self.request.id, val: -1i64, error: (-self.enosys) as i32, flags: 0 }
    }

    /// The state after a message with a cookie of `cookie_len` bytes passed validation.
    pub open spec fn accepted(self, cookie_len: nat) -> Self {
        BufferModel { cookie_len, response: self.default_response(), ..self }
    }

    /// The state after validation failed with `e`.
    pub open spec fn rejected(self, e: ProxyError) -> Self {
        if e == ProxyError::CookieLenOverflow {
            BufferModel { envelope: SeccompNotifyProxyMsg { cookie_len: 0, ..self.envelope }, ..self }
        } else {
            self
        }
    }

    pub open spec fn without_fds(self) -> Self {
        BufferModel { pid_fd: None, mem_fd: None, ..self }
    }

    /// The state after a read delivered `data`, `request` being the notification decoded from it.
    pub open spec fn received(self, data: Seq<u8>, request: SeccompNotif) -> Self {
        let head = padded(data, self.packet_size);
        BufferModel {
            envelope: envelope_at(head, 0),
            request,
            response: resp_at(head, ENVELOPE_SIZE + self.sizes.notif),
            cookie_region: overlay(self.cookie_region, data, self.packet_size),
            cookie_len: 0,
            ..self
        }
    }

    /// What the validated cookie holds.
    pub open spec fn cookie(self) -> Seq<u8> {
        self.cookie_region.subrange(0, self.cookie_len as int)
    }
}

/// An envelope is read from its own bytes only.
pub proof fn lemma_envelope_of_prefix(s1: Seq<u8>, s2: Seq<u8>)
    requires
        s1.len() >= ENVELOPE_SIZE,
        s2.len() >= ENVELOPE_SIZE,
        forall|i: int| 0 <= i < ENVELOPE_SIZE ==> s1[i] == s2[i],
    ensures
        envelope_at(s1, 0) == envelope_at(s2, 0),
{
    lemma_le_value_ext(s1, s2, 0, 8);
    lemma_le_value_ext(s1, s2, 8, 4);
    lemma_le_value_ext(s1, s2, 12, 4);
    lemma_le_value_ext(s1, s2, 16, 2);
    lemma_le_value_ext(s1, s2, 18, 2);
    lemma_le_value_ext(s1, s2, 20, 2);
    lemma_le_value_ext(s1, s2, 24, 8);
}

/// A message passes validation only where the fixed part and the announced cookie length add
/// up to exactly the bytes that arrived; where every earlier check passes, it passes exactly
/// then.
pub proof fn lemma_validated_length_is_exact<F>(m: BufferModel<F>, len: nat)
    requires
        m.wf(),
    ensures
        m.validate(len) is Ok ==> m.packet_size + m.envelope.cookie_len == len
            && m.validate(len)->Ok_0 == m.envelope.cookie_len,
        len >= m.packet_size && m.envelope.reserved0 == 0 && m.envelope.sizes == m.sizes && len
            - m.packet_size <= m.cookie_region.len() && m.envelope.cookie_len <= usize::MAX ==> (
        m.validate(len) is Ok <==> m.packet_size + m.envelope.cookie_len == len),
{
}

/// A short read never gets past the first check.
pub proof fn lemma_short_message_rejected<F>(m: BufferModel<F>, len: nat)
    requires
        m.wf(),
        0 < len < m.packet_size,
    ensures
        m.validate(len) == Err::<nat, ProxyError>(ProxyError::TooShort),
{
}

/// Structure sizes that differ from the captured ones in any field fail validation, whatever
/// the lengths, once the fixed part has arrived and the reserved field is zero.
pub proof fn lemma_size_mismatch_rejected<F>(m: BufferModel<F>, len: nat)
    requires
        m.wf(),
        len >= m.packet_size,
        m.envelope.reserved0 == 0,
        m.envelope.sizes.notif != m.sizes.notif || m.envelope.sizes.notif_resp
            != m.sizes.notif_resp || m.envelope.sizes.data != m.sizes.data,
    ensures
        m.validate(len) == Err::<nat, ProxyError>(ProxyError::SizeMismatch),
{
}

/// Accepting a message pairs the response with the request and denies the call by default.
pub proof fn lemma_accepted_response_denies<F>(m: BufferModel<F>, len: nat)
    requires
        m.wf(),
        m.validate(len) is Ok,
    ensures
        m.accepted(m.validate(len)->Ok_0).response.id == m.request.id,
        m.accepted(m.validate(len)->Ok_0).response.val < 0,
        m.accepted(m.validate(len)->Ok_0).response.error == -m.enosys,
        m.accepted(m.validate(len)->Ok_0).response.flags == 0,
{
}

/// Releasing the descriptors twice leaves the buffer as releasing them once does.
pub proof fn lemma_drop_fds_idempotent<F>(m: BufferModel<F>)
    ensures
        m.without_fds().without_fds() == m.without_fds(),
        m.without_fds().pid_fd is None && m.without_fds().mem_fd is None,
{
}

/// Helper to receive, verify and answer proxied notification messages.
///
/// `F` is the owned handle type of the two file descriptors that come with each message;
/// dropping a handle releases its descriptor.
pub struct ProxyMessageBuffer<F> {
    proxy_msg: SeccompNotifyProxyMsg,
    seccomp_notif: SeccompNotif,
    seccomp_resp: SeccompNotifResp,
    cookie_buf: Vec<u8>,
    cookie_used: usize,
    sizes: SeccompNotifSizes,
    seccomp_packet_size: usize,
    enosys: i32,
    pid_fd: Option<F>,
    mem_fd: Option<F>,
}

impl<F> View for ProxyMessageBuffer<F> {
    type V = BufferModel<F>;

    closed spec fn view(&self) -> BufferModel<F> {
        BufferModel {
            envelope: self.proxy_msg,
            request: self.seccomp_notif,
            response: self.seccomp_resp,
            cookie_region: self.cookie_buf@,
            cookie_len: self.cookie_used as nat,
            sizes: self.sizes,
            packet_size: self.seccomp_packet_size as nat,
            enosys: self.enosys,
            pid_fd: self.pid_fd,
            mem_fd: self.mem_fd,
        }
    }
}

impl<F> ProxyMessageBuffer<F> {
    pub open spec fn wf(&self) -> bool {
        self@.wf()
    }

    /// Allocates a buffer for cookies of up to `max_cookie` bytes, for a kernel whose structure
    /// sizes are `sizes`.
    pub fn new(max_cookie: usize, sizes: SeccompNotifSizes) -> (r: Self)
        requires
            sizes == SeccompNotifSizes::spec_native(),
        ensures
            r.wf(),
            r@.sizes == sizes,
            r@.cookie_region.len() == max_cookie,
            r@.cookie_len == 0,
            r@.pid_fd is None,
            r@.mem_fd is None,
            r@.envelope == (SeccompNotifyProxyMsg {
                reserved0: 0,
                monitor_pid: 0,
                init_pid: 0,
                sizes: SeccompNotifSizes { notif: 0, notif_resp: 0, data: 0 },
                cookie_len: 0,
            }),
            r@.response == (SeccompNotifResp { id: 0, val: 0, error: 0, flags: 0 }),
            is_notif_at(r@.request, Seq::new(136, |i: int| 0u8), ENVELOPE_SIZE as int),
    {
        let seccomp_packet_size = ENVELOPE_SIZE + sizes.notif as usize + sizes.notif_resp as usize;
        let mut cookie_buf: Vec<u8> = Vec::new();
        let mut i: usize = 0;
        while i < max_cookie
            invariant
                i <= max_cookie,
                cookie_buf@.len() == i,
            decreases max_cookie - i,
        {
            cookie_buf.push(0);
            i = i + 1;
        }
        let zeroes: [u8; 136] = [0u8; 136];
        let head = zeroes.as_slice();
        assert(head@ =~= Seq::new(136, |i: int| 0u8));
        ProxyMessageBuffer {
            proxy_msg: SeccompNotifyProxyMsg {
                reserved0: 0,
                monitor_pid: 0,
                init_pid: 0,
                sizes: SeccompNotifSizes { notif: 0, notif_resp: 0, data: 0 },
                cookie_len: 0,
            },
            seccomp_notif: SeccompNotif::read(head, ENVELOPE_SIZE),
            seccomp_resp: SeccompNotifResp { id: 0, val: 0, error: 0, flags: 0 },
            cookie_buf,
            cookie_used: 0,
            sizes,
            seccomp_packet_size,
            enosys: enosys(),
            pid_fd: None,
            mem_fd: None,
        }
    }

    /// Takes in a read that delivered `data`: the envelope and the kernel structures are
    /// decoded from its first bytes, and what follows them fills the cookie region.
    fn load(&mut self, data: &[u8])
        requires
            old(self).wf(),
        ensures
            final(self).wf(),
            is_notif_at(
                final(self)@.request,
                padded(data@, old(self)@.packet_size),
                ENVELOPE_SIZE as int,
            ),
            final(self)@ == old(self)@.received(data@, final(self)@.request),
    {
        let n = self.seccomp_packet_size;
        let mut head: Vec<u8> = Vec::new();
        let mut i: usize = 0;
        while i < n
            invariant
                i <= n,
                head@ == padded(data@, n as nat).subrange(0, i as int),
            decreases n - i,
        {
            if i < data.len() {
                head.push(data[i]);
            } else {
                head.push(0);
            }
            i = i + 1;
            assert(head@ =~= padded(data@, n as nat).subrange(0, i as int));
        }
        assert(head@ =~= padded(data@, n as nat));
        let cap = self.cookie_buf.len();
        let mut region: Vec<u8> = Vec::new();
        let mut j: usize = 0;
        while j < cap
            invariant
                j <= cap,
                cap == self.cookie_buf@.len(),
                n == self.seccomp_packet_size,
                region@ == overlay(self.cookie_buf@, data@, n as nat).subrange(0, j as int),
            decreases cap - j,
        {
            if j < data.len() && n < data.len() - j {
                region.push(data[n + j]);
            } else {
                region.push(self.cookie_buf[j]);
            }
            j = j + 1;
            assert(region@ =~= overlay(self.cookie_buf@, data@, n as nat).subrange(0, j as int));
        }
        assert(region@ =~= overlay(self.cookie_buf@, data@, n as nat));
        self.proxy_msg = SeccompNotifyProxyMsg::read(head.as_slice(), 0);
        self.seccomp_notif = SeccompNotif::read(head.as_slice(), ENVELOPE_SIZE);
        self.seccomp_resp = SeccompNotifResp::read(
            head.as_slice(),
            ENVELOPE_SIZE + self.sizes.notif as usize,
        );
        self.cookie_buf = region;
        self.cookie_used = 0;
    }

    /// Releases both file descriptors, if held.
    pub fn drop_fds(&mut self)
        ensures
            final(self)@ == old(self)@.without_fds(),
    {
        self.pid_fd = None;
        self.mem_fd = None;
    }

    /// Pairs the response with the request and sets the fail-closed verdict.
    fn prepare_response(&mut self)
        requires
            old(self).wf(),
        ensures
            final(self)@ == (BufferModel { response: old(self)@.default_response(), ..old(self)@ }),
    {
        let id = self.seccomp_notif.id;
        let resp = &mut self.seccomp_resp;
        resp.id = id;
        resp.val = -1;
        resp.error = -self.enosys;
        resp.flags = 0;
    }

    /// Whether the envelope's structure sizes are the captured ones.
    fn check_sizes(&self) -> (r: bool)
        ensures
            r == (self@.envelope.sizes == self@.sizes),
    {
        let got = self.proxy_msg.sizes;
        got.notif == self.sizes.notif && got.notif_resp == self.sizes.notif_resp && got.data
            == self.sizes.data
    }

    /// Validates a message of `len` bytes; on success the cookie's length is set and the
    /// response is prepared.
    pub fn set_len(&mut self, len: usize) -> (r: Result<(), ProxyError>)
        requires
            old(self).wf(),
        ensures
            final(self).wf(),
            match old(self)@.validate(len as nat) {
                Ok(c) => r == Ok::<(), ProxyError>(()) && final(self)@ == old(self)@.accepted(c),
                Err(e) => r == Err::<(), ProxyError>(e) && final(self)@ == old(self)@.rejected(e),
            },
    {
        if len < self.seccomp_packet_size {
            return Err(ProxyError::TooShort);
        }
        if self.proxy_msg.reserved0 != 0 {
            return Err(ProxyError::ProtocolMismatch);
        }
        if !self.check_sizes() {
            return Err(ProxyError::SizeMismatch);
        }
        if len - self.seccomp_packet_size > self.cookie_buf.len() {
            return Err(ProxyError::TooLong);
        }
        if self.proxy_msg.cookie_len > usize::MAX as u64 {
            self.proxy_msg.cookie_len = 0;
            return Err(ProxyError::CookieLenOverflow);
        }
        let cookie_len = self.proxy_msg.cookie_len as usize;
        if len - self.seccomp_packet_size != cookie_len {
            return Err(
                ProxyError::LengthMismatch {
                    packet_size: self.seccomp_packet_size,
                    cookie_len,
                    len,
                },
            );
        }
        self.cookie_used = cookie_len;
        self.prepare_response();
        Ok(())
    }

    /// Takes in one received message: `data` is what the read delivered and `fds` the
    /// descriptors that came with it. Returns `Ok(false)` at the end of the stream.
    pub fn recv(&mut self, data: &[u8], fds: Vec<F>) -> (r: Result<bool, ProxyError>)
        requires
            old(self).wf(),
        ensures
            final(self).wf(),
            data@.len() == 0 ==> r == Ok::<bool, ProxyError>(false) && final(self)@ == old(self)@,
            data@.len() > 0 ==> {
                let m = old(self)@.received(data@, final(self)@.request);
                &&& is_notif_at(
                    final(self)@.request,
                    padded(data@, old(self)@.packet_size),
                    ENVELOPE_SIZE as int,
                )
                &&& match m.validate(data@.len()) {
                    Err(e) => r == Err::<bool, ProxyError>(e) && final(self)@ == m.rejected(
                        e,
                    ).without_fds(),
                    Ok(c) => if fds@.len() >= 2 {
                        r == Ok::<bool, ProxyError>(true) && final(self)@ == (BufferModel {
                            pid_fd: Some(fds@[0]),
                            mem_fd: Some(fds@[1]),
                            ..m.accepted(c)
                        })
                    } else {
                        r == Err::<bool, ProxyError>(ProxyError::MissingFds) && final(self)@
                            == m.accepted(c).without_fds()
                    },
                }
            },
            0 < data@.len() < old(self)@.packet_size ==> r == Err::<bool, ProxyError>(
                ProxyError::TooShort,
            ),
            r is Ok && r->Ok_0 ==> {
                &&& old(self)@.packet_size + final(self)@.cookie_len == data@.len()
                &&& final(self)@.response.id == final(self)@.request.id
                &&& final(self)@.response == final(self)@.default_response()
                &&& final(self)@.pid_fd is Some && final(self)@.mem_fd is Some
            },
            r is Err ==> final(self)@.pid_fd is None && final(self)@.mem_fd is None,
            data@.len() > 0 && fds@.len() < 2 ==> r is Err,
            data@.len() >= old(self)@.packet_size && envelope_at(data@, 0).reserved0 == 0
                && envelope_at(data@, 0).sizes != old(self)@.sizes ==> r == Err::<bool, ProxyError>(
                ProxyError::SizeMismatch,
            ),
    {
        proof {
            if data@.len() >= old(self)@.packet_size {
                lemma_envelope_of_prefix(data@, padded(data@, old(self)@.packet_size));
            }
        }
        if data.len() == 0 {
            return Ok(false);
        }
        self.load(data);
        match self.set_len(data.len()) {
            Ok(()) => {},
            Err(e) => {
                self.drop_fds();
                return Err(e);
            },
        }
        if fds.len() < 2 {
            self.drop_fds();
            return Err(ProxyError::MissingFds);
        }
        let mut fds = fds;
        let mem_fd = fds.remove(1);
        let pid_fd = fds.remove(0);
        self.pid_fd = Some(pid_fd);
        self.mem_fd = Some(mem_fd);
        Ok(true)
    }

    /// The bytes to send as the answer: the envelope, the request and the response, in this
    /// order. The cookie is not sent back.
    pub fn respond(&self) -> (r: Vec<u8>)
        ensures
            r@ == envelope_bytes(self@.envelope) + notif_bytes(self@.request) + resp_bytes(
                self@.response,
            ),
    {
        let mut out: Vec<u8> = Vec::new();
        self.proxy_msg.write(&mut out);
        self.seccomp_notif.write(&mut out);
        self.seccomp_resp.write(&mut out);
        assert(out@ =~= envelope_bytes(self@.envelope) + notif_bytes(self@.request) + resp_bytes(
            self@.response,
        ));
        out
    }

    /// The monitor pid of the current message; nothing vouches for it.
    pub fn monitor_pid(&self) -> (r: i32)
        ensures
            r == self@.envelope.monitor_pid,
    {
        self.proxy_msg.monitor_pid
    }

    /// The container's init pid of the current message; nothing vouches for it.
    pub fn init_pid(&self) -> (r: i32)
        ensures
            r == self@.envelope.init_pid,
    {
        self.proxy_msg.init_pid
    }

    /// The syscall request of this message.
    pub fn request(&self) -> (r: &SeccompNotif)
        ensures
            *r == self@.request,
    {
        &self.seccomp_notif
    }

    /// The response of this message, for the handler to fill in.
    pub fn response_mut(&mut self) -> (r: &mut SeccompNotifResp)
        ensures
            *r == old(self)@.response,
            final(self)@ == (BufferModel { response: *final(r), ..old(self)@ }),
    {
        &mut self.seccomp_resp
    }

    /// The validated cookie's length.
    pub fn cookie_len(&self) -> (r: usize)
        ensures
            r == self@.cookie_len,
    {
        self.cookie_used
    }

    /// The validated cookie.
    pub fn cookie(&self) -> (r: &[u8])
        requires
            self.wf(),
        ensures
            r@ == self@.cookie(),
    {
        vstd::slice::slice_subrange(self.cookie_buf.as_slice(), 0, self.cookie_used)
    }

    /// The descriptor of the process that made the call, if held.
    pub fn pid_fd(&self) -> (r: Option<&F>)
        ensures
            r is Some <==> self@.pid_fd is Some,
            r is Some ==> *r->Some_0 == self@.pid_fd->Some_0,
    {
        self.pid_fd.as_ref()
    }

    /// The descriptor for reading the calling process's memory, if held.
    pub fn mem_fd(&self) -> (r: Option<&F>)
        ensures
            r is Some <==> self@.mem_fd is Some,
            r is Some ==> *r->Some_0 == self@.mem_fd->Some_0,
    {
        self.mem_fd.as_ref()
    }
}

} // verus!
