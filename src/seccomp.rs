//! The kernel's seccomp notification structures, as byte layouts of fixed width.
use crate::wire::{
    get_i32, get_i64, get_u32, get_u64, i32_at, i32_bytes, i64_at, i64_bytes, put_i32, put_i64,
    put_u32, put_u64, u32_at, u32_bytes, u64_at, u64_bytes,
};
use vstd::prelude::*;

verus! {

/// Bytes of `struct seccomp_notif` as laid out here.
pub const SECCOMP_NOTIF_SIZE: u16 = 80;

/// Bytes of `struct seccomp_notif_resp` as laid out here.
pub const SECCOMP_NOTIF_RESP_SIZE: u16 = 24;

/// Bytes of `struct seccomp_data` as laid out here.
pub const SECCOMP_DATA_SIZE: u16 = 64;

/// The sizes of the three seccomp notification structures, as a kernel reports them.
#[derive(Clone, Copy, Debug, PartialEq, Eq, Structural)]
pub struct SeccompNotifSizes {
    pub notif: u16,
    pub notif_resp: u16,
    pub data: u16,
}

/// The kernel's sizes disagree with the layouts this library reads and writes.
#[derive(Clone, Copy, Debug, PartialEq, Eq, Structural)]
pub struct SizesMismatch {
    pub kernel: SeccompNotifSizes,
    pub ours: SeccompNotifSizes,
}

impl SeccompNotifSizes {
    /// The sizes of the layouts declared in this module.
    pub open spec fn spec_native() -> SeccompNotifSizes {
        SeccompNotifSizes {
            notif: SECCOMP_NOTIF_SIZE,
            notif_resp: SECCOMP_NOTIF_RESP_SIZE,
            data: SECCOMP_DATA_SIZE,
        }
    }

    pub fn native() -> (r: SeccompNotifSizes)
        ensures
            r == SeccompNotifSizes::spec_native(),
    {
        SeccompNotifSizes {
            notif: SECCOMP_NOTIF_SIZE,
            notif_resp: SECCOMP_NOTIF_RESP_SIZE,
            data: SECCOMP_DATA_SIZE,
        }
    }

    /// Accepts the sizes a kernel reported only where they equal the declared layouts.
    pub fn check(&self) -> (r: Result<SeccompNotifSizes, SizesMismatch>)
        ensures
            *self == SeccompNotifSizes::spec_native() ==> r == Ok::<SeccompNotifSizes, SizesMismatch>(*self),
            *self != SeccompNotifSizes::spec_native() ==> r == Err::<SeccompNotifSizes, SizesMismatch>(
                SizesMismatch { kernel: *self, ours: SeccompNotifSizes::spec_native() },
            ),
    {
        let ours = SeccompNotifSizes::native();
        if self.notif == ours.notif && self.notif_resp == ours.notif_resp && self.data == ours.data {
            Ok(*self)
        } else {
            Err(SizesMismatch { kernel: *self, ours })
        }
    }
}

/// `struct seccomp_data`: the intercepted system call.
#[derive(Clone, Copy, Debug, PartialEq, Eq)]
pub struct SeccompData {
    pub nr: i32,
    pub arch: u32,
    pub instruction_pointer: u64,
    pub args: [u64; 6],
}

/// `struct seccomp_notif`: one intercepted system call of one process.
#[derive(Clone, Copy, Debug, PartialEq, Eq)]
pub struct SeccompNotif {
    pub id: u64,
    pub pid: u32,
    pub flags: u32,
    pub data: SeccompData,
}

/// `struct seccomp_notif_resp`: the verdict on one notification.
#[derive(Clone, Copy, Debug, PartialEq, Eq, Structural)]
pub struct SeccompNotifResp {
    pub id: u64,
    pub val: i64,
    pub error: i32,
    pub flags: u32,
}

/// `n` is what the `SECCOMP_NOTIF_SIZE` bytes of `s` at `base` hold.
pub open spec fn is_notif_at(n: SeccompNotif, s: Seq<u8>, base: int) -> bool {
    &&& n.id == u64_at(s, base)
    &&& n.pid == u32_at(s, base + 8)
    &&& n.flags == u32_at(s, base + 12)
    &&& n.data.nr == i32_at(s, base + 16)
    &&& n.data.arch == u32_at(s, base + 20)
    &&& n.data.instruction_pointer == u64_at(s, base + 24)
    &&& forall|k: int| 0 <= k < 6 ==> #[trigger] n.data.args@[k] == u64_at(s, base + 32 + 8 * k)
}

/// The bytes of `n`.
pub open spec fn notif_bytes(n: SeccompNotif) -> Seq<u8> {
    u64_bytes(n.id) + u32_bytes(n.pid) + u32_bytes(n.flags) + i32_bytes(n.data.nr) + u32_bytes(
        n.data.arch,
    ) + u64_bytes(n.data.instruction_pointer) + u64_bytes(n.data.args@[0]) + u64_bytes(
        n.data.args@[1],
    ) + u64_bytes(n.data.args@[2]) + u64_bytes(n.data.args@[3]) + u64_bytes(n.data.args@[4])
        + u64_bytes(n.data.args@[5])
}

/// What the `SECCOMP_NOTIF_RESP_SIZE` bytes of `s` at `base` hold.
pub open spec fn resp_at(s: Seq<u8>, base: int) -> SeccompNotifResp {
    SeccompNotifResp {
        id: u64_at(s, base),
        val: i64_at(s, base + 8),
        error: i32_at(s, base + 16),
        flags: u32_at(s, base + 20),
    }
}

/// The bytes of `r`.
pub open spec fn resp_bytes(r: SeccompNotifResp) -> Seq<u8> {
    u64_bytes(r.id) + i64_bytes(r.val) + i32_bytes(r.error) + u32_bytes(r.flags)
}

impl SeccompNotif {
    /// Reads a notification from the bytes of `b` at `base`.
    pub fn read(b: &[u8], base: usize) -> (r: SeccompNotif)
        requires
            base + SECCOMP_NOTIF_SIZE <= b.len(),
        ensures
            is_notif_at(r, b@, base as int),
    {
        let args: [u64; 6] = [
            get_u64(b, base + 32),
            get_u64(b, base + 40),
            get_u64(b, base + 48),
            get_u64(b, base + 56),
            get_u64(b, base + 64),
            get_u64(b, base + 72),
        ];
        let r = SeccompNotif {
            id: get_u64(b, base),
            pid: get_u32(b, base + 8),
            flags: get_u32(b, base + 12),
            data: SeccompData {
                nr: get_i32(b, base + 16),
                arch: get_u32(b, base + 20),
                instruction_pointer: get_u64(b, base + 24),
                args,
            },
        };
        assert(forall|k: int|
            0 <= k < 6 ==> #[trigger] r.data.args@[k] == u64_at(b@, base + 32 + 8 * k)) by {
            assert(r.data.args@[0] == u64_at(b@, base + 32));
            assert(r.data.args@[1] == u64_at(b@, base + 40));
            assert(r.data.args@[2] == u64_at(b@, base + 48));
            assert(r.data.args@[3] == u64_at(b@, base + 56));
            assert(r.data.args@[4] == u64_at(b@, base + 64));
            assert(r.data.args@[5] == u64_at(b@, base + 72));
        }
        r
    }

    /// Appends the bytes of this notification to `out`.
    pub fn write(&self, out: &mut Vec<u8>)
        ensures
            final(out)@ == old(out)@ + notif_bytes(*self),
    {
        put_u64(out, self.id);
        put_u32(out, self.pid);
        put_u32(out, self.flags);
        put_i32(out, self.data.nr);
        put_u32(out, self.data.arch);
        put_u64(out, self.data.instruction_pointer);
        put_u64(out, self.data.args[0]);
        put_u64(out, self.data.args[1]);
        put_u64(out, self.data.args[2]);
        put_u64(out, self.data.args[3]);
        put_u64(out, self.data.args[4]);
        put_u64(out, self.data.args[5]);
    }
}

impl SeccompNotifResp {
    /// Reads a response from the bytes of `b` at `base`.
    pub fn read(b: &[u8], base: usize) -> (r: SeccompNotifResp)
        requires
            base + SECCOMP_NOTIF_RESP_SIZE <= b.len(),
        ensures
            r == resp_at(b@, base as int),
    {
        SeccompNotifResp {
            id: get_u64(b, base),
            val: get_i64(b, base + 8),
            error: get_i32(b, base + 16),
            flags: get_u32(b, base + 20),
        }
    }

    /// Appends the bytes of this response to `out`.
    pub fn write(&self, out: &mut Vec<u8>)
        ensures
            final(out)@ == old(out)@ + resp_bytes(*self),
    {
        put_u64(out, self.id);
        put_i64(out, self.val);
        put_i32(out, self.error);
        put_u32(out, self.flags);
    }
}

} // verus!
