//! The TLS slot contract: where, relative to a TLS base, the transition
//! routines keep their bookkeeping. One row per supported host platform.
use vstd::prelude::*;

verus! {

/// Every offset of a row, and the guest offsets counted from the initial
/// guest base, stay below this bound.
pub const TLS_SLOT_LIMIT: u64 = 4096;

/// Byte offsets of the reserved TLS slots.
#[derive(Clone, Copy, Debug, PartialEq, Eq, Structural)]
pub struct TlsLayout {
    /// Guest convention: the guest's own TLS base (self pointer).
    pub guest_self: u64,
    /// Guest convention: where the host's TLS base is kept while the guest runs.
    pub guest_host_stash: u64,
    /// Host convention: the host's self pointer.
    pub host_self: u64,
    /// Added to the host's self pointer to obtain the host's TLS base.
    pub host_base_adjust: u64,
    /// Host convention: the stack pointer the host resumes on.
    pub host_stack: u64,
    /// Host convention: where the initial guest TLS block starts.
    pub initial_guest: u64,
}

/// Host platforms with a known slot layout.
#[derive(Clone, Copy, Debug, PartialEq, Eq, Structural)]
pub enum HostPlatform {
    /// glibc host: the TLS base is `fs`, the self pointer is the base.
    Linux,
    /// Darwin host: the TLS base is `gs`, the self pointer sits 224 bytes
    /// below the base.
    MacOs,
}

impl TlsLayout {
    /// The slots a layout names are distinct where they must be, and small
    /// enough that a base below `u64::MAX - TLS_SLOT_LIMIT` reaches them
    /// without wrapping.
    pub open spec fn wf(self) -> bool {
        &&& self.guest_self < TLS_SLOT_LIMIT
        &&& self.guest_host_stash < TLS_SLOT_LIMIT
        &&& self.host_self < TLS_SLOT_LIMIT
        &&& self.host_stack < TLS_SLOT_LIMIT
        &&& self.initial_guest + self.guest_self < TLS_SLOT_LIMIT
        &&& self.initial_guest + self.guest_host_stash < TLS_SLOT_LIMIT
        &&& self.guest_self != self.guest_host_stash
        &&& self.host_self != self.host_stack
        &&& self.initial_guest + self.guest_self != self.host_self
        &&& self.initial_guest + self.guest_self != self.host_stack
        &&& self.initial_guest + self.guest_host_stash != self.host_self
        &&& self.initial_guest + self.guest_host_stash != self.host_stack
    }
}

pub open spec fn platform_layout(p: HostPlatform) -> TlsLayout {
    match p {
        HostPlatform::Linux => TlsLayout {
            guest_self: 0,
            guest_host_stash: 48,
            host_self: 0,
            host_base_adjust: 0,
            host_stack: 64,
            initial_guest: 72,
        },
        HostPlatform::MacOs => TlsLayout {
            guest_self: 0,
            guest_host_stash: 48,
            host_self: 0,
            host_base_adjust: 224,
            host_stack: 48,
            initial_guest: 240,
        },
    }
}

impl HostPlatform {
    /// The slot layout of this host platform (guest runtime: musl).
    pub fn tls_layout(&self) -> (r: TlsLayout)
        ensures
            r == platform_layout(*self),
            r.wf(),
    {
        match self {
            HostPlatform::Linux => TlsLayout {
                guest_self: 0,
                guest_host_stash: 48,
                host_self: 0,
                host_base_adjust: 0,
                host_stack: 64,
                initial_guest: 72,
            },
            HostPlatform::MacOs => TlsLayout {
                guest_self: 0,
                guest_host_stash: 48,
                host_self: 0,
                host_base_adjust: 224,
                host_stack: 48,
                initial_guest: 240,
            },
        }
    }
}

} // verus!
