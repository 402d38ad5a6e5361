//! Root-provider abstraction: classify which root-granting provider is
//! active, and dispatch per-uid policy questions to the active backend.
//!
//! The two backend detectors (KernelSU and Magisk probing) are external
//! collaborators: the embedder queries them and hands their answers in as
//! plain values. The classification and dispatch rules live here, verified.
use vstd::prelude::*;

verus! {

/// What the KernelSU detector reported, when it detected a presence.
#[derive(Clone, Copy, PartialEq, Eq, Structural, Debug)]
pub enum KsuVersion {
    Supported,
    TooOld,
    Abnormal,
}

/// What the Magisk detector reported, when it detected a presence.
#[derive(Clone, Copy, PartialEq, Eq, Structural, Debug)]
pub enum MagiskVersion {
    Supported,
    TooOld,
}

/// Which root-granting provider is active for this boot.
#[derive(Clone, Copy, PartialEq, Eq, Structural, Debug)]
pub enum RootImpl {
    Absent,
    TooOld,
    Abnormal,
    Multiple,
    KernelSU,
    Magisk,
}

impl RootImpl {
    /// A single supported backend: the only variants under which per-uid
    /// policy questions may be asked.
    pub open spec fn is_single_backend(self) -> bool {
        self == RootImpl::KernelSU || self == RootImpl::Magisk
    }
}

/// The six-way classification from the cross product of the two detectors.
pub open spec fn classify_root(ksu: Option<KsuVersion>, magisk: Option<MagiskVersion>) -> RootImpl {
    match (ksu, magisk) {
        (Option::None, Option::None) => RootImpl::Absent,
        (Option::Some(_), Option::Some(_)) => RootImpl::Multiple,
        (Option::Some(k), Option::None) => match k {
            KsuVersion::Supported => RootImpl::KernelSU,
            KsuVersion::TooOld => RootImpl::TooOld,
            KsuVersion::Abnormal => RootImpl::Abnormal,
        },
        (Option::None, Option::Some(m)) => match m {
            MagiskVersion::Supported => RootImpl::Magisk,
            MagiskVersion::TooOld => RootImpl::TooOld,
        },
    }
}

/// Classify the detectors' answers into the active provider variant.
/// Queried once at startup; the result is stored, immutable, in the
/// daemon context and shared read-only by every connection.
pub fn setup(ksu: Option<KsuVersion>, magisk: Option<MagiskVersion>) -> (r: RootImpl)
    ensures
        r == classify_root(ksu, magisk),
{
    match (ksu, magisk) {
        (Option::None, Option::None) => RootImpl::Absent,
        (Option::Some(_), Option::Some(_)) => RootImpl::Multiple,
        (Option::Some(k), Option::None) => match k {
            KsuVersion::Supported => RootImpl::KernelSU,
            KsuVersion::TooOld => RootImpl::TooOld,
            KsuVersion::Abnormal => RootImpl::Abnormal,
        },
        (Option::None, Option::Some(m)) => match m {
            MagiskVersion::Supported => RootImpl::Magisk,
            MagiskVersion::TooOld => RootImpl::TooOld,
        },
    }
}

/// Which backend's per-uid answer governs, given the active provider.
pub open spec fn spec_backend_answer(root: RootImpl, ksu_says: bool, magisk_says: bool) -> bool
    recommends
        root.is_single_backend(),
{
    if root == RootImpl::KernelSU {
        ksu_says
    } else {
        magisk_says
    }
}

/// Whether the uid was granted root: dispatches to the active backend's
/// answer. Asking this under a non-single-backend variant is a contract
/// violation the dispatcher must prevent, so it is excluded here.
pub fn uid_granted_root(root: &RootImpl, ksu_says: bool, magisk_says: bool) -> (r: bool)
    requires
        root.is_single_backend(),
    ensures
        r == spec_backend_answer(*root, ksu_says, magisk_says),
{
    match root {
        RootImpl::KernelSU => ksu_says,
        RootImpl::Magisk => magisk_says,
        _ => false,
    }
}

/// Whether mounts should be hidden from the uid: dispatches to the active
/// backend's answer, under the same single-backend precondition.
pub fn uid_should_umount(root: &RootImpl, ksu_says: bool, magisk_says: bool) -> (r: bool)
    requires
        root.is_single_backend(),
    ensures
        r == spec_backend_answer(*root, ksu_says, magisk_says),
{
    match root {
        RootImpl::KernelSU => ksu_says,
        RootImpl::Magisk => magisk_says,
        _ => false,
    }
}

/// Flag bit: the uid was granted root by the active provider.
pub const PROCESS_GRANTED_ROOT: u32 = 1;

/// Flag bit: the uid is on the provider's denylist.
pub const PROCESS_ON_DENYLIST: u32 = 2;

/// Flag bit: the active provider is KernelSU.
pub const PROCESS_ROOT_IS_KSU: u32 = 4;

/// Flag bit: the active provider is Magisk.
pub const PROCESS_ROOT_IS_MAGISK: u32 = 8;

/// The provider-identity bits of a flags word, determined by the active
/// provider alone.
pub open spec fn spec_provider_bits(root: RootImpl) -> u32 {
    if root == RootImpl::KernelSU {
        PROCESS_ROOT_IS_KSU
    } else if root == RootImpl::Magisk {
        PROCESS_ROOT_IS_MAGISK
    } else {
        0
    }
}

/// The full flags word: uid-grant bit, denylist bit, provider-identity
/// bits. The three components occupy disjoint bits, so their sum is their
/// union.
pub open spec fn spec_process_flags(root: RootImpl, granted_root: bool, on_denylist: bool) -> u32 {
    ((if granted_root {
        PROCESS_GRANTED_ROOT
    } else {
        0
    }) + (if on_denylist {
        PROCESS_ON_DENYLIST
    } else {
        0
    }) + spec_provider_bits(root)) as u32
}

/// Compute the process flags answered to a client: bit 0 from the grant
/// answer, bit 1 from the denylist answer, bit 2 or 3 from the provider
/// identity. Only reachable once the dispatcher has checked that a single
/// supported backend is active.
pub fn get_process_flags(root: &RootImpl, granted_root: bool, on_denylist: bool) -> (r: u32)
    requires
        root.is_single_backend(),
    ensures
        r == spec_process_flags(*root, granted_root, on_denylist),
{
    let mut flags: u32 = 0;
    if granted_root {
        flags = flags + PROCESS_GRANTED_ROOT;
    }
    if on_denylist {
        flags = flags + PROCESS_ON_DENYLIST;
    }
    match root {
        RootImpl::KernelSU => flags = flags + PROCESS_ROOT_IS_KSU,
        RootImpl::Magisk => flags = flags + PROCESS_ROOT_IS_MAGISK,
        _ => (),
    }
    flags
}

/// For a fixed active provider, every flags answer carries the same
/// provider-identity bits, whatever the per-uid answers were: the
/// provider bits of the flags word are a function of the cached provider
/// alone, for the daemon's whole lifetime.
pub proof fn lemma_provider_bits_consistent(
    root: RootImpl,
    g1: bool,
    d1: bool,
    g2: bool,
    d2: bool,
)
    requires
        root.is_single_backend(),
    ensures
        spec_process_flags(root, g1, d1) / 4 * 4 == spec_provider_bits(root),
        spec_process_flags(root, g1, d1) / 4 == spec_process_flags(root, g2, d2) / 4,
{
}

} // verus!
