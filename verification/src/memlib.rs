//! Sealed memory-backed library files, through the memfd crate: a
//! module's library bytes are copied into an anonymous, sealable memory
//! region, and in release mode an irreversible seal set is applied so the
//! bytes handed to client processes cannot be mutated afterwards by any
//! party, the daemon included.
//!
//! The region is opaque to the proofs, so two trusted names model it: the
//! bytes it holds and the seals applied to it. The wrappers state how each
//! call moves those two, and the loading pipeline is verified against
//! that.
use std::io::Write;
use vstd::prelude::*;

verus! {

#[verifier::external_type_specification]
#[verifier::external_body]
pub struct ExMemfd(memfd::Memfd);

/// One of the seals applied to a library's memory-backed file.
#[derive(Clone, Copy, PartialEq, Eq, Structural, Debug)]
pub enum SealKind {
    /// The file cannot be reduced in size.
    Shrink,
    /// The file cannot be grown in size.
    Grow,
    /// The file cannot be written.
    Write,
    /// The seal set itself cannot be manipulated further.
    Seal,
}

/// The bytes a memory-backed file holds, in file order.
pub uninterp spec fn spec_memfd_contents(m: memfd::Memfd) -> Seq<u8>;

/// The seals applied to a memory-backed file so far.
pub uninterp spec fn spec_memfd_seals(m: memfd::Memfd) -> Set<SealKind>;

/// The irreversible seal set of a release-mode library descriptor: no
/// future shrink, grow or write, and no further sealing.
pub open spec fn spec_library_seals() -> Set<SealKind> {
    set![SealKind::Shrink, SealKind::Grow, SealKind::Write, SealKind::Seal]
}

/// Relies on memfd::MemfdOptions::create, with sealing allowed and the
/// default close-on-exec: on success the result is a fresh anonymous
/// memory-backed file, empty, with no seal applied yet.
#[verifier::external_body]
fn memfd_create_sealable(name: &str) -> (r: Result<memfd::Memfd, ()>)
    ensures
        r matches Ok(m) ==> spec_memfd_contents(m) == Seq::<u8>::empty() && spec_memfd_seals(m)
            == Set::<SealKind>::empty(),
{
    memfd::MemfdOptions::default().allow_sealing(true).create(name).map_err(|_| ())
}

/// Relies on std::io::Write::write_all on the memfd's backing file: on
/// success the whole buffer went into the region at the file offset —
/// which, for a descriptor made by `memfd_create_sealable` and written
/// only through this function, stands at the end of the contents — and a
/// write changes no seal.
#[verifier::external_body]
fn memfd_write_all(m: &mut memfd::Memfd, bytes: &Vec<u8>) -> (r: Result<(), ()>)
    ensures
        r is Ok ==> spec_memfd_contents(*final(m)) == spec_memfd_contents(*old(m)) + bytes@
            && spec_memfd_seals(*final(m)) == spec_memfd_seals(*old(m)),
{
    let mut file = m.as_file();
    file.write_all(bytes.as_slice()).map_err(|_| ())
}

/// Relies on memfd::Memfd::add_seal: on success the one corresponding
/// file seal (F_SEAL_SHRINK, F_SEAL_GROW, F_SEAL_WRITE or F_SEAL_SEAL)
/// joined the region's seal set, and the contents are untouched; the
/// kernel applies the seal whole or fails.
#[verifier::external_body]
fn memfd_add_seal(m: &mut memfd::Memfd, kind: &SealKind) -> (r: Result<(), ()>)
    ensures
        r is Ok ==> spec_memfd_seals(*final(m)) == spec_memfd_seals(*old(m)).insert(*kind)
            && spec_memfd_contents(*final(m)) == spec_memfd_contents(*old(m)),
{
    m.add_seal(
        match kind {
            SealKind::Shrink => memfd::FileSeal::SealShrink,
            SealKind::Grow => memfd::FileSeal::SealGrow,
            SealKind::Write => memfd::FileSeal::SealWrite,
            SealKind::Seal => memfd::FileSeal::SealSeal,
        },
    ).map_err(|_| ())
}

/// An owned descriptor backing a module's library bytes. `sealed` records
/// whether the irreversible seal set was applied (release mode); a
/// debug-mode descriptor is plain and stays writable.
pub struct LibraryFd {
    pub mem: memfd::Memfd,
    pub sealed: bool,
}

/// Materialize a module's library bytes as a process-shareable
/// memory-backed file: allocate a sealable anonymous region, copy the
/// bytes in, and, when `sealed` is asked for, apply the whole irreversible
/// seal set. On success the region holds exactly the given bytes, under
/// the full seal set in release mode and under none in debug mode. A
/// failure at any step yields `Err`: the caller skips that one module and
/// goes on.
pub fn create_library_fd(bytes: &Vec<u8>, sealed: bool) -> (r: Result<LibraryFd, ()>)
    ensures
        r matches Ok(l) ==> {
            &&& l.sealed == sealed
            &&& spec_memfd_contents(l.mem) == bytes@
            &&& spec_memfd_seals(l.mem) == (if sealed {
                spec_library_seals()
            } else {
                Set::<SealKind>::empty()
            })
        },
{
    let mut mem = match memfd_create_sealable("jit-cache") {
        Result::Ok(m) => m,
        Result::Err(_) => {
            return Result::Err(());
        },
    };
    match memfd_write_all(&mut mem, bytes) {
        Result::Ok(_) => (),
        Result::Err(_) => {
            return Result::Err(());
        },
    }
    proof {
        assert(Seq::<u8>::empty() + bytes@ =~= bytes@);
    }
    if sealed {
        match memfd_add_seal(&mut mem, &SealKind::Shrink) {
            Result::Ok(_) => (),
            Result::Err(_) => {
                return Result::Err(());
            },
        }
        match memfd_add_seal(&mut mem, &SealKind::Grow) {
            Result::Ok(_) => (),
            Result::Err(_) => {
                return Result::Err(());
            },
        }
        match memfd_add_seal(&mut mem, &SealKind::Write) {
            Result::Ok(_) => (),
            Result::Err(_) => {
                return Result::Err(());
            },
        }
        match memfd_add_seal(&mut mem, &SealKind::Seal) {
            Result::Ok(_) => (),
            Result::Err(_) => {
                return Result::Err(());
            },
        }
        proof {
            assert(Set::<SealKind>::empty().insert(SealKind::Shrink).insert(
                SealKind::Grow,
            ).insert(SealKind::Write).insert(SealKind::Seal) =~= spec_library_seals());
        }
    }
    Result::Ok(LibraryFd { mem, sealed })
}

} // verus!
