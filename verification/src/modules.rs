//! Module loading: the on-disk module directory is scanned once at
//! startup by the embedder; the eligibility rule, the loading pipeline and
//! the immutable daemon context with its stable, densely indexed module
//! list live here, verified.
use crate::memlib::LibraryFd;
use crate::memlib::SealKind;
use crate::memlib::create_library_fd;
use crate::memlib::spec_library_seals;
use crate::memlib::spec_memfd_contents;
use crate::memlib::spec_memfd_seals;
use crate::root::RootImpl;
use vstd::prelude::*;

verus! {

/// One directory entry of the module root, as the embedder's scan found
/// it: the entry's name, whether the per-architecture shared object
/// exists at its fixed relative path, whether the disable marker file is
/// present, and the library's bytes (empty where it is absent).
pub struct ModuleSource {
    pub name: String,
    pub has_library: bool,
    pub disabled: bool,
    pub library: Vec<u8>,
}

/// An entry is eligible exactly when its per-architecture library exists
/// and the disable marker does not.
pub open spec fn spec_eligible(s: ModuleSource) -> bool {
    s.has_library && !s.disabled
}

/// The eligibility rule for one scanned entry.
pub fn module_eligible(s: &ModuleSource) -> (r: bool)
    ensures
        r == spec_eligible(*s),
{
    s.has_library && !s.disabled
}

/// The indices of the eligible entries, in scan order: exactly those
/// entries whose library exists and which are not disabled, in strictly
/// increasing order, none listed twice, none forgotten.
pub fn eligible_modules(sources: &Vec<ModuleSource>) -> (r: Vec<usize>)
    ensures
        forall|k: int|
            0 <= k < r@.len() ==> (#[trigger] r@[k]) < sources@.len() && spec_eligible(
                sources@[r@[k] as int],
            ),
        forall|k1: int, k2: int| 0 <= k1 < k2 < r@.len() ==> r@[k1] < r@[k2],
        forall|j: int| 0 <= j < sources@.len() && spec_eligible(#[trigger] sources@[j]) ==> r@.contains(j as usize),
{
    let mut r: Vec<usize> = Vec::new();
    let mut j: usize = 0;
    while j < sources.len()
        invariant
            j <= sources@.len(),
            forall|k: int|
                0 <= k < r@.len() ==> (#[trigger] r@[k]) < j && spec_eligible(
                    sources@[r@[k] as int],
                ),
            forall|k1: int, k2: int| 0 <= k1 < k2 < r@.len() ==> r@[k1] < r@[k2],
            forall|i: int| 0 <= i < j && spec_eligible(#[trigger] sources@[i]) ==> r@.contains(i as usize),
        decreases sources@.len() - j,
    {
        if module_eligible(&sources[j]) {
            let ghost old_r = r@;
            r.push(j);
            proof {
                assert forall|i: int| 0 <= i < j + 1 && spec_eligible(#[trigger] sources@[i]) implies r@.contains(
                    i as usize,
                ) by {
                    if i < j {
                        let idx = choose|idx: int| 0 <= idx < old_r.len() && old_r[idx] == i as usize;
                        assert(r@[idx] == i as usize);
                    } else {
                        assert(r@[r@.len() - 1] == j);
                    }
                }
            }
        }
        j = j + 1;
    }
    r
}

/// A loaded module: the unique directory-entry name and the owned
/// descriptor backing its library bytes. The ordered module list is
/// immutable for the daemon's lifetime; the one mutable per-module field,
/// the companion slot, lives beside the cached connection endpoint in the
/// embedder, under the module's exclusive lock.
pub struct Module {
    pub name: String,
    pub library: LibraryFd,
}

/// One enumeration step, taken after the descriptor attempt for an
/// eligible entry: a produced descriptor appends that one module — the
/// entry's name carried over, the library exactly as produced — and a
/// failed attempt changes nothing, so a failure excludes only that module
/// and never aborts the rest of the enumeration.
pub fn load_step(r: &mut Vec<Module>, name: String, outcome: Result<LibraryFd, ()>)
    ensures
        outcome matches Ok(lib) ==> final(r)@ == old(r)@.push(
            (Module { name: name, library: lib }),
        ),
        outcome is Err ==> final(r)@ == old(r)@,
{
    match outcome {
        Result::Ok(lib) => {
            r.push(Module { name, library: lib });
        },
        Result::Err(_) => (),
    }
}

/// `w` maps each loaded module back to the scanned entry it came from:
/// the witnesses are in strictly increasing scan order, each witnessed
/// entry is eligible, each module carries its entry's name unchanged, and
/// each module's region holds exactly its entry's library bytes, under
/// the full irreversible seal set in release mode and under none in debug
/// mode.
pub open spec fn spec_loads_witness(
    r: Seq<Module>,
    sources: Seq<ModuleSource>,
    sealed: bool,
    w: Seq<int>,
) -> bool {
    &&& w.len() == r.len()
    &&& forall|k: int| 0 <= k < w.len() ==> 0 <= #[trigger] w[k] < sources.len()
    &&& forall|k1: int, k2: int| 0 <= k1 < k2 < w.len() ==> w[k1] < w[k2]
    &&& forall|k: int| 0 <= k < w.len() ==> spec_eligible(sources[#[trigger] w[k]])
    &&& forall|k: int| 0 <= k < w.len() ==> r[k].name@ == sources[#[trigger] w[k]].name@
    &&& forall|k: int|
        0 <= k < w.len() ==> spec_memfd_contents(r[k].library.mem) == sources[#[trigger] w[k]].library@
    &&& forall|k: int|
        0 <= k < w.len() ==> spec_memfd_seals((#[trigger] r[k]).library.mem) == (if sealed {
            spec_library_seals()
        } else {
            Set::<SealKind>::empty()
        })
}

/// Load the scanned entries in directory order: skip the ineligible ones,
/// materialize each eligible one's library as a memory-backed file
/// (sealed in release mode), and skip — never abort on — any entry whose
/// descriptor cannot be produced. Every loaded module traces back to an
/// eligible entry, names carry over unchanged, and the scan order is
/// preserved.
pub fn load_modules(sources: &Vec<ModuleSource>, sealed: bool) -> (r: Vec<Module>)
    ensures
        r@.len() <= sources@.len(),
        forall|k: int| 0 <= k < r@.len() ==> (#[trigger] r@[k]).library.sealed == sealed,
        exists|w: Seq<int>| #[trigger] spec_loads_witness(r@, sources@, sealed, w),
{
    let mut r: Vec<Module> = Vec::new();
    let ghost mut w: Seq<int> = Seq::empty();
    let mut j: usize = 0;
    while j < sources.len()
        invariant
            j <= sources@.len(),
            r@.len() <= j,
            forall|k: int| 0 <= k < r@.len() ==> (#[trigger] r@[k]).library.sealed == sealed,
            w.len() == r@.len(),
            forall|k: int| 0 <= k < w.len() ==> 0 <= #[trigger] w[k] < j,
            forall|k1: int, k2: int| 0 <= k1 < k2 < w.len() ==> w[k1] < w[k2],
            forall|k: int| 0 <= k < w.len() ==> spec_eligible(sources@[#[trigger] w[k]]),
            forall|k: int| 0 <= k < w.len() ==> r@[k].name@ == sources@[#[trigger] w[k]].name@,
            forall|k: int|
                0 <= k < w.len() ==> spec_memfd_contents(r@[k].library.mem) == sources@[#[trigger] w[k]].library@,
            forall|k: int|
                0 <= k < w.len() ==> spec_memfd_seals((#[trigger] r@[k]).library.mem) == (
                if sealed {
                    spec_library_seals()
                } else {
                    Set::<SealKind>::empty()
                }),
        decreases sources@.len() - j,
    {
        if module_eligible(&sources[j]) {
            let name = sources[j].name.clone();
            let outcome = create_library_fd(&sources[j].library, sealed);
            let produced = outcome.is_ok();
            load_step(&mut r, name, outcome);
            if produced {
                proof {
                    w = w.push(j as int);
                }
            }
        }
        j = j + 1;
    }
    proof {
        assert(spec_loads_witness(r@, sources@, sealed, w));
    }
    r
}

/// The read-mostly daemon state: built once at startup, then shared,
/// immutable, by every connection-handling unit until process exit. The
/// provider variant is written exactly once, here, before any connection
/// is accepted.
pub struct DaemonContext {
    pub native_bridge: String,
    pub root: RootImpl,
    pub modules: Vec<Module>,
}

impl DaemonContext {
    /// Assemble the startup state: the cached native-bridge value, the
    /// classified provider, and the loaded module list.
    pub fn new(native_bridge: String, root: RootImpl, modules: Vec<Module>) -> (r: DaemonContext)
        ensures
            r.native_bridge@ == native_bridge@,
            r.root == root,
            r.modules@ == modules@,
    {
        DaemonContext { native_bridge, root, modules }
    }

    /// The provider variant classified at startup: written exactly once,
    /// before any connection is accepted, and read by every connection
    /// with no further synchronization — the context is immutable.
    pub fn get_impl(&self) -> (r: &RootImpl)
        ensures
            *r == self.root,
    {
        &self.root
    }

    /// How many modules were loaded: the count advertised by ReadModules,
    /// and the bound on every client-supplied module index.
    pub fn module_count(&self) -> (r: usize)
        ensures
            r == self.modules@.len(),
    {
        self.modules.len()
    }

    /// Address a module by client-supplied index: the indices are stable
    /// and dense, so this yields the module ReadModules listed at that
    /// position exactly when the index is in bounds, and nothing
    /// otherwise.
    pub fn module_at(&self, index: usize) -> (r: Option<&Module>)
        ensures
            index < self.modules@.len() <==> r is Some,
            r matches Some(m) ==> *m == self.modules@[index as int],
    {
        if index < self.modules.len() {
            Option::Some(&self.modules[index])
        } else {
            Option::None
        }
    }

    /// The module names in load order: the per-module part of the
    /// ReadModules response (each name is followed on the wire by the
    /// transfer of that module's library descriptor).
    pub fn module_names(&self) -> (r: Vec<String>)
        ensures
            r@.len() == self.modules@.len(),
            forall|i: int| 0 <= i < r@.len() ==> (#[trigger] r@[i])@ == self.modules@[i].name@,
    {
        let mut r: Vec<String> = Vec::new();
        let mut i: usize = 0;
        while i < self.modules.len()
            invariant
                i <= self.modules@.len(),
                r@.len() == i,
                forall|k: int| 0 <= k < r@.len() ==> (#[trigger] r@[k])@ == self.modules@[k].name@,
            decreases self.modules@.len() - i,
        {
            r.push(self.modules[i].name.clone());
            i = i + 1;
        }
        r
    }
}

} // verus!
