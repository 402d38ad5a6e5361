//! Architecture resolution: the daemon reads the system's cpu-abi
//! property (through the embedder) and picks the per-bitness instruction
//! set whose shared objects it loads; an unrecognized abi is
//! startup-fatal.
use vstd::prelude::*;

verus! {

/// The needle occurs in the haystack starting at position `i`.
pub open spec fn spec_match_at(hay: Seq<u8>, needle: Seq<u8>, i: int) -> bool {
    &&& 0 <= i
    &&& i + needle.len() <= hay.len()
    &&& forall|j: int| 0 <= j < needle.len() ==> hay[i + j] == needle[j]
}

/// The needle occurs somewhere in the haystack.
pub open spec fn spec_contains(hay: Seq<u8>, needle: Seq<u8>) -> bool {
    exists|i: int| spec_match_at(hay, needle, i)
}

/// Substring search over bytes: whether the needle occurs anywhere in the
/// haystack.
pub fn bytes_contains(hay: &Vec<u8>, needle: &Vec<u8>) -> (r: bool)
    ensures
        r == spec_contains(hay@, needle@),
{
    if needle.len() > hay.len() {
        proof {
            assert(forall|p: int| !spec_match_at(hay@, needle@, p));
        }
        return false;
    }
    if needle.len() == 0 {
        proof {
            assert(spec_match_at(hay@, needle@, 0));
        }
        return true;
    }
    let mut i: usize = 0;
    while i <= hay.len() - needle.len()
        invariant
            0 < needle@.len() <= hay@.len(),
            i <= hay@.len() - needle@.len() + 1,
            hay@.len() <= usize::MAX,
            forall|p: int| 0 <= p < i ==> !spec_match_at(hay@, needle@, p),
        decreases hay@.len() - needle@.len() + 1 - i,
    {
        let mut j: usize = 0;
        let mut matched: bool = true;
        while j < needle.len() && matched
            invariant
                0 < needle@.len() <= hay@.len(),
                i + needle@.len() <= hay@.len(),
                j <= needle@.len(),
                hay@.len() <= usize::MAX,
                matched ==> forall|t: int| 0 <= t < j ==> hay@[i + t] == needle@[t],
                !matched ==> !spec_match_at(hay@, needle@, i as int),
            decreases needle@.len() - j + (if matched {
                1int
            } else {
                0int
            }),
        {
            if hay[i + j] != needle[j] {
                matched = false;
            } else {
                j = j + 1;
            }
        }
        if matched {
            proof {
                assert(spec_match_at(hay@, needle@, i as int));
            }
            return true;
        }
        i = i + 1;
    }
    proof {
        assert(forall|p: int| !spec_match_at(hay@, needle@, p));
    }
    false
}

/// The instruction-set architectures the daemon serves, one 32-bit and
/// one 64-bit flavor per cpu family.
#[derive(Clone, Copy, PartialEq, Eq, Structural, Debug)]
pub enum Arch {
    Armeabi,
    Arm64,
    X86,
    X86_64,
}

/// The bytes of "arm".
pub open spec fn spec_arm_needle() -> Seq<u8> {
    seq![97u8, 114u8, 109u8]
}

/// The bytes of "x86".
pub open spec fn spec_x86_needle() -> Seq<u8> {
    seq![120u8, 56u8, 54u8]
}

/// Which architecture a system abi string selects, for the given daemon
/// bitness: an abi naming the arm family first, then the x86 family;
/// anything else is unsupported.
pub open spec fn spec_arch_for(sys: Seq<u8>, is_64: bool) -> Option<Arch> {
    if spec_contains(sys, spec_arm_needle()) {
        Option::Some(
            if is_64 {
                Arch::Arm64
            } else {
                Arch::Armeabi
            },
        )
    } else if spec_contains(sys, spec_x86_needle()) {
        Option::Some(
            if is_64 {
                Arch::X86_64
            } else {
                Arch::X86
            },
        )
    } else {
        Option::None
    }
}

/// Resolve the daemon's architecture from the system's cpu-abi property
/// bytes: an abi containing "arm" selects the arm flavor of the daemon's
/// bitness, one containing "x86" the x86 flavor, and any other abi is
/// unsupported — a startup-fatal condition for the embedder.
pub fn get_arch(system_arch: &Vec<u8>, is_64: bool) -> (r: Option<Arch>)
    ensures
        r == spec_arch_for(system_arch@, is_64),
{
    let mut arm: Vec<u8> = Vec::new();
    arm.push(97);
    arm.push(114);
    arm.push(109);
    proof {
        assert(arm@ =~= spec_arm_needle());
    }
    if bytes_contains(system_arch, &arm) {
        return Option::Some(
            if is_64 {
                Arch::Arm64
            } else {
                Arch::Armeabi
            },
        );
    }
    let mut x86: Vec<u8> = Vec::new();
    x86.push(120);
    x86.push(56);
    x86.push(54);
    proof {
        assert(x86@ =~= spec_x86_needle());
    }
    if bytes_contains(system_arch, &x86) {
        return Option::Some(
            if is_64 {
                Arch::X86_64
            } else {
                Arch::X86
            },
        );
    }
    Option::None
}

/// The abi directory name of an architecture: the fixed relative path of
/// a module's shared object is derived from it.
pub fn arch_name(a: &Arch) -> (r: &'static str)
    ensures
        *a == Arch::Armeabi ==> r@ == "armeabi-v7a"@,
        *a == Arch::Arm64 ==> r@ == "arm64-v8a"@,
        *a == Arch::X86 ==> r@ == "x86"@,
        *a == Arch::X86_64 ==> r@ == "x86_64"@,
{
    match a {
        Arch::Armeabi => "armeabi-v7a",
        Arch::Arm64 => "arm64-v8a",
        Arch::X86 => "x86",
        Arch::X86_64 => "x86_64",
    }
}

} // verus!
