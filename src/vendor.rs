use vstd::prelude::*;
use crate::leaf::{CpuidLeaf, leaf_bytes, push_leaf};

verus! {

/// "GenuineIntel" as leaf 0's EBX, EDX and ECX.
pub const INTEL_EBX: u32 = 0x756e6547;
pub const INTEL_EDX: u32 = 0x49656e69;
pub const INTEL_ECX: u32 = 0x6c65746e;
/// "AuthenticAMD" as leaf 0's EBX, EDX and ECX.
pub const AMD_EBX: u32 = 0x68747541;
pub const AMD_EDX: u32 = 0x69746e65;
pub const AMD_ECX: u32 = 0x444d4163;

/// The leaf that reports the highest extended leaf.
pub const EXTENDED_MAX_LEAF: u32 = 0x80000000;
/// The three leaves of the brand string.
pub const BRAND_FIRST_LEAF: u32 = 0x80000002;
pub const BRAND_MIDDLE_LEAF: u32 = 0x80000003;
pub const BRAND_LAST_LEAF: u32 = 0x80000004;

/// A highest leaf number as a `u8`: values above 0xFF become 0xFF, so that a
/// processor reporting many leaves is never taken for one reporting few.
pub open spec fn saturate_leaf(eax: u32) -> u8 {
    if eax > 0xFF {
        0xFF
    } else {
        eax as u8
    }
}

/// A highest leaf number as a `u8`, saturated at 0xFF.
fn max_leaf_u8(eax: u32) -> (r: u8)
    ensures
        r == saturate_leaf(eax),
{
    if eax > 0xFF {
        0xFF
    } else {
        eax as u8
    }
}

/// The vendor of the processor, with the highest standard leaf it supports.
#[derive(Clone, Copy, Debug, PartialEq, Eq, Structural)]
pub enum Family {
    Unknown,
    Intel(u8),
    Amd(u8),
}

impl Family {
    /// The vendor tag that leaf 0's registers identify.
    pub open spec fn spec_detect(l: CpuidLeaf) -> Family {
        if l.ebx == INTEL_EBX && l.ecx == INTEL_ECX && l.edx == INTEL_EDX {
            Family::Intel(saturate_leaf(l.eax))
        } else if l.ebx == AMD_EBX && l.ecx == AMD_ECX && l.edx == AMD_EDX {
            Family::Amd(saturate_leaf(l.eax))
        } else {
            Family::Unknown
        }
    }

    pub open spec fn spec_max_lvl(self) -> u8 {
        match self {
            Family::Unknown => 0,
            Family::Intel(v) => v,
            Family::Amd(v) => v,
        }
    }

    /// Identifies the vendor from the registers of leaf 0.
    pub fn detect(l: &CpuidLeaf) -> (r: Family)
        ensures
            r == Family::spec_detect(*l),
    {
        if l.ebx == INTEL_EBX && l.ecx == INTEL_ECX && l.edx == INTEL_EDX {
            Family::Intel(max_leaf_u8(l.eax))
        } else if l.ebx == AMD_EBX && l.ecx == AMD_ECX && l.edx == AMD_EDX {
            Family::Amd(max_leaf_u8(l.eax))
        } else {
            Family::Unknown
        }
    }

    /// The highest standard leaf; 0 for an unknown vendor.
    pub fn max_lvl(&self) -> (r: u8)
        ensures
            r == self.spec_max_lvl(),
    {
        match *self {
            Family::Unknown => 0,
            Family::Intel(v) => v,
            Family::Amd(v) => v,
        }
    }
}

/// For a recognised vendor, the tag reports a highest leaf of at least `n`
/// (any `u8`) exactly when leaf 0's EAX does, and the very value of EAX when
/// it fits in a `u8`.
pub proof fn lemma_detected_max_leaf(l: CpuidLeaf, n: u8)
    requires
        (l.ebx == INTEL_EBX && l.ecx == INTEL_ECX && l.edx == INTEL_EDX) || (l.ebx == AMD_EBX
            && l.ecx == AMD_ECX && l.edx == AMD_EDX),
    ensures
        Family::spec_detect(l).spec_max_lvl() >= n <==> l.eax >= n,
        l.eax <= 0xFF ==> Family::spec_detect(l).spec_max_lvl() == l.eax,
{
}

/// The colour in which a vendor's data is shown.
pub open spec fn family_color(family: Family) -> (u8, u8, u8) {
    match family {
        Family::Unknown => (0, 0, 0),
        Family::Intel(_) => (0, 113, 197),
        Family::Amd(_) => (237, 28, 36),
    }
}

/// The colour in which a vendor's data is shown.
pub fn get_family_color(family: &Family) -> (r: (u8, u8, u8))
    ensures
        r == family_color(*family),
{
    match family {
        Family::Unknown => (0, 0, 0),
        Family::Intel(_) => (0, 113, 197),
        Family::Amd(_) => (237, 28, 36),
    }
}

/// The 48 bytes of the brand string held by its three leaves.
pub open spec fn brand_bytes(l2: CpuidLeaf, l3: CpuidLeaf, l4: CpuidLeaf) -> Seq<u8> {
    leaf_bytes(l2) + leaf_bytes(l3) + leaf_bytes(l4)
}

/// Assembles the brand string from leaves 0x80000002, 0x80000003 and
/// 0x80000004: each register's bytes, least significant first, in register
/// order EAX, EBX, ECX, EDX.
pub fn brand_string(l2: &CpuidLeaf, l3: &CpuidLeaf, l4: &CpuidLeaf) -> (r: Vec<u8>)
    ensures
        r@ == brand_bytes(*l2, *l3, *l4),
        r@.len() == 48,
{
    let mut r: Vec<u8> = Vec::with_capacity(48);
    push_leaf(&mut r, l2);
    push_leaf(&mut r, l3);
    push_leaf(&mut r, l4);
    assert(r@ =~= brand_bytes(*l2, *l3, *l4));
    r
}

/// Reads the brand string through `query`, which performs one CPUID query
/// for the leaf it is given. Leaf 0x80000000 is queried first; where it
/// reports no leaf 0x80000004, the result is `None` and no other leaf is
/// queried.
pub fn vendor<F: Fn(u32) -> CpuidLeaf>(query: F) -> (r: Option<Vec<u8>>)
    requires
        query.requires((EXTENDED_MAX_LEAF,)),
        forall|m: CpuidLeaf|
            #[trigger] query.ensures((EXTENDED_MAX_LEAF,), m) && m.eax >= BRAND_LAST_LEAF ==> {
                &&& query.requires((BRAND_FIRST_LEAF,))
                &&& query.requires((BRAND_MIDDLE_LEAF,))
                &&& query.requires((BRAND_LAST_LEAF,))
            },
    ensures
        r is None ==> exists|m: CpuidLeaf| #[trigger]
            query.ensures((EXTENDED_MAX_LEAF,), m) && m.eax < BRAND_LAST_LEAF,
        r matches Some(v) ==> exists|m: CpuidLeaf, l2: CpuidLeaf, l3: CpuidLeaf, l4: CpuidLeaf|
            #[trigger] query.ensures((EXTENDED_MAX_LEAF,), m) && m.eax >= BRAND_LAST_LEAF
                && #[trigger] query.ensures((BRAND_FIRST_LEAF,), l2) && #[trigger] query.ensures(
                (BRAND_MIDDLE_LEAF,),
                l3,
            ) && #[trigger] query.ensures((BRAND_LAST_LEAF,), l4) && v@ == brand_bytes(l2, l3, l4),
{
    let m = query(EXTENDED_MAX_LEAF);
    if m.eax < BRAND_LAST_LEAF {
        return None;
    }
    let l2 = query(BRAND_FIRST_LEAF);
    let l3 = query(BRAND_MIDDLE_LEAF);
    let l4 = query(BRAND_LAST_LEAF);
    Some(brand_string(&l2, &l3, &l4))
}

/// `bytes` without its trailing zero bytes.
pub fn trim_trailing_nuls(bytes: &Vec<u8>) -> (r: Vec<u8>)
    ensures
        r@ == bytes@.take(r@.len() as int),
        r@.len() == 0 || r@.last() != 0,
        forall|k: int| r@.len() <= k < bytes@.len() ==> bytes@[k] == 0,
{
    let mut n: usize = bytes.len();
    while n > 0 && bytes[n - 1] == 0
        invariant
            n <= bytes@.len(),
            forall|k: int| n <= k < bytes@.len() ==> bytes@[k] == 0,
        decreases n,
    {
        n = n - 1;
    }
    let mut r: Vec<u8> = Vec::with_capacity(n);
    let mut i: usize = 0;
    while i < n
        invariant
            i <= n,
            n <= bytes@.len(),
            r@ == bytes@.take(i as int),
        decreases n - i,
    {
        r.push(bytes[i]);
        i = i + 1;
        assert(r@ =~= bytes@.take(i as int));
    }
    r
}

} // verus!
