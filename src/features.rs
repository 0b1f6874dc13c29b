use vstd::prelude::*;

verus! {

/// True when bit `k` of `w` is set.
pub open spec fn word_bit(w: u32, k: u32) -> bool {
    (w >> k) & 1 == 1
}

/// True when bit `i` of the 64-bit flag space is set: bits 0-31 are those of
/// `features[0]`, bits 32-63 those of `features[1]`.
pub open spec fn bit_set(features: [u32; 2], i: int) -> bool {
    if i < 32 {
        word_bit(features@[0], i as u32)
    } else {
        word_bit(features@[1], (i - 32) as u32)
    }
}

/// The flag space with bit `i` alone set.
pub open spec fn single_bit_mask(i: int) -> [u32; 2] {
    if i < 32 {
        [1u32 << (i as u32), 0]
    } else {
        [0, 1u32 << ((i - 32) as u32)]
    }
}

/// Tests bit `feature` of the flag space held in `features`.
pub fn has_feature(features: &[u32; 2], feature: usize) -> (r: bool)
    requires
        feature < 64,
    ensures
        r == bit_set(*features, feature as int),
{
    let w: u32 = if feature > 31 { features[1] } else { features[0] };
    let k: u32 = (feature % 32) as u32;
    proof {
        assert((w & (1u32 << k)) > 0 <==> (w >> k) & 1 == 1) by (bit_vector)
            requires k < 32;
    }
    (w & (1u32 << k)) > 0
}

/// A processor capability reported by leaf 1, in the order of its bit.
#[derive(Clone, Copy, Debug, PartialEq, Eq, Structural)]
pub enum Feature {
    Fpu,
    Vme,
    De,
    Pse,
    Tsc,
    Msr,
    Pae,
    Mce,
    Cx8,
    Apic,
    MtrrReserved,
    Sep,
    Mtrr,
    Pge,
    Mca,
    Cmov,
    Pat,
    Pse36,
    Psn,
    Clfsh,
    Nx,
    Ds,
    Acpi,
    Mmx,
    Fxsr,
    Sse,
    Sse2,
    Ss,
    Htt,
    Tm,
    Ia64,
    Pbe,
    Sse3,
    Pclmulqdq,
    Dtes64,
    Monitor,
    DsCpl,
    Vmx,
    Smx,
    Est,
    Tm2,
    Ssse3,
    CnxtId,
    Sdbg,
    Fma,
    Cx16,
    Xtpr,
    Pdcm,
    Reserved1,
    Pcid,
    Dca,
    Sse41,
    Sse42,
    X2Apic,
    Movbe,
    Popcnt,
    TscDeadline,
    AesNi,
    Xsave,
    Osxsave,
    Avx,
    F16c,
    Rdrand,
    Hypervisor,
}

/// The feature at bit `i` of the catalog.
pub open spec fn feature_at(i: u8) -> Feature {
    match i {
        0 => Feature::Fpu,
        1 => Feature::Vme,
        2 => Feature::De,
        3 => Feature::Pse,
        4 => Feature::Tsc,
        5 => Feature::Msr,
        6 => Feature::Pae,
        7 => Feature::Mce,
        8 => Feature::Cx8,
        9 => Feature::Apic,
        10 => Feature::MtrrReserved,
        11 => Feature::Sep,
        12 => Feature::Mtrr,
        13 => Feature::Pge,
        14 => Feature::Mca,
        15 => Feature::Cmov,
        16 => Feature::Pat,
        17 => Feature::Pse36,
        18 => Feature::Psn,
        19 => Feature::Clfsh,
        20 => Feature::Nx,
        21 => Feature::Ds,
        22 => Feature::Acpi,
        23 => Feature::Mmx,
        24 => Feature::Fxsr,
        25 => Feature::Sse,
        26 => Feature::Sse2,
        27 => Feature::Ss,
        28 => Feature::Htt,
        29 => Feature::Tm,
        30 => Feature::Ia64,
        31 => Feature::Pbe,
        32 => Feature::Sse3,
        33 => Feature::Pclmulqdq,
        34 => Feature::Dtes64,
        35 => Feature::Monitor,
        36 => Feature::DsCpl,
        37 => Feature::Vmx,
        38 => Feature::Smx,
        39 => Feature::Est,
        40 => Feature::Tm2,
        41 => Feature::Ssse3,
        42 => Feature::CnxtId,
        43 => Feature::Sdbg,
        44 => Feature::Fma,
        45 => Feature::Cx16,
        46 => Feature::Xtpr,
        47 => Feature::Pdcm,
        48 => Feature::Reserved1,
        49 => Feature::Pcid,
        50 => Feature::Dca,
        51 => Feature::Sse41,
        52 => Feature::Sse42,
        53 => Feature::X2Apic,
        54 => Feature::Movbe,
        55 => Feature::Popcnt,
        56 => Feature::TscDeadline,
        57 => Feature::AesNi,
        58 => Feature::Xsave,
        59 => Feature::Osxsave,
        60 => Feature::Avx,
        61 => Feature::F16c,
        62 => Feature::Rdrand,
        _ => Feature::Hypervisor,
    }
}

/// The catalog: all features, in the order of their bit.
pub open spec fn catalog() -> Seq<Feature> {
    Seq::new(64, |i: int| feature_at(i as u8))
}

/// True of a feature whose bit is set in `features`.
pub open spec fn is_active(features: [u32; 2]) -> spec_fn(Feature) -> bool {
    |f: Feature| bit_set(features, f.index())
}

/// The features whose bit is set in `features`, in catalog order.
pub open spec fn active_features(features: [u32; 2]) -> Seq<Feature> {
    catalog().filter(is_active(features))
}

impl Feature {
    /// The bit of this feature in the flag space.
    pub open spec fn index(self) -> int {
        match self {
            Feature::Fpu => 0,
            Feature::Vme => 1,
            Feature::De => 2,
            Feature::Pse => 3,
            Feature::Tsc => 4,
            Feature::Msr => 5,
            Feature::Pae => 6,
            Feature::Mce => 7,
            Feature::Cx8 => 8,
            Feature::Apic => 9,
            Feature::MtrrReserved => 10,
            Feature::Sep => 11,
            Feature::Mtrr => 12,
            Feature::Pge => 13,
            Feature::Mca => 14,
            Feature::Cmov => 15,
            Feature::Pat => 16,
            Feature::Pse36 => 17,
            Feature::Psn => 18,
            Feature::Clfsh => 19,
            Feature::Nx => 20,
            Feature::Ds => 21,
            Feature::Acpi => 22,
            Feature::Mmx => 23,
            Feature::Fxsr => 24,
            Feature::Sse => 25,
            Feature::Sse2 => 26,
            Feature::Ss => 27,
            Feature::Htt => 28,
            Feature::Tm => 29,
            Feature::Ia64 => 30,
            Feature::Pbe => 31,
            Feature::Sse3 => 32,
            Feature::Pclmulqdq => 33,
            Feature::Dtes64 => 34,
            Feature::Monitor => 35,
            Feature::DsCpl => 36,
            Feature::Vmx => 37,
            Feature::Smx => 38,
            Feature::Est => 39,
            Feature::Tm2 => 40,
            Feature::Ssse3 => 41,
            Feature::CnxtId => 42,
            Feature::Sdbg => 43,
            Feature::Fma => 44,
            Feature::Cx16 => 45,
            Feature::Xtpr => 46,
            Feature::Pdcm => 47,
            Feature::Reserved1 => 48,
            Feature::Pcid => 49,
            Feature::Dca => 50,
            Feature::Sse41 => 51,
            Feature::Sse42 => 52,
            Feature::X2Apic => 53,
            Feature::Movbe => 54,
            Feature::Popcnt => 55,
            Feature::TscDeadline => 56,
            Feature::AesNi => 57,
            Feature::Xsave => 58,
            Feature::Osxsave => 59,
            Feature::Avx => 60,
            Feature::F16c => 61,
            Feature::Rdrand => 62,
            Feature::Hypervisor => 63,
        }
    }

    /// The canonical upper-case display name.
    pub open spec fn spec_name(self) -> &'static str {
        match self {
            Feature::Fpu => "FPU",
            Feature::Vme => "VME",
            Feature::De => "DE",
            Feature::Pse => "PSE",
            Feature::Tsc => "TSC",
            Feature::Msr => "MSR",
            Feature::Pae => "PAE",
            Feature::Mce => "MCE",
            Feature::Cx8 => "CX8",
            Feature::Apic => "APIC",
            Feature::MtrrReserved => "MTRRRESERVED",
            Feature::Sep => "SEP",
            Feature::Mtrr => "MTRR",
            Feature::Pge => "PGE",
            Feature::Mca => "MCA",
            Feature::Cmov => "CMOV",
            Feature::Pat => "PAT",
            Feature::Pse36 => "PSE36",
            Feature::Psn => "PSN",
            Feature::Clfsh => "CLFSH",
            Feature::Nx => "NX",
            Feature::Ds => "DS",
            Feature::Acpi => "ACPI",
            Feature::Mmx => "MMX",
            Feature::Fxsr => "FXSR",
            Feature::Sse => "SSE",
            Feature::Sse2 => "SSE2",
            Feature::Ss => "SS",
            Feature::Htt => "HTT",
            Feature::Tm => "TM",
            Feature::Ia64 => "IA64",
            Feature::Pbe => "PBE",
            Feature::Sse3 => "SSE3",
            Feature::Pclmulqdq => "PCLMULQDQ",
            Feature::Dtes64 => "DTES64",
            Feature::Monitor => "MONITOR",
            Feature::DsCpl => "DSCPL",
            Feature::Vmx => "VMX",
            Feature::Smx => "SMX",
            Feature::Est => "EST",
            Feature::Tm2 => "TM2",
            Feature::Ssse3 => "SSSE3",
            Feature::CnxtId => "CNXTID",
            Feature::Sdbg => "SDBG",
            Feature::Fma => "FMA",
            Feature::Cx16 => "CX16",
            Feature::Xtpr => "XTPR",
            Feature::Pdcm => "PDCM",
            Feature::Reserved1 => "RESERVED1",
            Feature::Pcid => "PCID",
            Feature::Dca => "DCA",
            Feature::Sse41 => "SSE41",
            Feature::Sse42 => "SSE42",
            Feature::X2Apic => "X2APIC",
            Feature::Movbe => "MOVBE",
            Feature::Popcnt => "POPCNT",
            Feature::TscDeadline => "TSCDEADLINE",
            Feature::AesNi => "AESNI",
            Feature::Xsave => "XSAVE",
            Feature::Osxsave => "OSXSAVE",
            Feature::Avx => "AVX",
            Feature::F16c => "F16C",
            Feature::Rdrand => "RDRAND",
            Feature::Hypervisor => "HYPERVISOR",
        }
    }

    /// The bit of this feature in the flag space.
    pub fn bit(&self) -> (r: u8)
        ensures
            r == self.index(),
    {
        match self {
            Feature::Fpu => 0,
            Feature::Vme => 1,
            Feature::De => 2,
            Feature::Pse => 3,
            Feature::Tsc => 4,
            Feature::Msr => 5,
            Feature::Pae => 6,
            Feature::Mce => 7,
            Feature::Cx8 => 8,
            Feature::Apic => 9,
            Feature::MtrrReserved => 10,
            Feature::Sep => 11,
            Feature::Mtrr => 12,
            Feature::Pge => 13,
            Feature::Mca => 14,
            Feature::Cmov => 15,
            Feature::Pat => 16,
            Feature::Pse36 => 17,
            Feature::Psn => 18,
            Feature::Clfsh => 19,
            Feature::Nx => 20,
            Feature::Ds => 21,
            Feature::Acpi => 22,
            Feature::Mmx => 23,
            Feature::Fxsr => 24,
            Feature::Sse => 25,
            Feature::Sse2 => 26,
            Feature::Ss => 27,
            Feature::Htt => 28,
            Feature::Tm => 29,
            Feature::Ia64 => 30,
            Feature::Pbe => 31,
            Feature::Sse3 => 32,
            Feature::Pclmulqdq => 33,
            Feature::Dtes64 => 34,
            Feature::Monitor => 35,
            Feature::DsCpl => 36,
            Feature::Vmx => 37,
            Feature::Smx => 38,
            Feature::Est => 39,
            Feature::Tm2 => 40,
            Feature::Ssse3 => 41,
            Feature::CnxtId => 42,
            Feature::Sdbg => 43,
            Feature::Fma => 44,
            Feature::Cx16 => 45,
            Feature::Xtpr => 46,
            Feature::Pdcm => 47,
            Feature::Reserved1 => 48,
            Feature::Pcid => 49,
            Feature::Dca => 50,
            Feature::Sse41 => 51,
            Feature::Sse42 => 52,
            Feature::X2Apic => 53,
            Feature::Movbe => 54,
            Feature::Popcnt => 55,
            Feature::TscDeadline => 56,
            Feature::AesNi => 57,
            Feature::Xsave => 58,
            Feature::Osxsave => 59,
            Feature::Avx => 60,
            Feature::F16c => 61,
            Feature::Rdrand => 62,
            Feature::Hypervisor => 63,
        }
    }

    /// The canonical upper-case display name.
    pub fn name(&self) -> (r: &'static str)
        ensures
            r == self.spec_name(),
    {
        match self {
            Feature::Fpu => "FPU",
            Feature::Vme => "VME",
            Feature::De => "DE",
            Feature::Pse => "PSE",
            Feature::Tsc => "TSC",
            Feature::Msr => "MSR",
            Feature::Pae => "PAE",
            Feature::Mce => "MCE",
            Feature::Cx8 => "CX8",
            Feature::Apic => "APIC",
            Feature::MtrrReserved => "MTRRRESERVED",
            Feature::Sep => "SEP",
            Feature::Mtrr => "MTRR",
            Feature::Pge => "PGE",
            Feature::Mca => "MCA",
            Feature::Cmov => "CMOV",
            Feature::Pat => "PAT",
            Feature::Pse36 => "PSE36",
            Feature::Psn => "PSN",
            Feature::Clfsh => "CLFSH",
            Feature::Nx => "NX",
            Feature::Ds => "DS",
            Feature::Acpi => "ACPI",
            Feature::Mmx => "MMX",
            Feature::Fxsr => "FXSR",
            Feature::Sse => "SSE",
            Feature::Sse2 => "SSE2",
            Feature::Ss => "SS",
            Feature::Htt => "HTT",
            Feature::Tm => "TM",
            Feature::Ia64 => "IA64",
            Feature::Pbe => "PBE",
            Feature::Sse3 => "SSE3",
            Feature::Pclmulqdq => "PCLMULQDQ",
            Feature::Dtes64 => "DTES64",
            Feature::Monitor => "MONITOR",
            Feature::DsCpl => "DSCPL",
            Feature::Vmx => "VMX",
            Feature::Smx => "SMX",
            Feature::Est => "EST",
            Feature::Tm2 => "TM2",
            Feature::Ssse3 => "SSSE3",
            Feature::CnxtId => "CNXTID",
            Feature::Sdbg => "SDBG",
            Feature::Fma => "FMA",
            Feature::Cx16 => "CX16",
            Feature::Xtpr => "XTPR",
            Feature::Pdcm => "PDCM",
            Feature::Reserved1 => "RESERVED1",
            Feature::Pcid => "PCID",
            Feature::Dca => "DCA",
            Feature::Sse41 => "SSE41",
            Feature::Sse42 => "SSE42",
            Feature::X2Apic => "X2APIC",
            Feature::Movbe => "MOVBE",
            Feature::Popcnt => "POPCNT",
            Feature::TscDeadline => "TSCDEADLINE",
            Feature::AesNi => "AESNI",
            Feature::Xsave => "XSAVE",
            Feature::Osxsave => "OSXSAVE",
            Feature::Avx => "AVX",
            Feature::F16c => "F16C",
            Feature::Rdrand => "RDRAND",
            Feature::Hypervisor => "HYPERVISOR",
        }
    }

    /// The feature at bit `i`.
    pub fn from_bit(i: u8) -> (r: Feature)
        requires
            i < 64,
        ensures
            r == feature_at(i),
            r.index() == i,
    {
        match i {
            0 => Feature::Fpu,
            1 => Feature::Vme,
            2 => Feature::De,
            3 => Feature::Pse,
            4 => Feature::Tsc,
            5 => Feature::Msr,
            6 => Feature::Pae,
            7 => Feature::Mce,
            8 => Feature::Cx8,
            9 => Feature::Apic,
            10 => Feature::MtrrReserved,
            11 => Feature::Sep,
            12 => Feature::Mtrr,
            13 => Feature::Pge,
            14 => Feature::Mca,
            15 => Feature::Cmov,
            16 => Feature::Pat,
            17 => Feature::Pse36,
            18 => Feature::Psn,
            19 => Feature::Clfsh,
            20 => Feature::Nx,
            21 => Feature::Ds,
            22 => Feature::Acpi,
            23 => Feature::Mmx,
            24 => Feature::Fxsr,
            25 => Feature::Sse,
            26 => Feature::Sse2,
            27 => Feature::Ss,
            28 => Feature::Htt,
            29 => Feature::Tm,
            30 => Feature::Ia64,
            31 => Feature::Pbe,
            32 => Feature::Sse3,
            33 => Feature::Pclmulqdq,
            34 => Feature::Dtes64,
            35 => Feature::Monitor,
            36 => Feature::DsCpl,
            37 => Feature::Vmx,
            38 => Feature::Smx,
            39 => Feature::Est,
            40 => Feature::Tm2,
            41 => Feature::Ssse3,
            42 => Feature::CnxtId,
            43 => Feature::Sdbg,
            44 => Feature::Fma,
            45 => Feature::Cx16,
            46 => Feature::Xtpr,
            47 => Feature::Pdcm,
            48 => Feature::Reserved1,
            49 => Feature::Pcid,
            50 => Feature::Dca,
            51 => Feature::Sse41,
            52 => Feature::Sse42,
            53 => Feature::X2Apic,
            54 => Feature::Movbe,
            55 => Feature::Popcnt,
            56 => Feature::TscDeadline,
            57 => Feature::AesNi,
            58 => Feature::Xsave,
            59 => Feature::Osxsave,
            60 => Feature::Avx,
            61 => Feature::F16c,
            62 => Feature::Rdrand,
            _ => Feature::Hypervisor,
        }
    }
}

/// The features whose bit is set in `features`, in catalog order.
pub fn enabled_features(features: &[u32; 2]) -> (r: Vec<Feature>)
    ensures
        r@ == active_features(*features),
{
    let mut r: Vec<Feature> = Vec::new();
    let mut i: u8 = 0;
    while i < 64
        invariant
            i <= 64,
            r@ == catalog().take(i as int).filter(is_active(*features)),
        decreases 64 - i,
    {
        let f = Feature::from_bit(i);
        let on = has_feature(features, i as usize);
        proof {
            let s = catalog().take(i as int + 1);
            assert(s.drop_last() =~= catalog().take(i as int));
            assert(s.last() == f);
            reveal(Seq::filter);
        }
        if on {
            r.push(f);
        }
        i = i + 1;
    }
    assert(catalog().take(64) =~= catalog());
    r
}

/// The upper-case names of the features whose bit is set in `features`, in
/// catalog order.
pub fn enumerate_names(features: &[u32; 2]) -> (r: Vec<&'static str>)
    ensures
        r@.len() == active_features(*features).len(),
        forall|k: int| 0 <= k < r@.len() ==> r@[k] == (#[trigger] active_features(*features)[k]).spec_name(),
{
    let fs = enabled_features(features);
    let mut r: Vec<&'static str> = Vec::new();
    let mut j: usize = 0;
    while j < fs.len()
        invariant
            j <= fs@.len(),
            fs@ == active_features(*features),
            r@.len() == j,
            forall|k: int| 0 <= k < j ==> r@[k] == (#[trigger] fs@[k]).spec_name(),
        decreases fs.len() - j,
    {
        r.push(fs[j].name());
        j = j + 1;
    }
    r
}

/// Each catalog entry sits at its own bit.
pub proof fn lemma_catalog_positions(i: int)
    requires
        0 <= i < 64,
    ensures
        feature_at(i as u8).index() == i,
        catalog()[i] == feature_at(i as u8),
{
}

/// A flag space with only the bit of feature `f` set reports `f` and no other bit.
pub proof fn lemma_single_bit_isolated(f: Feature, i: int)
    requires
        0 <= i < 64,
    ensures
        bit_set(single_bit_mask(f.index()), i) <==> i == f.index(),
{
    let b = f.index();
    assert(0 <= b < 64);
    assert(forall|x: u32, k: u32| x < 32 && k < 32 ==> (((1u32 << x) >> k) & 1 == 1 <==> x == k))
        by (bit_vector);
    assert(forall|k: u32| k < 32 ==> (0u32 >> k) & 1 != 1) by (bit_vector);
}

/// The features reported for a flag space depend on the set of its bits
/// alone: they are the catalog entries whose bit is in that set, in catalog
/// order, whatever order the bits were set in.
pub proof fn lemma_names_follow_bit_set(features: [u32; 2], bits: Set<int>)
    requires
        forall|i: int| 0 <= i < 64 ==> (bit_set(features, i) <==> bits.contains(i)),
    ensures
        active_features(features) == catalog().filter(|f: Feature| bits.contains(f.index())),
{
    assert forall|f: Feature| #[trigger] is_active(features)(f) == bits.contains(f.index()) by {
        assert(0 <= f.index() < 64);
    }
    assert(is_active(features) =~= (|f: Feature| bits.contains(f.index())));
}

/// The bits set in `features`, as bit numbers.
pub open spec fn set_bits(features: [u32; 2]) -> Set<int> {
    Set::new(|i: int| 0 <= i < 64 && bit_set(features, i))
}

/// A feature is the catalog entry at its own bit.
proof fn lemma_feature_at_own_index(f: Feature)
    ensures
        0 <= f.index() < 64,
        feature_at(f.index() as u8) == f,
{
}

/// The active features among the first `n` catalog entries: distinct, below
/// bit `n`, and exactly those with their bit set.
proof fn lemma_active_prefix(features: [u32; 2], n: int)
    requires
        0 <= n <= 64,
    ensures
        ({
            let s = catalog().take(n).filter(is_active(features));
            &&& s.no_duplicates()
            &&& forall|j: int| 0 <= j < s.len() ==> (#[trigger] s[j]).index() < n
            &&& forall|f: Feature| s.contains(f) <==> (f.index() < n && bit_set(features, f.index()))
        }),
    decreases n,
{
    reveal(Seq::filter);
    let p = is_active(features);
    let s = catalog().take(n).filter(p);
    if n == 0 {
        assert(catalog().take(0) =~= Seq::<Feature>::empty());
        assert forall|f: Feature| !s.contains(f) by {
            lemma_feature_at_own_index(f);
        }
    } else {
        lemma_active_prefix(features, n - 1);
        let t = catalog().take(n - 1).filter(p);
        assert(catalog().take(n).drop_last() =~= catalog().take(n - 1));
        lemma_catalog_positions(n - 1);
        let g = feature_at((n - 1) as u8);
        assert(catalog().take(n).last() == g);
        assert forall|f: Feature| s.contains(f) <==> (f.index() < n && bit_set(features, f.index())) by {
            lemma_feature_at_own_index(f);
            if f.index() == n - 1 {
                assert(f == g);
            }
            if p(g) {
                assert(s == t.push(g));
                if t.contains(f) {
                    let j = choose|j: int| 0 <= j < t.len() && t[j] == f;
                    assert(s[j] == f);
                }
                if f == g {
                    assert(s[t.len() as int] == f);
                }
            } else {
                assert(s == t);
            }
        }
        if p(g) {
            assert(s == t.push(g));
            assert(!t.contains(g)) by {
                if t.contains(g) {
                    let j = choose|j: int| 0 <= j < t.len() && t[j] == g;
                    assert(t[j].index() < n - 1);
                }
            }
        } else {
            assert(s == t);
        }
    }
}

/// The features reported for a flag space are pairwise distinct, and so are
/// their names; their bits are exactly the bits set in it, and so there are
/// as many of them as set bits.
pub proof fn lemma_active_features_count(features: [u32; 2])
    ensures
        active_features(features).no_duplicates(),
        forall|i: int, j: int|
            0 <= i < active_features(features).len() && 0 <= j < active_features(features).len()
                && i != j ==> (#[trigger] active_features(features)[i]).spec_name() != (
            #[trigger] active_features(features)[j]).spec_name(),
        active_features(features).map_values(|f: Feature| f.index()).to_set() == set_bits(features),
        active_features(features).len() == set_bits(features).len(),
{
    let a = active_features(features);
    lemma_active_prefix(features, 64);
    assert(catalog().take(64) =~= catalog());
    let idx = a.map_values(|f: Feature| f.index());
    assert forall|i: int, j: int| 0 <= i < idx.len() && 0 <= j < idx.len() && i != j implies idx[i] != idx[j] by {
        lemma_feature_at_own_index(a[i]);
        lemma_feature_at_own_index(a[j]);
    }
    assert forall|x: int| idx.to_set().contains(x) <==> set_bits(features).contains(x) by {
        if set_bits(features).contains(x) {
            lemma_catalog_positions(x);
            let f = feature_at(x as u8);
            assert(a.contains(f));
            let j = choose|j: int| 0 <= j < a.len() && a[j] == f;
            assert(idx[j] == x);
        }
        if idx.to_set().contains(x) {
            let j = choose|j: int| 0 <= j < idx.len() && idx[j] == x;
            assert(a.contains(a[j]));
            lemma_feature_at_own_index(a[j]);
        }
    }
    assert(idx.to_set() =~= set_bits(features));
    idx.unique_seq_to_set();
    assert forall|i: int, j: int| 0 <= i < a.len() && 0 <= j < a.len() && i != j implies (
    #[trigger] a[i]).spec_name() != (#[trigger] a[j]).spec_name() by {
        if a[i].spec_name() == a[j].spec_name() {
            lemma_names_distinct(a[i], a[j]);
        }
    }
}

/// Distinct features have distinct names.
pub proof fn lemma_names_distinct(f: Feature, g: Feature)
    requires
        f.spec_name() == g.spec_name(),
    ensures
        f == g,
{
}

} // verus!
