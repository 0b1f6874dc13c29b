use cpuinfo::{
    brand_string, enabled_features, enumerate_names, frequencies, get_family_color, has_feature,
    trim_trailing_nuls, vendor, CpuidLeaf, Family, Feature, Info,
};

fn leaf(eax: u32, ebx: u32, ecx: u32, edx: u32) -> CpuidLeaf {
    CpuidLeaf { eax, ebx, ecx, edx }
}

fn mask_with(bits: &[usize]) -> [u32; 2] {
    let mut m = [0u32; 2];
    for &b in bits {
        m[b / 32] |= 1 << (b % 32);
    }
    m
}

#[test]
fn single_bit_is_isolated() {
    for i in 0..64usize {
        let m = mask_with(&[i]);
        for j in 0..64usize {
            assert_eq!(has_feature(&m, j), i == j, "bit {} tested against {}", i, j);
        }
        let f = Feature::from_bit(i as u8);
        assert_eq!(f.bit() as usize, i);
        assert!(has_feature(&m, f.bit() as usize));
    }
}

#[test]
fn has_feature_gives_same_answer_twice() {
    let m = [0x1234_5678u32, 0x9abc_def0u32];
    for i in 0..64usize {
        assert_eq!(has_feature(&m, i), has_feature(&m, i));
    }
    assert_eq!(m, [0x1234_5678u32, 0x9abc_def0u32]);
}

#[test]
fn has_feature_word_selection() {
    let m = [0x8000_0001u32, 0x0000_0002u32];
    assert!(has_feature(&m, 0));
    assert!(has_feature(&m, 31));
    assert!(!has_feature(&m, 32));
    assert!(has_feature(&m, 33));
    assert!(!has_feature(&m, 63));
}

#[test]
fn names_follow_catalog_order() {
    let a = enumerate_names(&mask_with(&[55, 0, 33, 25]));
    let b = enumerate_names(&mask_with(&[25, 33, 0, 55]));
    assert_eq!(a, vec!["FPU", "SSE", "PCLMULQDQ", "POPCNT"]);
    assert_eq!(a, b);
}

#[test]
fn no_bits_no_names() {
    assert!(enumerate_names(&[0, 0]).is_empty());
    assert!(enabled_features(&[0, 0]).is_empty());
}

#[test]
fn all_bits_all_names() {
    let names = enumerate_names(&[u32::MAX, u32::MAX]);
    assert_eq!(names.len(), 64);
    assert_eq!(names[0], "FPU");
    assert_eq!(names[10], "MTRRRESERVED");
    assert_eq!(names[31], "PBE");
    assert_eq!(names[32], "SSE3");
    assert_eq!(names[36], "DSCPL");
    assert_eq!(names[53], "X2APIC");
    assert_eq!(names[57], "AESNI");
    assert_eq!(names[63], "HYPERVISOR");
    let features = enabled_features(&[u32::MAX, u32::MAX]);
    for (i, f) in features.iter().enumerate() {
        assert_eq!(f.bit() as usize, i);
        assert_eq!(f.name(), names[i]);
    }
}

#[test]
fn catalog_entries() {
    assert_eq!(Feature::from_bit(0), Feature::Fpu);
    assert_eq!(Feature::from_bit(25), Feature::Sse);
    assert_eq!(Feature::from_bit(28), Feature::Htt);
    assert_eq!(Feature::from_bit(51), Feature::Sse41);
    assert_eq!(Feature::from_bit(60), Feature::Avx);
    assert_eq!(Feature::Rdrand.bit(), 62);
    assert_eq!(Feature::TscDeadline.name(), "TSCDEADLINE");
}

#[test]
fn signature_fields_do_not_overlap() {
    let eax: u32 = 0xA | (0x5 << 4) | (0x3 << 8) | (0x1 << 12) | (0x7 << 16) | (0x2A << 20);
    let info = Info::decode(&leaf(eax, 0, 0x1111, 0x2222));
    assert_eq!(info.stepping, 0xA);
    assert_eq!(info.model, 0x5);
    assert_eq!(info.family_id, 0x3);
    assert_eq!(info.processor_type, 0x1);
    assert_eq!(info.reserved1, 0);
    assert_eq!(info.extended_model_id, 0x7);
    assert_eq!(info.extended_family_id, 0x2A);
    assert_eq!(info.reserved2, 0);
    assert_eq!(info.features, [0x2222, 0x1111]);
}

#[test]
fn signature_reserved_bits() {
    let info = Info::decode(&leaf(0xF000_C000, 0, 0, 0));
    assert_eq!(info.reserved1, 3);
    assert_eq!(info.reserved2, 0xF);
    assert_eq!(info.stepping, 0);
    assert_eq!(info.processor_type, 0);
    assert_eq!(info.extended_family_id, 0);
}

#[test]
fn signature_all_bits() {
    let info = Info::decode(&leaf(u32::MAX, 0, 0, 0));
    assert_eq!(info.stepping, 0xF);
    assert_eq!(info.model, 0xF);
    assert_eq!(info.family_id, 0xF);
    assert_eq!(info.processor_type, 0x3);
    assert_eq!(info.reserved1, 0x3);
    assert_eq!(info.extended_model_id, 0xF);
    assert_eq!(info.extended_family_id, 0xFF);
    assert_eq!(info.reserved2, 0xF);
}

#[test]
fn vendor_tag_intel() {
    let f = Family::detect(&leaf(0x16, 0x756e6547, 0x6c65746e, 0x49656e69));
    assert_eq!(f, Family::Intel(0x16));
    assert_eq!(f.max_lvl(), 0x16);
}

#[test]
fn vendor_tag_amd() {
    let f = Family::detect(&leaf(0x10, 0x68747541, 0x444d4163, 0x69746e65));
    assert_eq!(f, Family::Amd(0x10));
    assert_eq!(f.max_lvl(), 0x10);
}

#[test]
fn vendor_tag_unknown() {
    let f = Family::detect(&leaf(0x20, 0x756e6547, 0x444d4163, 0x49656e69));
    assert_eq!(f, Family::Unknown);
    assert_eq!(f.max_lvl(), 0);
    assert_eq!(Family::detect(&leaf(0, 0, 0, 0)), Family::Unknown);
}

#[test]
fn vendor_tag_saturates_max_leaf() {
    let f = Family::detect(&leaf(0x0116, 0x756e6547, 0x6c65746e, 0x49656e69));
    assert_eq!(f, Family::Intel(0xFF));
    assert_eq!(f.max_lvl(), 0xFF);
    let g = Family::detect(&leaf(0x100, 0x68747541, 0x444d4163, 0x69746e65));
    assert_eq!(g.max_lvl(), 0xFF);
    assert!(frequencies(g.max_lvl(), |_l: u32| leaf(1, 2, 3, 4)).is_some());
    let h = Family::detect(&leaf(0xFF, 0x756e6547, 0x6c65746e, 0x49656e69));
    assert_eq!(h.max_lvl(), 0xFF);
}

#[test]
fn family_colors() {
    assert_eq!(get_family_color(&Family::Unknown), (0, 0, 0));
    assert_eq!(get_family_color(&Family::Intel(3)), (0, 113, 197));
    assert_eq!(get_family_color(&Family::Amd(3)), (237, 28, 36));
}

fn brand_leaves(text: &str) -> [CpuidLeaf; 3] {
    let mut bytes = [0u8; 48];
    bytes[..text.len()].copy_from_slice(text.as_bytes());
    let word = |i: usize| u32::from_le_bytes([bytes[i], bytes[i + 1], bytes[i + 2], bytes[i + 3]]);
    let mut out = [leaf(0, 0, 0, 0); 3];
    for k in 0..3 {
        let b = 16 * k;
        out[k] = leaf(word(b), word(b + 4), word(b + 8), word(b + 12));
    }
    out
}

#[test]
fn brand_string_byte_order() {
    let l = leaf(0x6463_6261, 0x6867_6665, 0x6c6b_6a69, 0x706f_6e6d);
    let z = leaf(0, 0, 0, 0);
    let s = brand_string(&l, &z, &z);
    assert_eq!(s.len(), 48);
    assert_eq!(&s[..16], b"abcdefghijklmnop");
    assert!(s[16..].iter().all(|&b| b == 0));
}

#[test]
fn vendor_reads_brand_leaves() {
    let text = "12th Gen Intel(R) Core(TM) i5-12400F";
    let leaves = brand_leaves(text);
    let r = vendor(|l: u32| match l {
        0x8000_0000 => leaf(0x8000_0008, 0, 0, 0),
        0x8000_0002 => leaves[0],
        0x8000_0003 => leaves[1],
        0x8000_0004 => leaves[2],
        _ => panic!("unexpected leaf {:#x}", l),
    });
    let bytes = r.expect("brand string");
    assert_eq!(bytes.len(), 48);
    assert_eq!(&bytes[..text.len()], text.as_bytes());
    assert_eq!(trim_trailing_nuls(&bytes), text.as_bytes().to_vec());
}

#[test]
fn vendor_at_threshold_is_present() {
    let r = vendor(|l: u32| if l == 0x8000_0000 { leaf(0x8000_0004, 0, 0, 0) } else { leaf(l, 0, 0, 0) });
    let bytes = r.expect("brand string");
    assert_eq!(&bytes[..4], &0x8000_0002u32.to_le_bytes());
    assert_eq!(&bytes[16..20], &0x8000_0003u32.to_le_bytes());
    assert_eq!(&bytes[32..36], &0x8000_0004u32.to_le_bytes());
}

#[test]
fn vendor_absent_queries_nothing_else() {
    let r = vendor(|l: u32| {
        assert_eq!(l, 0x8000_0000, "no brand leaf may be queried");
        leaf(0x8000_0002, 0, 0, 0)
    });
    assert!(r.is_none());
}

#[test]
fn trim_trailing_nuls_cases() {
    assert_eq!(trim_trailing_nuls(&vec![b'a', b'b', 0, 0]), vec![b'a', b'b']);
    assert_eq!(trim_trailing_nuls(&vec![0, b'a']), vec![0, b'a']);
    assert_eq!(trim_trailing_nuls(&vec![0, 0, 0]), Vec::<u8>::new());
    assert_eq!(trim_trailing_nuls(&Vec::new()), Vec::<u8>::new());
}

#[test]
fn frequencies_below_leaf_absent() {
    let r = frequencies(0x15, |_l: u32| -> CpuidLeaf { panic!("leaf 0x16 must not be queried") });
    assert!(r.is_none());
    assert!(frequencies(0, |_l: u32| leaf(1, 2, 3, 4)).is_none());
}

#[test]
fn frequencies_at_leaf_present() {
    let r = frequencies(0x16, |l: u32| {
        assert_eq!(l, 0x16);
        leaf(2500, 4200, 100, 7)
    });
    assert_eq!(r, Some([2500, 4200, 100]));
}

#[test]
fn frequencies_zero_is_not_absent() {
    let r = frequencies(0x20, |_l: u32| leaf(0, 0, 0, 0));
    assert_eq!(r, Some([0, 0, 0]));
}

#[test]
fn name_count_matches_set_bits() {
    let masks = [[0u32, 0u32], [0x8000_0001, 0x0000_0100], [0x1234_5678, 0x9abc_def0], [u32::MAX, 0], [0, u32::MAX]];
    for m in masks.iter() {
        let names = enumerate_names(m);
        assert_eq!(names.len() as u32, m[0].count_ones() + m[1].count_ones());
        for (i, a) in names.iter().enumerate() {
            for b in names.iter().skip(i + 1) {
                assert_ne!(a, b);
            }
        }
        for i in 0..64u8 {
            let f = Feature::from_bit(i);
            assert_eq!(names.contains(&f.name()), has_feature(m, i as usize));
        }
    }
}

#[test]
fn one_flipped_bit_changes_one_field() {
    let fields = |i: &Info| {
        [
            i.stepping,
            i.model,
            i.family_id,
            i.processor_type,
            i.reserved1,
            i.extended_model_id,
            i.extended_family_id,
            i.reserved2,
        ]
    };
    for &e in [0u32, 0x0009_06A3, u32::MAX].iter() {
        let a = fields(&Info::decode(&leaf(e, 0, 0, 0)));
        for k in 0..32u32 {
            let b = fields(&Info::decode(&leaf(e ^ (1 << k), 0, 0, 0)));
            let changed: Vec<usize> = (0..8).filter(|&j| a[j] != b[j]).collect();
            let expected = match k {
                0..=3 => 0,
                4..=7 => 1,
                8..=11 => 2,
                12..=13 => 3,
                14..=15 => 4,
                16..=19 => 5,
                20..=27 => 6,
                _ => 7,
            };
            assert_eq!(changed, vec![expected], "bit {}", k);
        }
    }
}

#[test]
fn max_leaf_decides_frequency_leaf() {
    for &eax in [0x15u32, 0x16, 0x20, 0xFF, 0x100, 0x1_0016].iter() {
        let f = Family::detect(&leaf(eax, 0x756e6547, 0x6c65746e, 0x49656e69));
        assert_eq!(f.max_lvl() >= 0x16, eax >= 0x16);
        assert_eq!(frequencies(f.max_lvl(), |_l: u32| leaf(2500, 4200, 100, 0)).is_some(), eax >= 0x16);
    }
}
