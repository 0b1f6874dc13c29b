use vstd::prelude::*;
use crate::leaf::CpuidLeaf;

verus! {

pub const STEPPING_SHIFT: u32 = 0;
pub const STEPPING_MASK: u32 = 0xF;
pub const MODEL_SHIFT: u32 = 4;
pub const MODEL_MASK: u32 = 0xF;
pub const FAMILY_SHIFT: u32 = 8;
pub const FAMILY_MASK: u32 = 0xF;
pub const PROCESSOR_TYPE_SHIFT: u32 = 12;
pub const PROCESSOR_TYPE_MASK: u32 = 0x3;
pub const RESERVED1_SHIFT: u32 = 14;
pub const RESERVED1_MASK: u32 = 0x3;
pub const EXTENDED_MODEL_SHIFT: u32 = 16;
pub const EXTENDED_MODEL_MASK: u32 = 0xF;
pub const EXTENDED_FAMILY_SHIFT: u32 = 20;
pub const EXTENDED_FAMILY_MASK: u32 = 0xFF;
pub const RESERVED2_SHIFT: u32 = 28;
pub const RESERVED2_MASK: u32 = 0xF;

/// The processor signature and feature flags of leaf 1.
#[derive(Clone, Copy, Debug)]
pub struct Info {
    pub stepping: u8,
    pub model: u8,
    pub family_id: u8,
    pub processor_type: u8,
    pub reserved1: u8,
    pub extended_model_id: u8,
    pub extended_family_id: u8,
    pub reserved2: u8,
    /// EDX then ECX of leaf 1: feature bits 0-31, then 32-63.
    pub features: [u32; 2],
}

/// The bits of `eax` selected by `mask` once shifted right by `shift`.
pub open spec fn field(eax: u32, shift: u32, mask: u32) -> u8 {
    ((eax >> shift) & mask) as u8
}

/// The bits of `eax` at `shift`, of the width that `mask` covers.
fn extract(eax: u32, shift: u32, mask: u32) -> (r: u8)
    requires
        shift < 32,
        mask <= 0xFF,
    ensures
        r == field(eax, shift, mask),
{
    ((eax >> shift) & mask) as u8
}

/// Packs the signature fields back into one register value.
pub open spec fn pack_signature(
    stepping: u32,
    model: u32,
    family_id: u32,
    processor_type: u32,
    reserved1: u32,
    extended_model_id: u32,
    extended_family_id: u32,
    reserved2: u32,
) -> u32 {
    stepping | (model << 4u32) | (family_id << 8u32) | (processor_type << 12u32) | (reserved1
        << 14u32) | (extended_model_id << 16u32) | (extended_family_id << 20u32) | (reserved2
        << 28u32)
}

impl Info {
    /// The signature decoded from leaf 1's EAX, with EDX and ECX as feature words.
    pub open spec fn spec_decode(l: CpuidLeaf) -> Info {
        Info {
            stepping: field(l.eax, STEPPING_SHIFT, STEPPING_MASK),
            model: field(l.eax, MODEL_SHIFT, MODEL_MASK),
            family_id: field(l.eax, FAMILY_SHIFT, FAMILY_MASK),
            processor_type: field(l.eax, PROCESSOR_TYPE_SHIFT, PROCESSOR_TYPE_MASK),
            reserved1: field(l.eax, RESERVED1_SHIFT, RESERVED1_MASK),
            extended_model_id: field(l.eax, EXTENDED_MODEL_SHIFT, EXTENDED_MODEL_MASK),
            extended_family_id: field(l.eax, EXTENDED_FAMILY_SHIFT, EXTENDED_FAMILY_MASK),
            reserved2: field(l.eax, RESERVED2_SHIFT, RESERVED2_MASK),
            features: [l.edx, l.ecx],
        }
    }

    /// Decodes the registers of leaf 1.
    pub fn decode(l: &CpuidLeaf) -> (r: Info)
        ensures
            r == Info::spec_decode(*l),
    {
        Info {
            stepping: extract(l.eax, STEPPING_SHIFT, STEPPING_MASK),
            model: extract(l.eax, MODEL_SHIFT, MODEL_MASK),
            family_id: extract(l.eax, FAMILY_SHIFT, FAMILY_MASK),
            processor_type: extract(l.eax, PROCESSOR_TYPE_SHIFT, PROCESSOR_TYPE_MASK),
            reserved1: extract(l.eax, RESERVED1_SHIFT, RESERVED1_MASK),
            extended_model_id: extract(l.eax, EXTENDED_MODEL_SHIFT, EXTENDED_MODEL_MASK),
            extended_family_id: extract(l.eax, EXTENDED_FAMILY_SHIFT, EXTENDED_FAMILY_MASK),
            reserved2: extract(l.eax, RESERVED2_SHIFT, RESERVED2_MASK),
            features: [l.edx, l.ecx],
        }
    }
}

/// A field of at most eight bits keeps its value as a `u8`.
proof fn lemma_field_value(x: u32, shift: u32, mask: u32)
    requires
        mask <= 0xFF,
    ensures
        field(x, shift, mask) as u32 == (x >> shift) & mask,
{
    assert((x >> shift) & mask <= mask) by (bit_vector);
}

/// Applies `lemma_field_value` to every field of the signature.
proof fn lemma_decoded_fields(x: u32)
    ensures
        ({
            let info = Info::spec_decode(CpuidLeaf { eax: x, ebx: 0, ecx: 0, edx: 0 });
            &&& info.stepping as u32 == (x >> 0u32) & 0xF
            &&& info.model as u32 == (x >> 4u32) & 0xF
            &&& info.family_id as u32 == (x >> 8u32) & 0xF
            &&& info.processor_type as u32 == (x >> 12u32) & 0x3
            &&& info.reserved1 as u32 == (x >> 14u32) & 0x3
            &&& info.extended_model_id as u32 == (x >> 16u32) & 0xF
            &&& info.extended_family_id as u32 == (x >> 20u32) & 0xFF
            &&& info.reserved2 as u32 == (x >> 28u32) & 0xF
        }),
{
    lemma_field_value(x, STEPPING_SHIFT, STEPPING_MASK);
    lemma_field_value(x, MODEL_SHIFT, MODEL_MASK);
    lemma_field_value(x, FAMILY_SHIFT, FAMILY_MASK);
    lemma_field_value(x, PROCESSOR_TYPE_SHIFT, PROCESSOR_TYPE_MASK);
    lemma_field_value(x, RESERVED1_SHIFT, RESERVED1_MASK);
    lemma_field_value(x, EXTENDED_MODEL_SHIFT, EXTENDED_MODEL_MASK);
    lemma_field_value(x, EXTENDED_FAMILY_SHIFT, EXTENDED_FAMILY_MASK);
    lemma_field_value(x, RESERVED2_SHIFT, RESERVED2_MASK);
}

/// Each field written into a register value by `pack_signature`, within its
/// width, is decoded back unchanged: the fields do not overlap.
pub proof fn lemma_signature_fields_recovered(
    stepping: u32,
    model: u32,
    family_id: u32,
    processor_type: u32,
    reserved1: u32,
    extended_model_id: u32,
    extended_family_id: u32,
    reserved2: u32,
    edx: u32,
    ecx: u32,
)
    requires
        stepping < 16,
        model < 16,
        family_id < 16,
        processor_type < 4,
        reserved1 < 4,
        extended_model_id < 16,
        extended_family_id < 256,
        reserved2 < 16,
    ensures
        ({
            let eax = pack_signature(
                stepping,
                model,
                family_id,
                processor_type,
                reserved1,
                extended_model_id,
                extended_family_id,
                reserved2,
            );
            let info = Info::spec_decode(CpuidLeaf { eax, ebx: 0, ecx, edx });
            &&& info.stepping == stepping
            &&& info.model == model
            &&& info.family_id == family_id
            &&& info.processor_type == processor_type
            &&& info.reserved1 == reserved1
            &&& info.extended_model_id == extended_model_id
            &&& info.extended_family_id == extended_family_id
            &&& info.reserved2 == reserved2
            &&& info.features == [edx, ecx]
        }),
{
    let eax = pack_signature(
        stepping,
        model,
        family_id,
        processor_type,
        reserved1,
        extended_model_id,
        extended_family_id,
        reserved2,
    );
    lemma_decoded_fields(eax);
    assert((eax >> 0u32) & 0xF == stepping && (eax >> 4u32) & 0xF == model && (eax >> 8u32)
        & 0xF == family_id && (eax >> 12u32) & 0x3 == processor_type && (eax >> 14u32) & 0x3
        == reserved1 && (eax >> 16u32) & 0xF == extended_model_id && (eax >> 20u32) & 0xFF
        == extended_family_id && (eax >> 28u32) & 0xF == reserved2) by (bit_vector)
        requires
            eax == stepping | (model << 4u32) | (family_id << 8u32) | (processor_type << 12u32)
                | (reserved1 << 14u32) | (extended_model_id << 16u32) | (extended_family_id
                << 20u32) | (reserved2 << 28u32),
            stepping < 16,
            model < 16,
            family_id < 16,
            processor_type < 4,
            reserved1 < 4,
            extended_model_id < 16,
            extended_family_id < 256,
            reserved2 < 16,
    ;
}

/// Decoding loses no bit: packing the decoded fields gives the register back.
pub proof fn lemma_signature_lossless(l: CpuidLeaf)
    ensures
        ({
            let info = Info::spec_decode(l);
            pack_signature(
                info.stepping as u32,
                info.model as u32,
                info.family_id as u32,
                info.processor_type as u32,
                info.reserved1 as u32,
                info.extended_model_id as u32,
                info.extended_family_id as u32,
                info.reserved2 as u32,
            ) == l.eax
        }),
{
    let x = l.eax;
    lemma_decoded_fields(x);
    assert(((x >> 0u32) & 0xF) | (((x >> 4u32) & 0xF) << 4u32) | (((x >> 8u32) & 0xF) << 8u32)
        | (((x >> 12u32) & 0x3) << 12u32) | (((x >> 14u32) & 0x3) << 14u32) | (((x >> 16u32)
        & 0xF) << 16u32) | (((x >> 20u32) & 0xFF) << 20u32) | (((x >> 28u32) & 0xF) << 28u32)
        == x) by (bit_vector);
}

/// Flipping one bit of EAX changes exactly one field of the signature: the
/// field whose bit range holds that bit. The ranges below cover bits 0 to 31
/// once each.
pub proof fn lemma_one_bit_one_field(x: u32, k: u32)
    requires
        k < 32,
    ensures
        ({
            let a = Info::spec_decode(CpuidLeaf { eax: x, ebx: 0, ecx: 0, edx: 0 });
            let b = Info::spec_decode(CpuidLeaf { eax: x ^ (1u32 << k), ebx: 0, ecx: 0, edx: 0 });
            &&& (a.stepping != b.stepping) == (k < 4)
            &&& (a.model != b.model) == (4 <= k < 8)
            &&& (a.family_id != b.family_id) == (8 <= k < 12)
            &&& (a.processor_type != b.processor_type) == (12 <= k < 14)
            &&& (a.reserved1 != b.reserved1) == (14 <= k < 16)
            &&& (a.extended_model_id != b.extended_model_id) == (16 <= k < 20)
            &&& (a.extended_family_id != b.extended_family_id) == (20 <= k < 28)
            &&& (a.reserved2 != b.reserved2) == (28 <= k)
        }),
{
    let y = x ^ (1u32 << k);
    lemma_decoded_fields(x);
    lemma_decoded_fields(y);
    assert(((x >> 0u32) & 0xF != (y >> 0u32) & 0xF) == (k < 4)) by (bit_vector)
        requires y == x ^ (1u32 << k), k < 32;
    assert(((x >> 4u32) & 0xF != (y >> 4u32) & 0xF) == (4 <= k && k < 8)) by (bit_vector)
        requires y == x ^ (1u32 << k), k < 32;
    assert(((x >> 8u32) & 0xF != (y >> 8u32) & 0xF) == (8 <= k && k < 12)) by (bit_vector)
        requires y == x ^ (1u32 << k), k < 32;
    assert(((x >> 12u32) & 0x3 != (y >> 12u32) & 0x3) == (12 <= k && k < 14)) by (bit_vector)
        requires y == x ^ (1u32 << k), k < 32;
    assert(((x >> 14u32) & 0x3 != (y >> 14u32) & 0x3) == (14 <= k && k < 16)) by (bit_vector)
        requires y == x ^ (1u32 << k), k < 32;
    assert(((x >> 16u32) & 0xF != (y >> 16u32) & 0xF) == (16 <= k && k < 20)) by (bit_vector)
        requires y == x ^ (1u32 << k), k < 32;
    assert(((x >> 20u32) & 0xFF != (y >> 20u32) & 0xFF) == (20 <= k && k < 28)) by (bit_vector)
        requires y == x ^ (1u32 << k), k < 32;
    assert(((x >> 28u32) & 0xF != (y >> 28u32) & 0xF) == (28 <= k)) by (bit_vector)
        requires y == x ^ (1u32 << k), k < 32;
}

} // verus!
