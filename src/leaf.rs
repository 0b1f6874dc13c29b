use vstd::prelude::*;

verus! {

/// The four output registers of one CPUID query (sub-leaf 0).
#[derive(Clone, Copy, Debug, PartialEq, Eq, Structural)]
pub struct CpuidLeaf {
    pub eax: u32,
    pub ebx: u32,
    pub ecx: u32,
    pub edx: u32,
}

/// The bytes of `x`, least significant first.
pub open spec fn le_bytes(x: u32) -> Seq<u8> {
    seq![
        (x & 0xff) as u8,
        ((x >> 8u32) & 0xff) as u8,
        ((x >> 16u32) & 0xff) as u8,
        ((x >> 24u32) & 0xff) as u8,
    ]
}

/// The sixteen bytes of a leaf in register order EAX, EBX, ECX, EDX.
pub open spec fn leaf_bytes(l: CpuidLeaf) -> Seq<u8> {
    le_bytes(l.eax) + le_bytes(l.ebx) + le_bytes(l.ecx) + le_bytes(l.edx)
}

/// Appends the bytes of `x` to `out`, least significant first.
pub fn push_le_u32(out: &mut Vec<u8>, x: u32)
    ensures
        final(out)@ == old(out)@ + le_bytes(x),
{
    out.push((x & 0xff) as u8);
    out.push(((x >> 8u32) & 0xff) as u8);
    out.push(((x >> 16u32) & 0xff) as u8);
    out.push(((x >> 24u32) & 0xff) as u8);
    assert(out@ =~= old(out)@ + le_bytes(x));
}

/// Appends the sixteen bytes of `l` to `out`.
pub fn push_leaf(out: &mut Vec<u8>, l: &CpuidLeaf)
    ensures
        final(out)@ == old(out)@ + leaf_bytes(*l),
{
    push_le_u32(out, l.eax);
    push_le_u32(out, l.ebx);
    push_le_u32(out, l.ecx);
    push_le_u32(out, l.edx);
    assert(out@ =~= old(out)@ + leaf_bytes(*l));
}

} // verus!
