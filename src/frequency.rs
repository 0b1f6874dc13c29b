use vstd::prelude::*;
use crate::leaf::CpuidLeaf;

verus! {

/// The leaf that reports the base, maximum and bus frequencies.
pub const FREQUENCY_LEAF: u32 = 0x16;

/// Reads the base, maximum and bus frequencies, in MHz, through `query`,
/// which performs one CPUID query for the leaf it is given. `max_lvl` is the
/// highest standard leaf the processor supports; below leaf 0x16 the result
/// is `None` and nothing is queried.
pub fn frequencies<F: FnOnce(u32) -> CpuidLeaf>(max_lvl: u8, query: F) -> (r: Option<[u32; 3]>)
    requires
        max_lvl >= FREQUENCY_LEAF ==> query.requires((FREQUENCY_LEAF,)),
    ensures
        r is None <==> max_lvl < FREQUENCY_LEAF,
        r matches Some(t) ==> exists|l: CpuidLeaf| #[trigger]
            query.ensures((FREQUENCY_LEAF,), l) && t@ == seq![l.eax, l.ebx, l.ecx],
{
    if (max_lvl as u32) < FREQUENCY_LEAF {
        return None;
    }
    let l = query(FREQUENCY_LEAF);
    let t: [u32; 3] = [l.eax, l.ebx, l.ecx];
    assert(t@ =~= seq![l.eax, l.ebx, l.ecx]);
    Some(t)
}

} // verus!
