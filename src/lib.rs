//! Decoding of the processor identification data returned by the CPUID
//! instruction: the vendor tag, the processor signature, the brand string,
//! the feature flags and the frequency leaf.
//!
//! The instruction itself is issued by the caller; this library receives the
//! four registers of a leaf as a plain [`CpuidLeaf`] value.

pub mod leaf;
pub mod signature;
pub mod features;
pub mod vendor;
pub mod frequency;

pub use leaf::CpuidLeaf;
pub use signature::Info;
pub use features::{has_feature, enabled_features, enumerate_names, Feature};
pub use vendor::{vendor, brand_string, trim_trailing_nuls, Family, get_family_color};
pub use frequency::frequencies;
