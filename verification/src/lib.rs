use vstd::prelude::*;

pub mod envelope;
pub mod errors;
pub mod hexcode;
pub mod params;
pub mod pipeline;
pub mod redaction;
pub mod strutil;
pub mod urlparts;
pub mod validate;

verus! {

/// Version string of the notarization protocol this library targets.
pub const TLSN_VERSION: &'static str = "0.1.0-alpha.9";

/// The same version string with the conventional `v` prefix.
pub const TLSN_VERSION_WITH_V_PREFIX: &'static str = "v0.1.0-alpha.9";

} // verus!
