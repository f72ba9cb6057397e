//! Facts about the schema document itself.

use crate::span::SpannedScalar;
use vstd::prelude::*;

verus! {

/// Document-level metadata.
#[derive(Debug, Clone, PartialEq, Eq, Hash)]
pub struct Meta {
    /// The version requirement that the running tool has to satisfy.
    pub version: Option<SpannedScalar<String>>,
}

} // verus!
