//! Mortality configuration for signed transactions: the era window a
//! transaction stays valid in, and the tip it offers.  The signing machinery
//! itself lives with the transport layer; these are the plain values it is
//! configured with.

use vstd::prelude::*;

verus! {

/// A mortal era: valid for `period` blocks, offset `phase`, anchored at the
/// block whose hash is `birth_hash`.
#[derive(Clone, Debug, PartialEq, Eq)]
pub struct EraInfo<H> {
    pub period: u64,
    pub phase: u64,
    pub birth_hash: H,
}

/// The signed-extra configuration: the tip to offer, and the era to sign
/// for (`None` signs an immortal transaction).
#[derive(Clone, Debug, PartialEq, Eq)]
pub struct ExtraConfig<H> {
    pub tip: u64,
    pub era: Option<EraInfo<H>>,
}

} // verus!
