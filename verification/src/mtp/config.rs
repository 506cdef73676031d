//! Session parameters.

use crate::float_bits::F32Bits;
use vstd::prelude::*;

verus! {

/// Parameters of a draft session.
///
/// `==` compares the counts and, as a number, the probability floor.
#[derive(Debug, Clone, Copy)]
pub struct MtpSessionConfig {
    /// Number of concurrent sequences (usually `1`).
    pub n_seq: u32,
    /// Maximum tokens drafted per call (`n_max` upstream).
    pub n_draft_max: i32,
    /// Minimum draft tokens to propose (`n_min` upstream, default `0`).
    pub n_min: i32,
    /// Greedy probability floor; drafts below this are dropped (`p_min`
    /// upstream, default zero).
    pub p_min: F32Bits,
}

impl PartialEq for MtpSessionConfig {
    fn eq(&self, other: &Self) -> (equal: bool) {
        self.n_seq == other.n_seq && self.n_draft_max == other.n_draft_max && self.n_min
            == other.n_min && self.p_min == other.p_min
    }
}

impl vstd::std_specs::cmp::PartialEqSpecImpl for MtpSessionConfig {
    open spec fn obeys_eq_spec() -> bool {
        true
    }

    open spec fn eq_spec(&self, other: &Self) -> bool {
        &&& self.n_seq == other.n_seq
        &&& self.n_draft_max == other.n_draft_max
        &&& self.n_min == other.n_min
        &&& self.p_min.same_number(other.p_min)
    }
}

impl MtpSessionConfig {
    /// Build config with upstream-aligned defaults for `n_min` and `p_min`,
    /// both zero.
    #[must_use]
    pub fn new(n_seq: u32, n_draft_max: i32) -> (config: Self)
        ensures
            config == (MtpSessionConfig { n_seq, n_draft_max, n_min: 0, p_min: F32Bits(0) }),
    {
        MtpSessionConfig { n_seq, n_draft_max, n_min: 0, p_min: F32Bits(0) }
    }

    /// Set minimum draft tokens (`n_min` upstream).
    #[must_use]
    pub fn with_n_min(self, n_min: i32) -> (config: Self)
        ensures
            config == (MtpSessionConfig { n_min, ..self }),
    {
        MtpSessionConfig { n_min, ..self }
    }

    /// Set draft probability floor (`p_min` upstream).
    ///
    /// Draft tokens whose greedy probability falls below this value are
    /// dropped.
    #[must_use]
    pub fn with_p_min(self, p_min: F32Bits) -> (config: Self)
        ensures
            config == (MtpSessionConfig { p_min, ..self }),
    {
        MtpSessionConfig { p_min, ..self }
    }
}

/// Two configurations are equal exactly when their counts are and their floors
/// are the same number.
pub proof fn law_config_equality(a: MtpSessionConfig, b: MtpSessionConfig)
    ensures
        vstd::std_specs::cmp::PartialEqSpec::eq_spec(&a, &b) <==> a.n_seq == b.n_seq
            && a.n_draft_max == b.n_draft_max && a.n_min == b.n_min
            && vstd::std_specs::cmp::PartialEqSpec::eq_spec(&a.p_min, &b.p_min),
{
}

} // verus!
