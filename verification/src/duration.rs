//! A span of non-negative time, stored as whole seconds plus a sub-second
//! remainder in nanoseconds.

use vstd::prelude::*;

verus! {

/// Number of nanoseconds in one second.
pub const NANOS_PER_SEC: u32 = 1_000_000_000;

/// A non-negative span of time with nanosecond resolution.
#[derive(Clone, Copy, Debug, PartialEq, Eq, Structural)]
pub struct Duration {
    secs: u64,
    nanos: u32,
}

impl Duration {
    /// The sub-second part always stays below one full second.
    #[verifier::type_invariant]
    spec fn inv(self) -> bool {
        self.nanos < NANOS_PER_SEC
    }

    /// Total length in nanoseconds.
    pub closed spec fn as_nanos_spec(self) -> int {
        self.secs * (NANOS_PER_SEC as int) + self.nanos
    }

    /// A duration of exactly `secs` whole seconds.
    pub fn from_secs(secs: u64) -> (d: Duration)
        ensures
            d.as_nanos_spec() == secs * (NANOS_PER_SEC as int),
    {
        Duration { secs, nanos: 0 }
    }

    /// Exact division by a positive count, truncated to nanosecond
    /// resolution.
    pub fn div_by(self, rhs: u32) -> (d: Duration)
        requires
            rhs >= 1,
        ensures
            d.as_nanos_spec() == self.as_nanos_spec() / (rhs as int),
    {
        proof {
            use_type_invariant(&self);
            vstd::arithmetic::mul::lemma_mul_inequality(
                self.secs as int,
                u64::MAX as int,
                NANOS_PER_SEC as int,
            );
        }
        let total: u128 = (self.secs as u128) * (NANOS_PER_SEC as u128) + (self.nanos as u128);
        let q: u128 = total / (rhs as u128);
        proof {
            vstd::arithmetic::div_mod::lemma_div_nonincreasing(total as int, rhs as int);
            vstd::arithmetic::div_mod::lemma_multiply_divide_lt(
                q as int,
                NANOS_PER_SEC as int,
                u64::MAX + 1,
            );
            vstd::arithmetic::div_mod::lemma_fundamental_div_mod(q as int, NANOS_PER_SEC as int);
        }
        let secs: u64 = (q / (NANOS_PER_SEC as u128)) as u64;
        let nanos: u32 = (q % (NANOS_PER_SEC as u128)) as u32;
        Duration { secs, nanos }
    }

    /// The whole-second part of this duration.
    pub fn as_secs(&self) -> (r: u64)
        ensures
            r == self.as_nanos_spec() / (NANOS_PER_SEC as int),
    {
        proof {
            use_type_invariant(self);
            vstd::arithmetic::div_mod::lemma_fundamental_div_mod_converse(
                self.as_nanos_spec(),
                NANOS_PER_SEC as int,
                self.secs as int,
                self.nanos as int,
            );
        }
        self.secs
    }

    /// The sub-second part of this duration, in nanoseconds.
    pub fn subsec_nanos(&self) -> (r: u32)
        ensures
            r == self.as_nanos_spec() % (NANOS_PER_SEC as int),
    {
        proof {
            use_type_invariant(self);
            vstd::arithmetic::div_mod::lemma_fundamental_div_mod_converse(
                self.as_nanos_spec(),
                NANOS_PER_SEC as int,
                self.secs as int,
                self.nanos as int,
            );
        }
        self.nanos
    }
}

} // verus!
