use vstd::prelude::*;

verus! {

/// A duration as written in configuration: a count of milliseconds or of seconds.
#[derive(Clone, Copy, Debug, PartialEq, Eq)]
pub enum ConfigDuration {
    Milliseconds(u64),
    Seconds(u64),
}

impl ConfigDuration {
    /// The length of the duration in milliseconds.
    pub open spec fn spec_millis(&self) -> nat {
        match *self {
            ConfigDuration::Milliseconds(ms) => ms as nat,
            ConfigDuration::Seconds(s) => (s as nat) * 1000,
        }
    }

    /// The length of the duration in milliseconds (no overflow: the result is 128 bits wide).
    pub fn as_millis(&self) -> (r: u128)
        ensures
            r as nat == self.spec_millis(),
    {
        match *self {
            ConfigDuration::Milliseconds(ms) => ms as u128,
            ConfigDuration::Seconds(s) => {
                assert((s as u128) * 1000 <= u64::MAX as u128 * 1000) by (nonlinear_arith);
                (s as u128) * 1000
            },
        }
    }

    /// The absolute duration.
    pub fn to_duration(&self) -> std::time::Duration {
        match *self {
            ConfigDuration::Milliseconds(ms) => duration_from_millis(ms),
            ConfigDuration::Seconds(s) => duration_from_secs(s),
        }
    }
}

/// Relies on `std::time::Duration::from_millis`, which never panics.
#[verifier::external_body]
fn duration_from_millis(ms: u64) -> std::time::Duration {
    std::time::Duration::from_millis(ms)
}

/// Relies on `std::time::Duration::from_secs`, which never panics.
#[verifier::external_body]
fn duration_from_secs(s: u64) -> std::time::Duration {
    std::time::Duration::from_secs(s)
}

} // verus!
