//! Repeat-penalty configuration and window selection.
//!
//! The penalty factor is a real number that only unverified numeric code can
//! apply; here it is carried as its IEEE-754 bit pattern, which is all the
//! verified logic needs: the factor equals `1.0` exactly when its bits equal
//! `ONE_BITS`, and in that case the transform is required to be a no-op.

use vstd::prelude::*;

verus! {

/// Bit pattern of the single-precision value `1.0`, the "no penalty" factor.
pub const ONE_BITS: u32 = 0x3F80_0000;

/// Repeat-penalty settings for one generation session.
#[derive(Clone, Copy, PartialEq, Eq, Structural)]
pub struct PenaltyConfig {
    /// IEEE-754 bits of the penalty factor.
    pub factor_bits: u32,
    /// How many of the most recent history tokens are penalized.
    pub last_n: usize,
}

impl PenaltyConfig {
    /// The transform is disabled exactly when the factor is `1.0`.
    pub open spec fn spec_disabled(self) -> bool {
        self.factor_bits == ONE_BITS
    }

    /// Whether the penalty factor is `1.0`, i.e. the transform must be a no-op.
    pub fn disabled(&self) -> (r: bool)
        ensures
            r == self.spec_disabled(),
    {
        self.factor_bits == ONE_BITS
    }
}

/// First index of the penalty window: the last `min(last_n, len)` tokens.
pub open spec fn spec_window_start(last_n: nat, len: nat) -> nat {
    if last_n <= len {
        (len - last_n) as nat
    } else {
        0
    }
}

/// Start of the slice of history that the repeat penalty looks back over:
/// the final `last_n` tokens, or the whole history when it is shorter.
pub fn window_start(last_n: usize, len: usize) -> (r: usize)
    ensures
        r == spec_window_start(last_n as nat, len as nat),
        r <= len,
        len - r <= last_n,
{
    if last_n <= len {
        len - last_n
    } else {
        0
    }
}

/// The most recent `cfg.last_n` tokens of `history` (all of it if shorter),
/// in order: the slice the repeat penalty is applied over.
pub fn penalty_window(cfg: &PenaltyConfig, history: &Vec<u32>) -> (r: Vec<u32>)
    ensures
        r@ == history@.skip(spec_window_start(cfg.last_n as nat, history@.len()) as int),
        r@.len() <= cfg.last_n,
{
    let start: usize = window_start(cfg.last_n, history.len());
    let mut out: Vec<u32> = Vec::new();
    let mut i: usize = start;
    while i < history.len()
        invariant
            start <= i <= history@.len(),
            out@ == history@.subrange(start as int, i as int),
        decreases history@.len() - i,
    {
        out.push(history[i]);
        assert(out@ == history@.subrange(start as int, i + 1 as int));
        i = i + 1;
    }
    assert(out@ == history@.skip(start as int));
    out
}

} // verus!
