use vstd::prelude::*;

verus! {

/// Token budget accounting for a response.
#[derive(Debug, Clone)]
pub struct BudgetReport {
    /// Approximate tokens used in this response.
    pub used: u32,
    /// Effective budget for this call.
    pub limit: u32,
    /// Server-enforced maximum.
    pub hard_cap: u32,
}

/// Default token budgets per detail tier.
#[derive(Debug, Clone, Copy)]
pub struct SnapshotBudgetDefaults;

impl SnapshotBudgetDefaults {
    pub const SUMMARY: u32 = 500;
    pub const STANDARD: u32 = 1500;
    pub const FULL: u32 = 3000;
    pub const HARD_CAP: u32 = 5000;
}

/// Tokens estimated for a JSON payload of `json_bytes` bytes: one token per
/// four bytes, truncated, then narrowed to 32 bits.
pub open spec fn spec_estimate_tokens(json_bytes: int) -> u32 {
    (json_bytes / 4) as u32
}

/// Estimate token count from JSON byte size.
/// Rough approximation: 1 token ≈ 4 bytes of JSON.
pub fn estimate_tokens(json_bytes: usize) -> (tokens: u32)
    ensures
        tokens == spec_estimate_tokens(json_bytes as int),
{
    (json_bytes / 4) as u32
}

/// The budget that applies: the request if there is one, else the tier
/// default, never above the hard cap.
pub open spec fn spec_resolve_budget(requested: Option<u32>, tier_default: u32, hard_cap: u32) -> u32 {
    let effective = match requested {
        Some(r) => r,
        None => tier_default,
    };
    if effective <= hard_cap { effective } else { hard_cap }
}

/// Resolve the effective budget given an optional user-requested budget,
/// a detail tier default, and the hard cap.
pub fn resolve_budget(requested: Option<u32>, tier_default: u32, hard_cap: u32) -> (budget: u32)
    ensures
        budget == spec_resolve_budget(requested, tier_default, hard_cap),
        budget <= hard_cap,
{
    let effective = match requested {
        Some(r) => r,
        None => tier_default,
    };
    if effective <= hard_cap {
        effective
    } else {
        hard_cap
    }
}

/// Budget enforcer that tracks cumulative token usage and signals truncation.
pub struct BudgetEnforcer {
    limit: u32,
    hard_cap: u32,
    used_bytes: usize,
}

impl BudgetEnforcer {
    /// The accepted bytes never estimate to more tokens than the limit.
    #[verifier::type_invariant]
    spec fn within_limit(self) -> bool {
        spec_estimate_tokens(self.used_bytes as int) <= self.limit
    }

    /// The token limit this enforcer was made with.
    pub closed spec fn spec_limit(&self) -> u32 {
        self.limit
    }

    /// The hard cap this enforcer was made with.
    pub closed spec fn spec_hard_cap(&self) -> u32 {
        self.hard_cap
    }

    /// Bytes accepted so far.
    pub closed spec fn spec_used_bytes(&self) -> nat {
        self.used_bytes as nat
    }

    pub fn new(limit: u32, hard_cap: u32) -> (e: Self)
        ensures
            e.spec_limit() == limit,
            e.spec_hard_cap() == hard_cap,
            e.spec_used_bytes() == 0,
    {
        Self { limit, hard_cap, used_bytes: 0 }
    }

    /// Check if adding `bytes` would exceed the budget.
    /// Returns true if the item fits within budget; only then are the bytes counted.
    pub fn try_add(&mut self, bytes: usize) -> (fits: bool)
        requires
            old(self).spec_used_bytes() + bytes <= usize::MAX,
        ensures
            fits == (spec_estimate_tokens(old(self).spec_used_bytes() + bytes) <= old(self).spec_limit()),
            final(self).spec_used_bytes() == (if fits {
                old(self).spec_used_bytes() + bytes
            } else {
                old(self).spec_used_bytes() as int
            }),
            final(self).spec_limit() == old(self).spec_limit(),
            final(self).spec_hard_cap() == old(self).spec_hard_cap(),
    {
        let projected = estimate_tokens(self.used_bytes + bytes);
        if projected > self.limit {
            return false;
        }
        self.used_bytes = self.used_bytes + bytes;
        true
    }

    /// Build the budget report.
    pub fn report(&self) -> (r: BudgetReport)
        ensures
            r.used == spec_estimate_tokens(self.spec_used_bytes() as int),
            r.limit == self.spec_limit(),
            r.hard_cap == self.spec_hard_cap(),
            r.used <= r.limit,
    {
        proof {
            use_type_invariant(self);
        }
        BudgetReport {
            used: estimate_tokens(self.used_bytes),
            limit: self.limit,
            hard_cap: self.hard_cap,
        }
    }
}

} // verus!
