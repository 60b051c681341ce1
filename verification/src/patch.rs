//! Arithmetic behind rewriting call-site stubs: branch displacements, page spans and the
//! bookkeeping of a patching pass.

use vstd::arithmetic::div_mod::lemma_fundamental_div_mod_converse;
use vstd::arithmetic::power2::pow2;
use vstd::bits::{lemma_u64_pow2_no_overflow, lemma_u64_shl_is_mul};
use vstd::prelude::*;

verus! {

/// The displacement of a relative branch at `from` whose offset counts from the end of an
/// `instruction_len`-byte instruction, when every quantity fits: the addresses in `isize` and
/// the displacement in `i32`.
pub open spec fn branch_displacement(from: int, to: int, instruction_len: int) -> Option<int> {
    let from_next = from + instruction_len;
    if from_next > usize::MAX || from_next > isize::MAX || to > isize::MAX {
        None
    } else if i32::MIN <= to - from_next <= i32::MAX {
        Some(to - from_next)
    } else {
        None
    }
}

/// The displacement from `from` to `to` counted in units of `2^shift` bytes, when the addresses
/// fit in `isize`, the shift is below the pointer width, the distance is a whole number of
/// units, and the count fits a signed `bits`-bit field (and an `i32`).
pub open spec fn branch_units(from: int, to: int, shift: nat, bits: nat) -> Option<int> {
    let diff = to - from;
    let unit = pow2(shift) as int;
    let limit = pow2((bits - 1) as nat) as int;
    if from > isize::MAX || to > isize::MAX || shift >= isize::BITS {
        None
    } else if diff % unit != 0 {
        None
    } else if -limit <= diff / unit < limit && i32::MIN <= diff / unit <= i32::MAX {
        Some(diff / unit)
    } else {
        None
    }
}

/// The signed displacement of a relative branch from `from` to `to` that is
/// `instruction_len` bytes long, or `None` when it does not fit in an `i32`.
pub fn branch_i32(from: usize, to: usize, instruction_len: usize) -> (r: Option<i32>)
    ensures
        r matches Some(v) ==> branch_displacement(from as int, to as int, instruction_len as int) == Some(v as int),
        r is None ==> branch_displacement(from as int, to as int, instruction_len as int) is None,
{
    let from_next = match from.checked_add(instruction_len) {
        Some(v) => v,
        None => return None,
    };
    if to > isize::MAX as usize || from_next > isize::MAX as usize {
        return None;
    }
    let diff = (to as i128) - (from_next as i128);
    if diff < i32::MIN as i128 || diff > i32::MAX as i128 {
        return None;
    }
    Some(diff as i32)
}

proof fn lemma_negated_multiple(m: int, u: int)
    requires
        m >= 0,
        u > 0,
    ensures
        (m % u == 0) == ((-m) % u == 0),
        m % u == 0 ==> (-m) / u == -(m / u),
{
    if m % u == 0 {
        let q = m / u;
        assert(m == q * u) by {
            vstd::arithmetic::div_mod::lemma_fundamental_div_mod(m, u);
            vstd::arithmetic::mul::lemma_mul_is_commutative(q, u);
        }
        assert(-m == (-q) * u) by {
            vstd::arithmetic::mul::lemma_mul_unary_negation(q, u);
        }
        lemma_fundamental_div_mod_converse(-m, u, -q, 0);
    } else if (-m) % u == 0 {
        let k = (-m) / u;
        assert(-m == k * u) by {
            vstd::arithmetic::div_mod::lemma_fundamental_div_mod(-m, u);
            vstd::arithmetic::mul::lemma_mul_is_commutative(k, u);
        }
        assert(m == (-k) * u) by {
            vstd::arithmetic::mul::lemma_mul_unary_negation(k, u);
        }
        lemma_fundamental_div_mod_converse(m, u, -k, 0);
    }
}

/// The displacement from `from` to `to` in units of `2^shift` bytes, or `None` when it is not
/// a whole number of units or does not fit a signed `bits`-bit field.
pub fn branch_words(from: usize, to: usize, shift: u32, bits: u32) -> (r: Option<i32>)
    requires
        1 <= bits <= 63,
    ensures
        r matches Some(v) ==> branch_units(from as int, to as int, shift as nat, bits as nat) == Some(v as int),
        r is None ==> branch_units(from as int, to as int, shift as nat, bits as nat) is None,
{
    if to > isize::MAX as usize || from > isize::MAX as usize || shift >= isize::BITS {
        return None;
    }
    proof {
        lemma_u64_pow2_no_overflow(shift as nat);
        lemma_u64_shl_is_mul(1, shift as u64);
        lemma_u64_pow2_no_overflow((bits - 1) as nat);
        lemma_u64_shl_is_mul(1, (bits - 1) as u64);
    }
    let unit = (1u64 << (shift as u64)) as u128;
    let limit = (1u64 << ((bits - 1) as u64)) as i128;
    let diff = (to as i128) - (from as i128);
    let negative = diff < 0;
    let magnitude: u128 = if negative { (-diff) as u128 } else { diff as u128 };
    proof {
        lemma_negated_multiple(magnitude as int, unit as int);
    }
    if magnitude % unit != 0 {
        return None;
    }
    let units = (magnitude / unit) as i128;
    let value = if negative { -units } else { units };
    if value < -limit || value >= limit || value < i32::MIN as i128 || value > i32::MAX as i128 {
        return None;
    }
    Some(value as i32)
}

/// The page-aligned span `(start, length)` that covers `len` bytes at `addr` with pages of
/// `page_size` bytes, or `None` when rounding the end up overflows.
pub fn page_span(addr: usize, len: usize, page_size: usize) -> (r: Option<(usize, usize)>)
    requires
        page_size > 0,
    ensures
        r is Some <==> addr + len + page_size - 1 <= usize::MAX,
        r matches Some((start, span)) ==> {
            let end = addr + len + page_size - 1;
            &&& start == addr - addr % page_size
            &&& span == (end - end % page_size as int) - start
        },
{
    proof {
        vstd::arithmetic::div_mod::lemma_mod_pos_bound(addr as int, page_size as int);
        vstd::arithmetic::div_mod::lemma_fundamental_div_mod(addr as int, page_size as int);
        vstd::arithmetic::mul::lemma_mul_nonnegative(page_size as int, (addr / page_size) as int);
    }
    let start = addr - addr % page_size;
    let end = match addr.checked_add(len) {
        Some(e) => e,
        None => return None,
    };
    let end = match end.checked_add(page_size - 1) {
        Some(e) => e,
        None => return None,
    };
    let end = end - end % page_size;
    proof {
        let a = addr as int;
        let e = (addr + len + page_size - 1) as int;
        let p = page_size as int;
        lemma_round_down_ordered(a, e, p);
    }
    Some((start, end - start))
}

proof fn lemma_round_down_ordered(a: int, e: int, p: int)
    requires
        0 <= a <= e,
        p > 0,
    ensures
        a - a % p <= e - e % p,
        a % p <= a,
{
    vstd::arithmetic::div_mod::lemma_fundamental_div_mod(a, p);
    vstd::arithmetic::div_mod::lemma_fundamental_div_mod(e, p);
    vstd::arithmetic::div_mod::lemma_div_is_ordered(a, e, p);
    vstd::arithmetic::mul::lemma_mul_inequality(a / p, e / p, p);
    vstd::arithmetic::mul::lemma_mul_is_commutative(a / p, p);
    vstd::arithmetic::mul::lemma_mul_is_commutative(e / p, p);
    vstd::arithmetic::div_mod::lemma_mod_pos_bound(a, p);
}

/// Whether a stub at `address` may be rewritten with one aligned 8-byte commit store: the
/// commit is 8 bytes, the new bytes cover it, and the address is aligned to it.
pub fn u64_commit_allowed(address: usize, len: usize, commit_len: usize) -> (r: bool)
    ensures
        r == (commit_len == 8 && len >= commit_len && address % 8 == 0),
{
    commit_len == 8 && len >= commit_len && address % commit_len == 0
}

/// Whether a 4-byte stub at `address` may be rewritten with one aligned 32-bit store.
pub fn u32_store_allowed(address: usize) -> (r: bool)
    ensures
        r == (address % 4 == 0),
{
    address % 4 == 0
}

/// Counts of one patching pass over the registered call sites.
#[derive(Clone, Copy, Debug, PartialEq, Eq)]
pub struct PatchStats {
    /// Call sites found in the registry.
    pub registered: usize,
    /// Stubs rewritten in this pass.
    pub patched: usize,
    /// Stubs that already held the selected bytes.
    pub already_patched: usize,
    /// Stubs that could not be rewritten.
    pub failed: usize,
}

/// What happened to one call-site stub in a patching pass.
#[derive(Clone, Copy, Debug, PartialEq, Eq)]
pub enum PatchOutcome {
    /// The stub now holds the selected bytes.
    Patched,
    /// The stub already held the selected bytes.
    AlreadyPatched,
    /// The stub held unexpected bytes, or could not be encoded or written.
    Failed,
}

impl PatchStats {
    /// Every registered call site has exactly one outcome.
    pub open spec fn is_consistent(&self) -> bool {
        self.registered == self.patched + self.already_patched + self.failed
    }

    /// No call site seen yet.
    pub fn new() -> (s: Self)
        ensures
            s.registered == 0,
            s.patched == 0,
            s.already_patched == 0,
            s.failed == 0,
            s.is_consistent(),
    {
        PatchStats { registered: 0, patched: 0, already_patched: 0, failed: 0 }
    }

    /// Counts one more registered call site with `outcome`.
    pub fn record(&mut self, outcome: PatchOutcome)
        requires
            old(self).is_consistent(),
            old(self).registered < usize::MAX,
        ensures
            final(self).is_consistent(),
            final(self).registered == old(self).registered + 1,
            final(self).patched == old(self).patched + (if outcome == PatchOutcome::Patched { 1int } else { 0 }),
            final(self).already_patched == old(self).already_patched + (if outcome == PatchOutcome::AlreadyPatched { 1int } else { 0 }),
            final(self).failed == old(self).failed + (if outcome == PatchOutcome::Failed { 1int } else { 0 }),
    {
        self.registered = self.registered + 1;
        match outcome {
            PatchOutcome::Patched => self.patched = self.patched + 1,
            PatchOutcome::AlreadyPatched => self.already_patched = self.already_patched + 1,
            PatchOutcome::Failed => self.failed = self.failed + 1,
        }
    }
}

impl Default for PatchStats {
    fn default() -> (s: Self)
        ensures
            s.registered == 0 && s.patched == 0 && s.already_patched == 0 && s.failed == 0,
    {
        PatchStats::new()
    }
}

} // verus!
