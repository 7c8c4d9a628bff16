//! The rent table: the host's balance threshold below which it may reclaim a
//! resource. A resource is rent exempt when its balance covers the minimum for
//! its buffer size; the minimum is a pure function of the table and the size.

use vstd::prelude::*;

verus! {

/// Bytes of bookkeeping the host charges on top of every buffer.
pub const STORAGE_OVERHEAD: u64 = 128;

/// The host-supplied rent parameters.
pub struct RentTable {
    /// Lamports charged per byte of storage and year.
    pub lamports_per_byte_year: u64,
    /// Years of rent a balance must cover to be exempt.
    pub exemption_years: u64,
}

/// The exact (unbounded) minimum balance for a buffer of `len` bytes.
pub open spec fn minimum_balance_exact(t: RentTable, len: nat) -> nat {
    ((STORAGE_OVERHEAD + len) * t.lamports_per_byte_year * t.exemption_years) as nat
}

/// A value squeezed into the balance type.
pub open spec fn capped(n: nat) -> nat {
    if n > u64::MAX {
        u64::MAX as nat
    } else {
        n
    }
}

/// What [`RentTable::minimum_balance`] returns: the exact minimum, saturated
/// at the largest representable balance.
pub open spec fn minimum_balance_spec(t: RentTable, len: nat) -> nat {
    capped(minimum_balance_exact(t, len))
}

/// Capping an operand before a product caps the same as capping afterwards.
proof fn lemma_cap_mul(x: nat, y: nat)
    ensures
        capped(capped(x) * y) == capped(x * y),
{
    if x > u64::MAX {
        if y == 0 {
            assert(capped(x) * y == 0);
            assert(x * y == 0) by (nonlinear_arith)
                requires y == 0,
            {}
        } else {
            assert(capped(x) * y >= capped(x)) by (nonlinear_arith)
                requires y >= 1,
            {}
            assert(x * y >= x) by (nonlinear_arith)
                requires y >= 1,
            {}
        }
    }
}

impl RentTable {
    /// The minimum balance a resource with a `len`-byte buffer must hold to be
    /// rent exempt, saturated at the largest representable balance.
    pub fn minimum_balance(&self, len: usize) -> (r: u64)
        ensures
            r as nat == minimum_balance_spec(*self, len as nat),
    {
        let max: u128 = u64::MAX as u128;
        let size: u128 = (len as u128) + (STORAGE_OVERHEAD as u128);
        let size_c: u128 = if size > max { max } else { size };
        proof {
            assert(size_c == capped((STORAGE_OVERHEAD + len) as nat));
            assert((size_c as nat) * (self.lamports_per_byte_year as nat) <= (u64::MAX as nat) * (u64::MAX as nat))
                by (nonlinear_arith)
                requires
                    size_c <= u64::MAX,
                    self.lamports_per_byte_year <= u64::MAX,
            {}
        }
        let per_year: u128 = size_c * (self.lamports_per_byte_year as u128);
        let per_year_c: u128 = if per_year > max { max } else { per_year };
        proof {
            lemma_cap_mul((STORAGE_OVERHEAD + len) as nat, self.lamports_per_byte_year as nat);
            assert((per_year_c as nat) * (self.exemption_years as nat) <= (u64::MAX as nat) * (u64::MAX as nat))
                by (nonlinear_arith)
                requires
                    per_year_c <= u64::MAX,
                    self.exemption_years <= u64::MAX,
            {}
        }
        let total: u128 = per_year_c * (self.exemption_years as u128);
        let total_c: u128 = if total > max { max } else { total };
        proof {
            lemma_cap_mul(
                ((STORAGE_OVERHEAD + len) * self.lamports_per_byte_year) as nat,
                self.exemption_years as nat,
            );
        }
        total_c as u64
    }
}

} // verus!
