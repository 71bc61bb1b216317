//! A platform model: the minimum-balance oracle, the ceilings on buffer size,
//! and the growth operation that tops a record up and resizes it as one step.

use vstd::prelude::*;
use crate::growth::{shortfall, top_up_amount, GrowthError};
use crate::record::{preserves_prefix, Funder, FunderState, Record, RecordState};

verus! {

/// The rent rate: a record of `size` bytes must hold
/// `(storage_overhead + size) * lamports_per_byte`.
#[derive(Debug, Clone, Copy, PartialEq, Eq, Structural)]
pub struct RentRate {
    pub storage_overhead: u64,
    pub lamports_per_byte: u64,
}

/// The platform a record lives on. `rent` is `None` while the rate cannot be
/// read. A single resize may add at most `max_increase` bytes, and no buffer
/// may exceed `max_size` bytes.
#[derive(Debug, Clone, Copy, PartialEq, Eq, Structural)]
pub struct Ledger {
    pub rent: Option<RentRate>,
    pub max_increase: usize,
    pub max_size: usize,
}

impl Ledger {
    /// The minimum balance for `size` bytes; `None` when the rate cannot be
    /// read or the amount does not fit in a `u64`.
    pub open spec fn minimum_balance_spec(self, size: nat) -> Option<u64> {
        match self.rent {
            None => None,
            Some(rate) => {
                let v = (rate.storage_overhead + size) * rate.lamports_per_byte;
                if v <= u64::MAX {
                    Some(v as u64)
                } else {
                    None
                }
            },
        }
    }

    /// Whether a buffer of `old_size` bytes may be resized to `new_size` in one call.
    pub open spec fn permits_resize(self, old_size: nat, new_size: nat) -> bool {
        new_size <= self.max_size && new_size <= old_size + self.max_increase
    }

    pub fn new(storage_overhead: u64, lamports_per_byte: u64, max_increase: usize, max_size: usize) -> (r: Ledger)
        ensures
            r == (Ledger {
                rent: Some(RentRate { storage_overhead, lamports_per_byte }),
                max_increase,
                max_size,
            }),
    {
        Ledger { rent: Some(RentRate { storage_overhead, lamports_per_byte }), max_increase, max_size }
    }

    /// Queries the minimum balance for `size` bytes.
    pub fn minimum_balance(&self, size: usize) -> (r: Option<u64>)
        ensures
            r == self.minimum_balance_spec(size as nat),
    {
        match self.rent {
            None => None,
            Some(rate) => {
                if rate.lamports_per_byte == 0 {
                    return Some(0);
                }
                match rate.storage_overhead.checked_add(size as u64) {
                    None => {
                        proof {
                            let o = rate.storage_overhead as int;
                            let p = rate.lamports_per_byte as int;
                            let s = size as int;
                            assert((o + s) * p >= o + s) by (nonlinear_arith)
                                requires
                                    p >= 1,
                                    o >= 0,
                                    s >= 0,
                            ;
                        }
                        None
                    },
                    Some(bytes) => bytes.checked_mul(rate.lamports_per_byte),
                }
            },
        }
    }

    /// Whether a buffer of `old_size` bytes may be resized to `new_size` in one call.
    pub fn resize_permitted(&self, old_size: usize, new_size: usize) -> (r: bool)
        ensures
            r == self.permits_resize(old_size as nat, new_size as nat),
    {
        new_size <= self.max_size && (new_size <= old_size || new_size - old_size <= self.max_increase)
    }
}

/// Whether `funder` can pay `amount`: nothing to pay, or an authorized funder
/// with enough balance.
pub open spec fn can_pay(funder: FunderState, amount: nat) -> bool {
    amount == 0 || (funder.authorized && amount <= funder.balance)
}

/// The result of growing `record` to `new_size` with `funder` paying.
pub open spec fn growth_outcome(
    ledger: Ledger,
    record: RecordState,
    funder: FunderState,
    new_size: nat,
) -> Result<(), GrowthError> {
    match ledger.minimum_balance_spec(new_size) {
        None => Err(GrowthError::BalanceOracleUnavailable),
        Some(required) => {
            if !can_pay(funder, shortfall(required as nat, record.balance as nat)) {
                Err(GrowthError::TransferRejected)
            } else if !ledger.permits_resize(record.size(), new_size) {
                Err(GrowthError::ResizeRejected)
            } else {
                Ok(())
            }
        },
    }
}

/// Grows (or shrinks) `record`'s buffer to `new_size` bytes, first topping its
/// balance up from `funder` to the minimum balance for `new_size`. Nothing is
/// transferred when the record already holds enough; excess balance is kept.
/// On any error neither the record nor the funder is changed.
pub fn resize_account(ledger: &Ledger, record: &mut Record, funder: &mut Funder, new_size: usize) -> (r: Result<(), GrowthError>)
    ensures
        r == growth_outcome(*ledger, old(record)@, old(funder)@, new_size as nat),
        r is Err ==> final(record)@ == old(record)@ && final(funder)@ == old(funder)@,
        r is Ok ==> {
            let required = ledger.minimum_balance_spec(new_size as nat)->Some_0;
            let paid = shortfall(required as nat, old(record)@.balance as nat);
            &&& final(record)@.balance == old(record)@.balance + paid
            &&& final(funder)@ == (FunderState { balance: (old(funder)@.balance - paid) as u64, ..old(funder)@ })
            &&& final(record)@.balance >= required
            &&& final(record)@.size() == new_size
            &&& preserves_prefix(old(record)@.data, final(record)@.data)
        },
        (ledger.minimum_balance_spec(new_size as nat) matches Some(required)
            && old(record)@.balance >= required) ==> {
            &&& final(record)@.balance == old(record)@.balance
            &&& final(funder)@.balance == old(funder)@.balance
        },
{
    let required = match ledger.minimum_balance(new_size) {
        Some(required) => required,
        None => return Err(GrowthError::BalanceOracleUnavailable),
    };
    let amount = top_up_amount(required, record.balance());
    if amount > 0 && !(funder.is_authorized() && amount <= funder.balance()) {
        return Err(GrowthError::TransferRejected);
    }
    if !ledger.resize_permitted(record.size(), new_size) {
        return Err(GrowthError::ResizeRejected);
    }
    funder.debit(amount);
    record.credit(amount);
    record.set_size(new_size);
    Ok(())
}

/// Shrinking a record that is funded for its current size needs no transfer:
/// the minimum balance never rises as the size falls.
pub proof fn lemma_shrink_needs_no_top_up(ledger: Ledger, record: RecordState, new_size: nat)
    requires
        ledger.minimum_balance_spec(record.size()) matches Some(funded) && record.balance >= funded,
        new_size <= record.size(),
    ensures
        ledger.minimum_balance_spec(new_size) matches Some(required) && shortfall(
            required as nat,
            record.balance as nat,
        ) == 0,
{
    let rate = ledger.rent->Some_0;
    let o = rate.storage_overhead as int;
    let p = rate.lamports_per_byte as int;
    let s = record.size() as int;
    let n = new_size as int;
    assert((o + n) * p <= (o + s) * p) by (nonlinear_arith)
        requires
            0 <= n <= s,
            p >= 0,
    ;
}

} // verus!
