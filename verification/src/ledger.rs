use vstd::prelude::*;
use crate::account::Stakingfrontend;
use crate::error::CounterError;

verus! {

/// What allocating the counter record costs the payer, and what the
/// record then keeps in reserve until it is closed: one unit per record
/// byte, the eight header bytes plus the count byte.
pub const ALLOCATION_COST: u64 = 9;

/// One step of `increment`: the account state it leaves behind and the
/// outcome it reports. A missing account is refused outright; a count at
/// its greatest value is left untouched and reported as an overflow.
pub open spec fn increment_step(acct: Option<u8>) -> (Option<u8>, Result<(), CounterError>) {
    match acct {
        None => (None, Err(CounterError::AccountNotFound)),
        Some(c) => if c == 255 {
            (Some(c), Err(CounterError::ArithmeticOverflow))
        } else {
            (Some((c + 1) as u8), Ok(()))
        },
    }
}

/// One step of `decrement`: the mirror image of `increment_step`, with a
/// count of zero left untouched and reported as an underflow.
pub open spec fn decrement_step(acct: Option<u8>) -> (Option<u8>, Result<(), CounterError>) {
    match acct {
        None => (None, Err(CounterError::AccountNotFound)),
        Some(c) => if c == 0 {
            (Some(c), Err(CounterError::ArithmeticUnderflow))
        } else {
            (Some((c - 1) as u8), Ok(()))
        },
    }
}

/// One step of `set`: on an existing account the new value is written
/// unconditionally; its type already confines it to the count's range.
pub open spec fn set_step(acct: Option<u8>, value: u8) -> (Option<u8>, Result<(), CounterError>) {
    match acct {
        None => (None, Err(CounterError::AccountNotFound)),
        Some(_) => (Some(value), Ok(())),
    }
}

/// One step of `initialize`: the account state and payer balance it
/// leaves behind and the outcome. Allocation is refused when the account
/// already exists or the payer cannot cover the cost.
pub open spec fn initialize_step(acct: Option<u8>, payer: u64) -> (
    Option<u8>,
    u64,
    Result<(), CounterError>,
) {
    if acct is Some || payer < ALLOCATION_COST {
        (acct, payer, Err(CounterError::AllocationError))
    } else {
        (Some(0u8), (payer - ALLOCATION_COST) as u64, Ok(()))
    }
}

/// One step of `close`: an existing account is deallocated and its
/// reserve refunded to the payer; a missing one is reported as not found.
pub open spec fn close_step(acct: Option<u8>, payer: u64) -> (
    Option<u8>,
    u64,
    Result<(), CounterError>,
) {
    match acct {
        None => (None, payer, Err(CounterError::AccountNotFound)),
        Some(_) => (None, (payer + ALLOCATION_COST) as u64, Ok(())),
    }
}

/// The ledger as the counter program sees it: one slot that may hold the
/// counter record, and the balance of the payer that funds it. Every
/// operation either applies in full or reports an error and changes
/// nothing.
pub struct Ledger {
    account: Option<Stakingfrontend>,
    payer_balance: u64,
}

impl Ledger {
    /// The state of the account slot: the stored count while the record
    /// exists, `None` while it does not.
    pub closed spec fn account_state(self) -> Option<u8> {
        match self.account {
            Some(a) => Some(a.count),
            None => None,
        }
    }

    /// The payer's current balance.
    pub closed spec fn payer(self) -> u64 {
        self.payer_balance
    }

    /// Whether the counter record currently exists.
    pub open spec fn allocated(self) -> bool {
        self.account_state() is Some
    }

    /// While the record exists, refunding its reserve can never overflow
    /// the payer's balance. Constructors establish this and every
    /// operation preserves it.
    pub open spec fn inv(self) -> bool {
        self.allocated() ==> self.payer() + ALLOCATION_COST <= u64::MAX
    }

    /// Every unit the ledger holds: the payer's balance plus whatever the
    /// record keeps in reserve. No operation creates or destroys funds.
    pub open spec fn total_funds(self) -> int {
        self.payer() + if self.allocated() {
            ALLOCATION_COST as int
        } else {
            0int
        }
    }

    /// A fresh ledger: no account yet, the payer holding `payer_balance`.
    pub fn new(payer_balance: u64) -> (r: Ledger)
        ensures
            r.account_state() is None,
            r.payer() == payer_balance,
            r.inv(),
    {
        Ledger { account: None, payer_balance }
    }

    /// A ledger picked up with the record already allocated and holding
    /// `count`: the state in which an existing account reaches the
    /// mutating operations. The payer must be able to absorb the
    /// record's reserve, so that closing it can refund in full.
    pub fn with_account(count: u8, payer_balance: u64) -> (r: Ledger)
        requires
            payer_balance + ALLOCATION_COST <= u64::MAX,
        ensures
            r.account_state() == Some(count),
            r.payer() == payer_balance,
            r.inv(),
    {
        Ledger { account: Some(Stakingfrontend { count }), payer_balance }
    }

    /// Allocates the counter record with a count of zero, at the payer's
    /// cost. Fails with `AllocationError`, leaving the ledger unchanged,
    /// when the record already exists or the payer cannot cover the cost.
    pub fn initialize(&mut self) -> (r: Result<(), CounterError>)
        requires
            old(self).inv(),
        ensures
            final(self).inv(),
            (final(self).account_state(), final(self).payer(), r)
                == initialize_step(old(self).account_state(), old(self).payer()),
            final(self).total_funds() == old(self).total_funds(),
    {
        if self.account.is_some() {
            return Err(CounterError::AllocationError);
        }
        if self.payer_balance < ALLOCATION_COST {
            return Err(CounterError::AllocationError);
        }
        self.payer_balance = self.payer_balance - ALLOCATION_COST;
        self.account = Some(Stakingfrontend::new());
        Ok(())
    }

    /// Adds one to the count. Fails with `ArithmeticOverflow`, leaving
    /// the ledger unchanged, when the count is at its greatest value, and
    /// with `AccountNotFound` when the record does not exist.
    pub fn increment(&mut self) -> (r: Result<(), CounterError>)
        requires
            old(self).inv(),
        ensures
            final(self).inv(),
            final(self).payer() == old(self).payer(),
            (final(self).account_state(), r) == increment_step(old(self).account_state()),
    {
        match &mut self.account {
            None => Err(CounterError::AccountNotFound),
            Some(a) => {
                if a.count == 255 {
                    Err(CounterError::ArithmeticOverflow)
                } else {
                    a.count = a.count + 1;
                    Ok(())
                }
            },
        }
    }

    /// Takes one from the count. Fails with `ArithmeticUnderflow`,
    /// leaving the ledger unchanged, when the count is zero, and with
    /// `AccountNotFound` when the record does not exist.
    pub fn decrement(&mut self) -> (r: Result<(), CounterError>)
        requires
            old(self).inv(),
        ensures
            final(self).inv(),
            final(self).payer() == old(self).payer(),
            (final(self).account_state(), r) == decrement_step(old(self).account_state()),
    {
        match &mut self.account {
            None => Err(CounterError::AccountNotFound),
            Some(a) => {
                if a.count == 0 {
                    Err(CounterError::ArithmeticUnderflow)
                } else {
                    a.count = a.count - 1;
                    Ok(())
                }
            },
        }
    }

    /// Overwrites the count with `value`. On an existing record this
    /// cannot fail; on a missing one it fails with `AccountNotFound`.
    pub fn set(&mut self, value: u8) -> (r: Result<(), CounterError>)
        requires
            old(self).inv(),
        ensures
            final(self).inv(),
            final(self).payer() == old(self).payer(),
            (final(self).account_state(), r) == set_step(old(self).account_state(), value),
    {
        match &mut self.account {
            None => Err(CounterError::AccountNotFound),
            Some(a) => {
                a.count = value;
                Ok(())
            },
        }
    }

    /// Deallocates the record and refunds its reserve to the payer.
    /// Fails with `AccountNotFound`, leaving the ledger unchanged, when
    /// the record does not exist.
    pub fn close(&mut self) -> (r: Result<(), CounterError>)
        requires
            old(self).inv(),
        ensures
            final(self).inv(),
            (final(self).account_state(), final(self).payer(), r)
                == close_step(old(self).account_state(), old(self).payer()),
            final(self).total_funds() == old(self).total_funds(),
    {
        match &self.account {
            None => Err(CounterError::AccountNotFound),
            Some(_) => {
                self.account = None;
                self.payer_balance = self.payer_balance + ALLOCATION_COST;
                Ok(())
            },
        }
    }

    /// The current count; `AccountNotFound` when the record does not
    /// exist.
    pub fn count(&self) -> (r: Result<u8, CounterError>)
        ensures
            self.account_state() matches Some(c) ==> r == Ok::<u8, CounterError>(c),
            self.account_state() is None
                ==> r == Err::<u8, CounterError>(CounterError::AccountNotFound),
    {
        match &self.account {
            None => Err(CounterError::AccountNotFound),
            Some(a) => Ok(a.count),
        }
    }

    /// The payer's current balance.
    pub fn payer_balance(&self) -> (r: u64)
        ensures
            r == self.payer(),
    {
        self.payer_balance
    }
}

/// Incrementing and then decrementing returns the count to where it
/// began, whenever the increment itself stays in bounds.
pub proof fn lemma_increment_then_decrement(acct: Option<u8>)
    requires
        acct matches Some(c) && c < 255,
    ensures
        increment_step(acct).1 == Ok::<(), CounterError>(()),
        decrement_step(increment_step(acct).0) == (acct, Ok::<(), CounterError>(())),
{
}

/// Setting the count and then reading it yields exactly the value set,
/// for every value the count can hold.
pub proof fn lemma_set_then_read(acct: Option<u8>, value: u8)
    requires
        acct is Some,
    ensures
        set_step(acct, value) == (Some(value), Ok::<(), CounterError>(())),
{
}

/// A freshly initialized account reads as zero, whenever the payer can
/// cover the allocation.
pub proof fn lemma_initialize_then_read(acct: Option<u8>, payer: u64)
    requires
        acct is None,
        payer >= ALLOCATION_COST,
    ensures
        initialize_step(acct, payer).0 == Some(0u8),
        initialize_step(acct, payer).2 == Ok::<(), CounterError>(()),
{
}

/// After a successful close, every further operation on the same account
/// reference fails with `AccountNotFound`, and none of them brings the
/// record back.
pub proof fn lemma_closed_account_rejects_every_operation(acct: Option<u8>, payer: u64, value: u8)
    requires
        acct is Some,
    ensures
        close_step(acct, payer).2 == Ok::<(), CounterError>(()),
        close_step(acct, payer).0 is None,
        increment_step(close_step(acct, payer).0)
            == (None::<u8>, Err::<(), CounterError>(CounterError::AccountNotFound)),
        decrement_step(close_step(acct, payer).0)
            == (None::<u8>, Err::<(), CounterError>(CounterError::AccountNotFound)),
        set_step(close_step(acct, payer).0, value)
            == (None::<u8>, Err::<(), CounterError>(CounterError::AccountNotFound)),
        close_step(close_step(acct, payer).0, close_step(acct, payer).1).2
            == Err::<(), CounterError>(CounterError::AccountNotFound),
{
}

} // verus!
