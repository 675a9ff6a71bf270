//! The host ledger, as the engine sees it: account identities, attached
//! value, the current time, and the value-transfer primitive.

use vstd::prelude::*;

verus! {

/// The identity of an account on the host ledger.
pub type AccountId = u32;

/// An amount of ledger currency, in its smallest unit.
pub type Balance = u128;

/// A point in time, in seconds.
pub type Timestamp = u64;

/// The host-supplied context of one incoming call: who calls, the account the
/// engine itself runs as, the value attached to the call, and the current time.
#[derive(Clone, Copy, Debug, PartialEq, Eq, Structural)]
pub struct CallEnv {
    pub caller: AccountId,
    pub callee: AccountId,
    pub transferred_value: Balance,
    pub block_timestamp: Timestamp,
}

/// One completed transfer out of the engine's custodial balance.
#[derive(Clone, Copy, Debug, PartialEq, Eq, Structural)]
pub struct Transfer {
    pub to: AccountId,
    pub amount: Balance,
}

/// The report that the ledger refused a transfer.
#[derive(Clone, Copy, Debug, PartialEq, Eq, Structural)]
pub struct TransferFailed;

/// The ledger's value-transfer primitive.
///
/// Whether a transfer succeeds is the ledger's decision alone (a recipient may
/// be unable to take the value); the contract only pins down what each outcome
/// did: a successful call appends exactly one entry to the transfer history,
/// a failed call leaves it unchanged.
pub trait ValueGateway {
    /// The transfers completed so far, oldest first.
    spec fn log(&self) -> Seq<Transfer>;

    /// Move `amount` from the engine's custodial balance to `to`.
    fn transfer(&mut self, to: AccountId, amount: Balance) -> (r: Result<(), TransferFailed>)
        ensures
            r is Ok ==> final(self).log() == old(self).log().push((Transfer { to, amount })),
            r is Err ==> final(self).log() == old(self).log(),
    ;
}

/// An in-memory ledger: it records every transfer it accepts, and can be
/// switched to refuse them, so that callers can exercise both outcomes.
pub struct RecordingLedger {
    /// Every transfer accepted so far, oldest first.
    pub completed: Vec<Transfer>,
    /// Whether the next transfers are accepted.
    pub accept: bool,
}

impl RecordingLedger {
    /// A fresh ledger with an empty history that accepts all transfers.
    pub fn new() -> (r: RecordingLedger)
        ensures
            r.log() == Seq::<Transfer>::empty(),
            r.accept,
    {
        RecordingLedger { completed: Vec::new(), accept: true }
    }
}

impl ValueGateway for RecordingLedger {
    open spec fn log(&self) -> Seq<Transfer> {
        self.completed@
    }

    fn transfer(&mut self, to: AccountId, amount: Balance) -> (r: Result<(), TransferFailed>) {
        if self.accept {
            self.completed.push(Transfer { to, amount });
            Ok(())
        } else {
            Err(TransferFailed)
        }
    }
}

} // verus!
