use vstd::prelude::*;

verus! {

/// The error taxonomy of the vault.
///
/// Every validation failure of a synchronous operation aborts that operation
/// with one of these values and no partial mutation. `TransferFailed`
/// classifies the one asynchronous failure — the external transfer of the
/// withdrawal saga did not complete — which is never propagated as a call
/// failure: the resolution step compensates locally and the caller observes a
/// zero result instead.
#[derive(Clone, Copy, PartialEq, Eq, Debug)]
pub enum VaultError {
    /// The notification does not come from the configured asset contract, names
    /// the wrong item id, spans more than one item, or the call lacks the
    /// attached-payment proof of caller intent.
    Unauthorized,
    /// Shares or assets exceed the owner's entitlement or the pool.
    InsufficientBalance,
    /// The realized share count falls below the caller-supplied minimum.
    SlippageViolation,
    /// The operation would move nothing.
    ZeroAmount,
    /// A checked multiplication or addition left the 128-bit range.
    ArithmeticOverflow,
    /// The external transfer of a withdrawal did not complete.
    TransferFailed,
}

} // verus!
