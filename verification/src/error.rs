use vstd::prelude::*;

verus! {

/// Every way a request can be rejected. A rejected request leaves the
/// ledger untouched: the mutation functions guarantee that in their
/// contracts.
#[derive(Debug, Clone, PartialEq)]
pub enum ContractError {
    /// The caller is not the configured administrator.
    Unauthorized,
    /// The attached funds are not exactly the required payment.
    WrongPaymentAmount,
    /// The post text exceeds the maximum length.
    TooMuchText,
    /// The external reference exceeds the maximum length.
    OnlyOneLink,
    /// The external reference does not start with the approved gateway prefix.
    MustUseApprovedGateway,
    /// No post with the given id exists in the ledger.
    PostNotFound,
    /// A failure propagated from the hosting environment.
    Std { msg: String },
}

} // verus!
