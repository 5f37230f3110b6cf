//! Plain values that travel with every command and query, and the two result
//! channels: the status a contract reports and the failures of the dispatcher.

use vstd::prelude::*;

verus! {

/// The identity under which one contract instance is registered and found again.
pub type ContractId = u32;

/// The authenticated account that issued a command or a query: its 32 raw bytes.
#[derive(Clone, Copy, Debug, PartialEq, Eq)]
pub struct AccountId(pub [u8; 32]);

/// The position of a transaction in the chain's log: the block it was included
/// in and its index there. It is carried to the command handler, which may use
/// it to recognise a command it has already applied; nothing else reads it.
#[derive(Clone, Copy, Debug, PartialEq, Eq)]
pub struct TxRef {
    pub blocknum: u32,
    pub index: u64,
}

/// What a command handler reports: success, or the kind of failure. It carries
/// no value; a command answers only whether the state change took place.
#[derive(Clone, Copy, Debug, PartialEq, Eq)]
pub enum TransactionStatus {
    /// The command was applied.
    Success,
    /// The origin may not issue this command.
    NotAuthorized,
    /// The command's payload is not acceptable to the contract.
    InvalidArgument,
    /// The contract has seen this transaction before and did not apply it again.
    AlreadyApplied,
}

/// A failure of the dispatcher itself, kept apart from whatever a contract
/// reports through `TransactionStatus` or through its own response type.
#[derive(Clone, Copy, Debug, PartialEq, Eq)]
pub enum DispatchError {
    /// `register` was given an identity that is already bound.
    DuplicateIdentity,
    /// No contract is registered under the identity.
    UnknownContract,
    /// The bytes of a command did not decode to the contract's command type.
    MalformedCommand,
    /// The bytes of a request did not decode to the contract's request type.
    MalformedRequest,
}

/// The account behind an optional reference, as a plain optional value.
pub open spec fn origin_of(origin: Option<&AccountId>) -> Option<AccountId> {
    match origin {
        Some(account) => Some(*account),
        None => None,
    }
}

} // verus!
