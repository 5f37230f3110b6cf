//! The routing table from identities to contract instances.

use std::collections::hash_map::Entry;
use std::collections::HashMap;
use vstd::prelude::*;
use vstd::std_specs::hash::group_hash_axioms;
use crate::contracts::Contract;
use crate::types::{AccountId, ContractId, DispatchError, TransactionStatus, TxRef, origin_of};

verus! {

broadcast use group_hash_axioms;

/// What registering under `identity` returns on a registry: `DuplicateIdentity`
/// where the identity is bound already, success otherwise.
pub open spec fn register_outcome<C: Contract>(
    registry: Map<ContractId, C::V>,
    identity: ContractId,
) -> Result<(), DispatchError> {
    if registry.contains_key(identity) {
        Err(DispatchError::DuplicateIdentity)
    } else {
        Ok(())
    }
}

/// The registry that registering leaves behind: one binding more, or the
/// registry as it was where the identity is bound already.
pub open spec fn registry_after_register<C: Contract>(
    registry: Map<ContractId, C::V>,
    identity: ContractId,
    state: C::V,
) -> Map<ContractId, C::V> {
    if registry.contains_key(identity) {
        registry
    } else {
        registry.insert(identity, state)
    }
}

/// What dispatching a command returns on a registry: the contract's own status,
/// or `UnknownContract` where nothing is registered under the identity.
pub open spec fn command_outcome<C: Contract>(
    registry: Map<ContractId, C::V>,
    identity: ContractId,
    origin: AccountId,
    txref: TxRef,
    cmd: <C::Command as View>::V,
) -> Result<TransactionStatus, DispatchError> {
    if registry.contains_key(identity) {
        Ok(C::command_status(registry[identity], origin, txref, cmd))
    } else {
        Err(DispatchError::UnknownContract)
    }
}

/// The registry that dispatching a command leaves behind: the addressed
/// instance has taken its step and every other binding is as it was.
pub open spec fn registry_after_command<C: Contract>(
    registry: Map<ContractId, C::V>,
    identity: ContractId,
    origin: AccountId,
    txref: TxRef,
    cmd: <C::Command as View>::V,
) -> Map<ContractId, C::V> {
    if registry.contains_key(identity) {
        registry.insert(identity, C::next_state(registry[identity], origin, txref, cmd))
    } else {
        registry
    }
}

/// What dispatching a query returns on a registry: the contract's response, or
/// `UnknownContract` where nothing is registered under the identity.
pub open spec fn query_outcome<C: Contract>(
    registry: Map<ContractId, C::V>,
    identity: ContractId,
    origin: Option<AccountId>,
    req: <C::Request as View>::V,
) -> Result<<C::Response as View>::V, DispatchError> {
    if registry.contains_key(identity) {
        Ok(C::query_response(registry[identity], origin, req))
    } else {
        Err(DispatchError::UnknownContract)
    }
}

/// The result of a query with the response taken by its view.
pub open spec fn outcome_view<R: View>(outcome: Result<R, DispatchError>) -> Result<
    R::V,
    DispatchError,
> {
    match outcome {
        Ok(resp) => Ok(resp@),
        Err(e) => Err(e),
    }
}

/// The registry of contract instances, keyed by identity. Bindings are only
/// ever added; the state behind one changes only when a command is dispatched
/// to it.
pub struct Dispatcher<C: Contract> {
    contracts: HashMap<ContractId, C>,
}

impl<C: Contract> View for Dispatcher<C> {
    type V = Map<ContractId, C::V>;

    /// The state of each registered instance, by identity.
    closed spec fn view(&self) -> Map<ContractId, C::V> {
        self.contracts@.map_values(|c: C| c@)
    }
}

impl<C: Contract> Dispatcher<C> {
    /// A dispatcher with nothing registered.
    pub fn new() -> (dispatcher: Self)
        ensures
            dispatcher@ == Map::<ContractId, C::V>::empty(),
    {
        Dispatcher { contracts: HashMap::new() }
    }

    /// Binds `identity` to `contract`; the identity given here is the key under
    /// which commands and queries find the instance. An identity that is
    /// already bound keeps the instance it has, and the call fails with
    /// `DuplicateIdentity`.
    pub fn register(&mut self, identity: ContractId, contract: C) -> (result: Result<
        (),
        DispatchError,
    >)
        ensures
            result == register_outcome::<C>(old(self)@, identity),
            final(self)@ == registry_after_register::<C>(old(self)@, identity, contract@),
    {
        if self.contracts.contains_key(&identity) {
            Err(DispatchError::DuplicateIdentity)
        } else {
            self.contracts.insert(identity, contract);
            Ok(())
        }
    }

    /// Forwards a command to the contract registered under `identity` and
    /// returns its status unchanged. Under an unknown identity the call fails
    /// with `UnknownContract` and no contract is touched.
    pub fn dispatch_command(
        &mut self,
        identity: ContractId,
        origin: &AccountId,
        txref: &TxRef,
        cmd: C::Command,
    ) -> (result: Result<TransactionStatus, DispatchError>)
        ensures
            result == command_outcome::<C>(old(self)@, identity, *origin, *txref, cmd@),
            final(self)@ == registry_after_command::<C>(
                old(self)@,
                identity,
                *origin,
                *txref,
                cmd@,
            ),
    {
        match self.contracts.entry(identity) {
            Entry::Occupied(slot) => {
                let contract = slot.into_mut();
                let status = contract.handle_command(origin, txref, cmd);
                Ok(status)
            },
            Entry::Vacant(_) => Err(DispatchError::UnknownContract),
        }
    }

    /// Forwards a query to the contract registered under `identity` and returns
    /// its response. Under an unknown identity the call fails with
    /// `UnknownContract` and no contract is asked.
    pub fn dispatch_query(
        &self,
        identity: ContractId,
        origin: Option<&AccountId>,
        req: C::Request,
    ) -> (result: Result<C::Response, DispatchError>)
        ensures
            outcome_view(result) == query_outcome::<C>(self@, identity, origin_of(origin), req@),
    {
        match self.contracts.get(&identity) {
            Some(contract) => Ok(contract.handle_query(origin, req)),
            None => Err(DispatchError::UnknownContract),
        }
    }

    /// Dispatches a command that arrived as bytes, given what decoding them
    /// produced. The identity is looked up first; under a known identity a
    /// command that did not decode fails with `MalformedCommand` and changes
    /// nothing, and one that did is dispatched as by `dispatch_command`.
    pub fn dispatch_decoded_command(
        &mut self,
        identity: ContractId,
        origin: &AccountId,
        txref: &TxRef,
        decoded: Option<C::Command>,
    ) -> (result: Result<TransactionStatus, DispatchError>)
        ensures
            match decoded {
                Some(cmd) => {
                    &&& result == command_outcome::<C>(
                        old(self)@,
                        identity,
                        *origin,
                        *txref,
                        cmd@,
                    )
                    &&& final(self)@ == registry_after_command::<C>(
                        old(self)@,
                        identity,
                        *origin,
                        *txref,
                        cmd@,
                    )
                },
                None => {
                    &&& final(self)@ == old(self)@
                    &&& result == Err::<TransactionStatus, DispatchError>(
                        if old(self)@.contains_key(identity) {
                            DispatchError::MalformedCommand
                        } else {
                            DispatchError::UnknownContract
                        },
                    )
                },
            },
    {
        match decoded {
            Some(cmd) => self.dispatch_command(identity, origin, txref, cmd),
            None => {
                if self.contracts.contains_key(&identity) {
                    Err(DispatchError::MalformedCommand)
                } else {
                    Err(DispatchError::UnknownContract)
                }
            },
        }
    }

    /// Dispatches a query that arrived as bytes, given what decoding them
    /// produced. The identity is looked up first; under a known identity a
    /// request that did not decode fails with `MalformedRequest`, and one that
    /// did is dispatched as by `dispatch_query`.
    pub fn dispatch_decoded_query(
        &self,
        identity: ContractId,
        origin: Option<&AccountId>,
        decoded: Option<C::Request>,
    ) -> (result: Result<C::Response, DispatchError>)
        ensures
            match decoded {
                Some(req) => outcome_view(result) == query_outcome::<C>(
                    self@,
                    identity,
                    origin_of(origin),
                    req@,
                ),
                None => result matches Err(e) && e == if self@.contains_key(identity) {
                    DispatchError::MalformedRequest
                } else {
                    DispatchError::UnknownContract
                },
            },
    {
        match decoded {
            Some(req) => self.dispatch_query(identity, origin, req),
            None => {
                if self.contracts.contains_key(&identity) {
                    Err(DispatchError::MalformedRequest)
                } else {
                    Err(DispatchError::UnknownContract)
                }
            },
        }
    }
}

/// Dispatching a query twice with no command in between returns twice the
/// same, a response or `UnknownContract`: a query leaves the registry as it is,
/// and its outcome is a function of the registry, the asker and the request.
pub proof fn dispatch_query_is_idempotent<C: Contract>(
    registry: Map<ContractId, C::V>,
    identity: ContractId,
    origin: Option<AccountId>,
    req: <C::Request as View>::V,
    first: Result<<C::Response as View>::V, DispatchError>,
    second: Result<<C::Response as View>::V, DispatchError>,
)
    requires
        first == query_outcome::<C>(registry, identity, origin, req),
        second == query_outcome::<C>(registry, identity, origin, req),
    ensures
        first == second,
{
}

/// A command is seen whole and by its own instance alone: asked after the
/// command, the addressed instance answers from the state the command left,
/// and every other identity answers as it did before.
pub proof fn query_after_command<C: Contract>(
    registry: Map<ContractId, C::V>,
    target: ContractId,
    origin: AccountId,
    txref: TxRef,
    cmd: <C::Command as View>::V,
    asked: ContractId,
    asker: Option<AccountId>,
    req: <C::Request as View>::V,
)
    ensures
        asked != target ==> query_outcome::<C>(
            registry_after_command::<C>(registry, target, origin, txref, cmd),
            asked,
            asker,
            req,
        ) == query_outcome::<C>(registry, asked, asker, req),
        registry.contains_key(target) ==> query_outcome::<C>(
            registry_after_command::<C>(registry, target, origin, txref, cmd),
            target,
            asker,
            req,
        ) == Ok::<<C::Response as View>::V, DispatchError>(
            C::query_response(
                C::next_state(registry[target], origin, txref, cmd),
                asker,
                req,
            ),
        ),
{
}

/// Under an identity that nothing is registered under, a command and a query
/// both fail with `UnknownContract`, and the command leaves every registered
/// instance as it was.
pub proof fn unknown_identity_is_refused<C: Contract>(
    registry: Map<ContractId, C::V>,
    identity: ContractId,
    origin: AccountId,
    txref: TxRef,
    cmd: <C::Command as View>::V,
    asker: Option<AccountId>,
    req: <C::Request as View>::V,
)
    requires
        !registry.contains_key(identity),
    ensures
        command_outcome::<C>(registry, identity, origin, txref, cmd) == Err::<
            TransactionStatus,
            DispatchError,
        >(DispatchError::UnknownContract),
        registry_after_command::<C>(registry, identity, origin, txref, cmd) == registry,
        query_outcome::<C>(registry, identity, asker, req) == Err::<
            <C::Response as View>::V,
            DispatchError,
        >(DispatchError::UnknownContract),
{
}

/// Registering an identity a second time fails with `DuplicateIdentity`, and
/// the instance registered first stays bound, in the state it was in.
pub proof fn duplicate_registration_is_refused<C: Contract>(
    registry: Map<ContractId, C::V>,
    identity: ContractId,
    first: C::V,
    second: C::V,
)
    requires
        !registry.contains_key(identity),
    ensures
        ({
            let once = registry_after_register::<C>(registry, identity, first);
            &&& register_outcome::<C>(registry, identity) == Ok::<(), DispatchError>(())
            &&& register_outcome::<C>(once, identity) == Err::<(), DispatchError>(
                DispatchError::DuplicateIdentity,
            )
            &&& registry_after_register::<C>(once, identity, second) == once
            &&& once[identity] == first
        }),
{
}

/// Bindings are never lost: every identity that is bound stays bound through a
/// registration and through a command, and only the instance that a command
/// addresses changes state.
pub proof fn bindings_are_kept<C: Contract>(
    registry: Map<ContractId, C::V>,
    identity: ContractId,
    state: C::V,
    origin: AccountId,
    txref: TxRef,
    cmd: <C::Command as View>::V,
    other: ContractId,
)
    requires
        registry.contains_key(other),
    ensures
        registry_after_register::<C>(registry, identity, state).contains_key(other),
        registry_after_register::<C>(registry, identity, state)[other] == registry[other],
        registry_after_command::<C>(registry, identity, origin, txref, cmd).contains_key(other),
        other != identity ==> registry_after_command::<C>(
            registry,
            identity,
            origin,
            txref,
            cmd,
        )[other] == registry[other],
        registry_after_command::<C>(registry, identity, origin, txref, cmd).dom() == registry.dom(),
{
}

} // verus!
