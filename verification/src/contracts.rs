//! The capability that every contract provides, and what it means to apply a
//! log of commands to one.

use vstd::prelude::*;
use crate::types::{AccountId, ContractId, TransactionStatus, TxRef, origin_of};

pub mod secretcode;

verus! {

/// The identity of the secret code contract.
pub const SECRET_CODE: ContractId = 5;

/// A confidential contract: private state that commands change and queries read.
///
/// The state is spoken of through its view. What a command does to it, the
/// status it reports and what a query answers are spec functions of the state
/// and the arguments alone, so an implementation is deterministic by
/// construction and a query, which borrows the contract shared, leaves the state
/// as it found it. A handler returns on every input: a refusal is a status or a
/// response, never a panic.
pub trait Contract: View + Sized {
    /// The state-changing instructions this contract accepts.
    type Command: View;

    /// The read-only questions this contract answers.
    type Request: View;

    /// The answers, among them one that carries the contract's own error kinds.
    type Response: View;

    /// The identity of this instance.
    spec fn spec_id(&self) -> ContractId;

    /// The state that a command leaves behind.
    spec fn next_state(
        state: Self::V,
        origin: AccountId,
        txref: TxRef,
        cmd: <Self::Command as View>::V,
    ) -> Self::V;

    /// The status that a command reports.
    spec fn command_status(
        state: Self::V,
        origin: AccountId,
        txref: TxRef,
        cmd: <Self::Command as View>::V,
    ) -> TransactionStatus;

    /// The answer to a request.
    spec fn query_response(
        state: Self::V,
        origin: Option<AccountId>,
        req: <Self::Request as View>::V,
    ) -> <Self::Response as View>::V;

    /// Returns the identity of this instance.
    fn id(&self) -> (cid: ContractId)
        ensures
            cid == self.spec_id(),
    ;

    /// Applies one command: the state becomes `next_state` of the state before,
    /// the status is `command_status` of it, and the identity stays.
    fn handle_command(&mut self, origin: &AccountId, txref: &TxRef, cmd: Self::Command) -> (status:
        TransactionStatus)
        ensures
            final(self)@ == Self::next_state(old(self)@, *origin, *txref, cmd@),
            status == Self::command_status(old(self)@, *origin, *txref, cmd@),
            final(self).spec_id() == old(self).spec_id(),
    ;

    /// Answers one request from the state as it is.
    fn handle_query(&self, origin: Option<&AccountId>, req: Self::Request) -> (resp: Self::Response)
        ensures
            resp@ == Self::query_response(self@, origin_of(origin), req@),
    ;
}

/// One command as the chain's log hands it over: who issued it, where in the
/// log it stands, and the command itself. With a command's view in place of the
/// command it is the same entry in a specification.
pub struct LogEntry<T> {
    pub origin: AccountId,
    pub txref: TxRef,
    pub command: T,
}

impl<T: View> View for LogEntry<T> {
    type V = LogEntry<T::V>;

    open spec fn view(&self) -> LogEntry<T::V> {
        LogEntry { origin: self.origin, txref: self.txref, command: self.command@ }
    }
}

/// A log with each of its entries taken by its view.
pub open spec fn log_view<T: View>(log: Seq<LogEntry<T>>) -> Seq<LogEntry<T::V>> {
    log.map_values(|entry: LogEntry<T>| entry@)
}

/// The state that a contract reaches from `state` when the commands of `log`
/// are applied in order, each one once.
pub open spec fn state_after<C: Contract>(
    state: C::V,
    log: Seq<LogEntry<<C::Command as View>::V>>,
) -> C::V
    decreases log.len(),
{
    if log.len() == 0 {
        state
    } else {
        let entry = log.last();
        C::next_state(
            state_after::<C>(state, log.drop_last()),
            entry.origin,
            entry.txref,
            entry.command,
        )
    }
}

/// The status that each command of `log` reports when the log is applied in
/// order to a contract in `state`.
pub open spec fn statuses_of<C: Contract>(
    state: C::V,
    log: Seq<LogEntry<<C::Command as View>::V>>,
) -> Seq<TransactionStatus> {
    Seq::new(
        log.len(),
        |i: int|
            C::command_status(
                state_after::<C>(state, log.take(i)),
                log[i].origin,
                log[i].txref,
                log[i].command,
            ),
    )
}

/// Applies the commands of `log` to `contract` in the order of the log, one at
/// a time and none left out, and returns the status of each.
pub fn apply_log<C: Contract>(contract: &mut C, log: Vec<LogEntry<C::Command>>) -> (statuses: Vec<
    TransactionStatus,
>)
    ensures
        final(contract)@ == state_after::<C>(old(contract)@, log_view(log@)),
        statuses@ == statuses_of::<C>(old(contract)@, log_view(log@)),
        final(contract).spec_id() == old(contract).spec_id(),
{
    let ghost entries = log_view(log@);
    let mut statuses: Vec<TransactionStatus> = Vec::new();
    for entry in it: log.into_iter()
        invariant
            it.seq() == log@,
            entries == log_view(log@),
            contract@ == state_after::<C>(old(contract)@, entries.take(it.index() as int)),
            contract.spec_id() == old(contract).spec_id(),
            statuses@ == statuses_of::<C>(old(contract)@, entries).take(it.index() as int),
    {
        let ghost done = it.index() as int;
        assert(entries.take(done + 1).drop_last() == entries.take(done));
        let status = contract.handle_command(&entry.origin, &entry.txref, entry.command);
        statuses.push(status);
    }
    assert(entries.take(entries.len() as int) == entries);
    statuses
}

/// Replay is deterministic: two instances that start in the same state and are
/// given the same log end in the same state and report the same statuses.
pub proof fn replay_is_deterministic<C: Contract>(
    first: C,
    second: C,
    first_log: Seq<LogEntry<C::Command>>,
    second_log: Seq<LogEntry<C::Command>>,
)
    requires
        first@ == second@,
        log_view(first_log) == log_view(second_log),
    ensures
        state_after::<C>(first@, log_view(first_log)) == state_after::<C>(
            second@,
            log_view(second_log),
        ),
        statuses_of::<C>(first@, log_view(first_log)) == statuses_of::<C>(
            second@,
            log_view(second_log),
        ),
{
}

/// Asking a contract twice with no command in between is answered twice alike:
/// a query leaves the state as it is, and its answer is a function of the
/// state, the asker and the request.
pub proof fn query_is_idempotent<C: Contract>(
    state: C::V,
    asker: Option<AccountId>,
    req: <C::Request as View>::V,
    first: <C::Response as View>::V,
    second: <C::Response as View>::V,
)
    requires
        first == C::query_response(state, asker, req),
        second == C::query_response(state, asker, req),
    ensures
        first == second,
{
}

/// Applying a log in two parts, the second where the first left off, reaches
/// the state that applying the whole log reaches.
pub proof fn state_after_concat<C: Contract>(
    state: C::V,
    first: Seq<LogEntry<<C::Command as View>::V>>,
    second: Seq<LogEntry<<C::Command as View>::V>>,
)
    ensures
        state_after::<C>(state, first + second) == state_after::<C>(
            state_after::<C>(state, first),
            second,
        ),
    decreases second.len(),
{
    if second.len() > 0 {
        state_after_concat::<C>(state, first, second.drop_last());
        assert((first + second).drop_last() == first + second.drop_last());
    }
}

/// A query finds only states that stand between whole commands. Cut a log at
/// any entry `k`: the state a query meets there is the one from which the rest
/// of the log leads to the end state. Next to a single command, what the query
/// is answered is the answer on the state before the command or the answer on
/// the state after it, never one on a state in between.
pub proof fn queries_see_whole_commands<C: Contract>(
    state: C::V,
    log: Seq<LogEntry<<C::Command as View>::V>>,
    k: int,
    asker: Option<AccountId>,
    req: <C::Request as View>::V,
)
    requires
        0 <= k <= log.len(),
    ensures
        state_after::<C>(state, log) == state_after::<C>(
            state_after::<C>(state, log.take(k)),
            log.skip(k),
        ),
        log.len() == 1 ==> ({
            let seen = C::query_response(state_after::<C>(state, log.take(k)), asker, req);
            let before = C::query_response(state, asker, req);
            let after = C::query_response(
                C::next_state(state, log[0].origin, log[0].txref, log[0].command),
                asker,
                req,
            );
            seen == before || seen == after
        }),
{
    assert(log.take(k) + log.skip(k) == log);
    state_after_concat::<C>(state, log.take(k), log.skip(k));
    if log.len() == 1 && k == 1 {
        assert(state_after::<C>(state, log.drop_last()) == state);
    }
}

} // verus!
