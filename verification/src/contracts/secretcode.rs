//! A contract that keeps one secret string: `Show` replaces it, `GetCode`
//! reads it back.

use vstd::prelude::*;
use crate::contracts::{Contract, LogEntry, SECRET_CODE, state_after};
use crate::types::{AccountId, ContractId, TransactionStatus, TxRef};

verus! {

/// The state of the contract: the code, private to the instance.
#[derive(Debug)]
pub struct SecretCode {
    codev: String,
}

impl View for SecretCode {
    type V = Seq<char>;

    /// The code that the instance holds.
    closed spec fn view(&self) -> Seq<char> {
        self.codev@
    }
}

impl Default for SecretCode {
    /// An instance that holds the empty code.
    fn default() -> (contract: Self)
        ensures
            contract@ == Seq::<char>::empty(),
    {
        SecretCode { codev: String::new() }
    }
}

/// What the chain may tell the contract to do.
#[derive(Debug, PartialEq, Eq)]
pub enum Command {
    /// Replace the code by `codestr`.
    Show { codestr: String },
}

/// A command with its string as a sequence of characters.
pub enum CommandView {
    Show { codestr: Seq<char> },
}

impl View for Command {
    type V = CommandView;

    open spec fn view(&self) -> CommandView {
        match self {
            Command::Show { codestr } => CommandView::Show { codestr: codestr@ },
        }
    }
}

/// The ways in which a query can fail inside the contract.
#[derive(Debug, Clone, Copy, PartialEq, Eq)]
pub enum Error {
    NotAuthorized,
    SomeOtherError,
}

/// What a caller may ask the contract.
#[derive(Debug, Clone, Copy, PartialEq, Eq)]
pub enum Request {
    /// Ask for the code.
    GetCode,
}

impl View for Request {
    type V = Request;

    open spec fn view(&self) -> Request {
        *self
    }
}

/// What the contract answers.
#[derive(Debug, PartialEq, Eq)]
pub enum Response {
    /// The code as it stands.
    GetCode { code: String },
    /// The query failed inside the contract, for the reason given.
    Error(Error),
}

/// A response with its string as a sequence of characters.
pub enum ResponseView {
    GetCode { code: Seq<char> },
    Error(Error),
}

impl View for Response {
    type V = ResponseView;

    open spec fn view(&self) -> ResponseView {
        match self {
            Response::GetCode { code } => ResponseView::GetCode { code: code@ },
            Response::Error(error) => ResponseView::Error(*error),
        }
    }
}

/// The code that a command sets.
pub open spec fn code_of(cmd: CommandView) -> Seq<char> {
    match cmd {
        CommandView::Show { codestr } => codestr,
    }
}

impl SecretCode {
    /// A fresh instance: its code is the empty string.
    pub fn new() -> (contract: Self)
        ensures
            contract@ == Seq::<char>::empty(),
    {
        Default::default()
    }

    /// The answer to a request before a failure is folded into the response.
    fn answer(&self, req: Request) -> (outcome: Result<Response, Error>)
        ensures
            outcome matches Ok(resp) && resp@ == (ResponseView::GetCode { code: self@ }),
    {
        match req {
            Request::GetCode => Ok(Response::GetCode { code: self.codev.clone() }),
        }
    }
}

impl Contract for SecretCode {
    type Command = Command;

    type Request = Request;

    type Response = Response;

    /// Every instance goes by `SECRET_CODE`.
    open spec fn spec_id(&self) -> ContractId {
        SECRET_CODE
    }

    /// `Show` replaces the code, whoever sent it and whatever stood there.
    open spec fn next_state(state: Seq<char>, origin: AccountId, txref: TxRef, cmd: CommandView) -> Seq<
        char,
    > {
        code_of(cmd)
    }

    /// Every command succeeds.
    open spec fn command_status(
        state: Seq<char>,
        origin: AccountId,
        txref: TxRef,
        cmd: CommandView,
    ) -> TransactionStatus {
        TransactionStatus::Success
    }

    /// `GetCode` is answered with the code, whoever asks.
    open spec fn query_response(
        state: Seq<char>,
        origin: Option<AccountId>,
        req: Request,
    ) -> ResponseView {
        match req {
            Request::GetCode => ResponseView::GetCode { code: state },
        }
    }

    fn id(&self) -> (cid: ContractId) {
        SECRET_CODE
    }

    fn handle_command(&mut self, _origin: &AccountId, _txref: &TxRef, cmd: Command) -> (status:
        TransactionStatus) {
        match cmd {
            Command::Show { codestr } => {
                self.codev = codestr;
                TransactionStatus::Success
            },
        }
    }

    fn handle_query(&self, _origin: Option<&AccountId>, req: Request) -> (resp: Response) {
        match self.answer(req) {
            Err(error) => Response::Error(error),
            Ok(resp) => resp,
        }
    }
}

/// The code after a log is the one that the last command set, or the code the
/// instance started with where the log is empty: it depends on the commands and
/// their order alone, not on who sent them or where they stood in the chain.
pub proof fn code_after_log(state: Seq<char>, log: Seq<LogEntry<CommandView>>)
    ensures
        state_after::<SecretCode>(state, log) == if log.len() == 0 {
            state
        } else {
            code_of(log.last().command)
        },
{
}

} // verus!
