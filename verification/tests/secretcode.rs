use confidential_contracts::contracts::secretcode::{Command, Error, Request, Response, SecretCode};
use confidential_contracts::contracts::{apply_log, Contract, LogEntry, SECRET_CODE};
use confidential_contracts::types::{AccountId, TransactionStatus, TxRef};

fn alice() -> AccountId {
    AccountId([0xa1; 32])
}

fn bob() -> AccountId {
    AccountId([0xb0; 32])
}

fn show(code: &str) -> Command {
    Command::Show { codestr: String::from(code) }
}

fn code(text: &str) -> Response {
    Response::GetCode { code: String::from(text) }
}

fn entry(origin: AccountId, blocknum: u32, index: u64, text: &str) -> LogEntry<Command> {
    LogEntry { origin, txref: TxRef { blocknum, index }, command: show(text) }
}

#[test]
fn fresh_instance_holds_the_empty_code() {
    let contract = SecretCode::new();
    assert_eq!(contract.handle_query(None, Request::GetCode), code(""));
}

#[test]
fn default_is_a_fresh_instance() {
    let contract = SecretCode::default();
    assert_eq!(contract.handle_query(None, Request::GetCode), code(""));
}

#[test]
fn id_is_secret_code() {
    assert_eq!(SecretCode::new().id(), SECRET_CODE);
    assert_eq!(SECRET_CODE, 5);
}

#[test]
fn id_stays_through_commands() {
    let mut contract = SecretCode::new();
    let before = contract.id();
    contract.handle_command(&alice(), &TxRef { blocknum: 3, index: 1 }, show("x"));
    assert_eq!(contract.id(), before);
}

#[test]
fn show_sets_the_code_and_succeeds() {
    let mut contract = SecretCode::new();
    let status = contract.handle_command(&alice(), &TxRef { blocknum: 1, index: 0 }, show("hunter2"));
    assert_eq!(status, TransactionStatus::Success);
    assert_eq!(contract.handle_query(None, Request::GetCode), code("hunter2"));
}

#[test]
fn show_replaces_what_stood_there() {
    let mut contract = SecretCode::new();
    contract.handle_command(&alice(), &TxRef { blocknum: 1, index: 0 }, show("first"));
    contract.handle_command(&bob(), &TxRef { blocknum: 1, index: 1 }, show("second"));
    assert_eq!(contract.handle_query(None, Request::GetCode), code("second"));
}

#[test]
fn show_with_the_empty_string_clears_the_code() {
    let mut contract = SecretCode::new();
    contract.handle_command(&alice(), &TxRef { blocknum: 1, index: 0 }, show("something"));
    let status = contract.handle_command(&alice(), &TxRef { blocknum: 2, index: 0 }, show(""));
    assert_eq!(status, TransactionStatus::Success);
    assert_eq!(contract.handle_query(None, Request::GetCode), code(""));
}

#[test]
fn show_under_a_repeated_txref_is_applied_again() {
    let mut contract = SecretCode::new();
    let t1 = TxRef { blocknum: 9, index: 4 };
    assert_eq!(contract.handle_command(&alice(), &t1, show("one")), TransactionStatus::Success);
    assert_eq!(contract.handle_command(&alice(), &t1, show("two")), TransactionStatus::Success);
    assert_eq!(contract.handle_query(None, Request::GetCode), code("two"));
}

#[test]
fn code_keeps_every_character() {
    let text = "pässwörd \u{1f511} 密码\n\ttab";
    let mut contract = SecretCode::new();
    contract.handle_command(&alice(), &TxRef { blocknum: 0, index: 0 }, show(text));
    assert_eq!(contract.handle_query(None, Request::GetCode), code(text));
}

#[test]
fn get_code_answers_whoever_asks() {
    let mut contract = SecretCode::new();
    contract.handle_command(&alice(), &TxRef { blocknum: 1, index: 0 }, show("shared"));
    let a = alice();
    let b = bob();
    assert_eq!(contract.handle_query(Some(&a), Request::GetCode), code("shared"));
    assert_eq!(contract.handle_query(Some(&b), Request::GetCode), code("shared"));
    assert_eq!(contract.handle_query(None, Request::GetCode), code("shared"));
}

#[test]
fn query_twice_answers_alike() {
    let mut contract = SecretCode::new();
    contract.handle_command(&alice(), &TxRef { blocknum: 1, index: 0 }, show("same"));
    let first = contract.handle_query(None, Request::GetCode);
    let second = contract.handle_query(None, Request::GetCode);
    assert_eq!(first, second);
    assert_eq!(first, code("same"));
}

#[test]
fn query_is_never_an_error_response() {
    let contract = SecretCode::new();
    let resp = contract.handle_query(None, Request::GetCode);
    assert_ne!(resp, Response::Error(Error::NotAuthorized));
    assert_ne!(resp, Response::Error(Error::SomeOtherError));
}

#[test]
fn apply_log_on_an_empty_log_changes_nothing() {
    let mut contract = SecretCode::new();
    contract.handle_command(&alice(), &TxRef { blocknum: 1, index: 0 }, show("kept"));
    let statuses = apply_log(&mut contract, Vec::new());
    assert_eq!(statuses, Vec::<TransactionStatus>::new());
    assert_eq!(contract.handle_query(None, Request::GetCode), code("kept"));
}

#[test]
fn apply_log_applies_every_entry_in_order() {
    let mut contract = SecretCode::new();
    let log = vec![
        entry(alice(), 1, 0, "a"),
        entry(bob(), 1, 1, "b"),
        entry(alice(), 2, 0, "c"),
    ];
    let statuses = apply_log(&mut contract, log);
    assert_eq!(
        statuses,
        vec![TransactionStatus::Success, TransactionStatus::Success, TransactionStatus::Success]
    );
    assert_eq!(contract.handle_query(None, Request::GetCode), code("c"));
}

#[test]
fn apply_log_order_matters() {
    let mut forward = SecretCode::new();
    apply_log(&mut forward, vec![entry(alice(), 1, 0, "a"), entry(alice(), 1, 1, "b")]);
    let mut backward = SecretCode::new();
    apply_log(&mut backward, vec![entry(alice(), 1, 1, "b"), entry(alice(), 1, 0, "a")]);
    assert_eq!(forward.handle_query(None, Request::GetCode), code("b"));
    assert_eq!(backward.handle_query(None, Request::GetCode), code("a"));
}

#[test]
fn replay_on_two_fresh_instances_ends_alike() {
    let log = || {
        vec![
            entry(alice(), 1, 0, "alpha"),
            entry(bob(), 2, 7, "beta"),
            entry(alice(), 2, 8, "gamma"),
            entry(bob(), 5, 0, "delta"),
        ]
    };
    let mut first = SecretCode::new();
    let mut second = SecretCode::new();
    let first_statuses = apply_log(&mut first, log());
    let second_statuses = apply_log(&mut second, log());
    assert_eq!(first_statuses, second_statuses);
    assert_eq!(
        first.handle_query(None, Request::GetCode),
        second.handle_query(None, Request::GetCode)
    );
    assert_eq!(first.handle_query(None, Request::GetCode), code("delta"));
}

#[test]
fn apply_log_equals_one_command_at_a_time() {
    let mut whole = SecretCode::new();
    let whole_statuses =
        apply_log(&mut whole, vec![entry(alice(), 1, 0, "x"), entry(bob(), 1, 1, "y")]);
    let mut stepwise = SecretCode::new();
    let s1 = stepwise.handle_command(&alice(), &TxRef { blocknum: 1, index: 0 }, show("x"));
    let s2 = stepwise.handle_command(&bob(), &TxRef { blocknum: 1, index: 1 }, show("y"));
    assert_eq!(whole_statuses, vec![s1, s2]);
    assert_eq!(
        whole.handle_query(None, Request::GetCode),
        stepwise.handle_query(None, Request::GetCode)
    );
}

#[test]
fn apply_log_in_two_parts_equals_the_whole() {
    let mut whole = SecretCode::new();
    apply_log(
        &mut whole,
        vec![entry(alice(), 1, 0, "p"), entry(alice(), 1, 1, "q"), entry(alice(), 1, 2, "r")],
    );
    let mut parts = SecretCode::new();
    apply_log(&mut parts, vec![entry(alice(), 1, 0, "p")]);
    assert_eq!(parts.handle_query(None, Request::GetCode), code("p"));
    apply_log(&mut parts, vec![entry(alice(), 1, 1, "q"), entry(alice(), 1, 2, "r")]);
    assert_eq!(
        whole.handle_query(None, Request::GetCode),
        parts.handle_query(None, Request::GetCode)
    );
}

#[test]
fn code_after_a_log_ignores_origin_and_position() {
    let mut first = SecretCode::new();
    apply_log(&mut first, vec![entry(alice(), 1, 0, "m"), entry(alice(), 1, 1, "n")]);
    let mut second = SecretCode::new();
    apply_log(&mut second, vec![entry(bob(), 40, 9, "m"), entry(bob(), 41, 3, "n")]);
    assert_eq!(
        first.handle_query(None, Request::GetCode),
        second.handle_query(None, Request::GetCode)
    );
}
