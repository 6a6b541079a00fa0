use smart_account::account::{AfterExecute, Any, CallInfo, PreExecute};
use smart_account::base::{
    after_execute, instantiate, migrate, pre_execute, sudo, InstantiateMsg, MigrateMsg, SudoMsg,
};
use smart_account::error::ContractError;

fn account_addr() -> String {
    "aura1account".to_string()
}

fn call_info() -> CallInfo {
    CallInfo { fee: vec![], gas: 100_000, fee_payer: account_addr(), fee_granter: String::new() }
}

#[test]
fn instantiate_records_sender_as_owner() {
    let state = instantiate("aura1deployer".to_string(), &InstantiateMsg {});
    assert_eq!(state.owner, "aura1deployer");
}

#[test]
fn hooks_admit_the_account_itself() {
    let account = account_addr();
    let msgs: Vec<Any> = vec![Any {
        type_url: "/cosmos.bank.v1beta1.MsgSend".to_string(),
        value: vec![1, 2],
    }];
    let info = call_info();
    assert!(pre_execute(&account, &account, &msgs, &info, false).is_ok());
    assert!(after_execute(&account, &account, &msgs, &info, true).is_ok());
}

#[test]
fn hooks_reject_every_other_caller() {
    let account = account_addr();
    let intruder = "aura1intruder".to_string();
    let msgs: Vec<Any> = vec![];
    let info = call_info();
    assert_eq!(
        pre_execute(&intruder, &account, &msgs, &info, false),
        Err(ContractError::Unauthorized)
    );
    assert_eq!(
        after_execute(&intruder, &account, &msgs, &info, false),
        Err(ContractError::Unauthorized)
    );
}

#[test]
fn migrate_changes_nothing_and_succeeds() {
    assert!(migrate(MigrateMsg::Noop).is_ok());
}

#[test]
fn sudo_dispatches_both_hooks() {
    let account = account_addr();
    let intruder = "aura1intruder".to_string();
    let pre = SudoMsg::PreExecute(PreExecute {
        msgs: vec![],
        call_info: call_info(),
        is_authz: false,
    });
    assert!(sudo(&account, &account, pre).is_ok());
    let after = SudoMsg::AfterExecute(AfterExecute {
        msgs: vec![],
        call_info: call_info(),
        is_authz: false,
    });
    assert_eq!(sudo(&intruder, &account, after), Err(ContractError::Unauthorized));
}
