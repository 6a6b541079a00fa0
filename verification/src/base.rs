//! The base policy module: the minimal module an account can install.  Its
//! two hooks admit every transaction; they only enforce that the account
//! itself invoked them.

use vstd::prelude::*;

use crate::account::{AfterExecute, Any, CallInfo, PreExecute};
use crate::error::ContractError;

verus! {

/// Instantiation input of the base module.  The controlling identity is the
/// instantiating caller, so nothing is configured here.
#[derive(Debug)]
pub struct InstantiateMsg {}

/// The operations the base module accepts through the host's privileged
/// path: the two mandatory hooks.
pub enum SudoMsg {
    /// The mandatory after-execute hook.
    AfterExecute(AfterExecute),
    /// The mandatory pre-execute hook.
    PreExecute(PreExecute),
}

/// Migration input.  The module keeps no versioned state, so the only
/// request changes nothing.
pub enum MigrateMsg {
    /// Keep the stored state exactly as it is.
    Noop,
}

/// Handles one migration request: the module keeps no versioned state, so
/// every request is accepted and changes nothing.
pub fn migrate(_msg: MigrateMsg) -> (r: Result<(), ContractError>)
    ensures
        r == Ok::<(), ContractError>(()),
{
    Ok(())
}

/// Per-account state of the base module: the owner identity, kept for later
/// administrative updates.
pub struct BaseState {
    pub owner: String,
}

/// Builds the state a fresh base account starts from: the instantiating
/// caller becomes the owner.
pub fn instantiate(sender: String, _msg: &InstantiateMsg) -> (s: BaseState)
    ensures
        s.owner == sender,
{
    BaseState { owner: sender }
}

/// The pre-execute hook of the base module: it admits every transaction,
/// enforcing only that the account itself invoked it.
pub fn pre_execute(
    sender: &String,
    account: &String,
    _msgs: &Vec<Any>,
    _call_info: &CallInfo,
    _is_authz: bool,
) -> (r: Result<(), ContractError>)
    ensures
        (r is Ok) == (sender@ == account@),
        r is Err ==> r == Err::<(), ContractError>(ContractError::Unauthorized),
{
    if *sender == *account {
        Ok(())
    } else {
        Err(ContractError::Unauthorized)
    }
}

/// The after-execute hook of the base module: it admits every outcome,
/// enforcing only that the account itself invoked it.
pub fn after_execute(
    sender: &String,
    account: &String,
    _msgs: &Vec<Any>,
    _call_info: &CallInfo,
    _is_authz: bool,
) -> (r: Result<(), ContractError>)
    ensures
        (r is Ok) == (sender@ == account@),
        r is Err ==> r == Err::<(), ContractError>(ContractError::Unauthorized),
{
    if *sender == *account {
        Ok(())
    } else {
        Err(ContractError::Unauthorized)
    }
}

/// Dispatches one privileged invocation.  `sender` is the caller the host
/// authenticated and `account` the account's own address.
pub fn sudo(sender: &String, account: &String, msg: SudoMsg) -> (r: Result<(), ContractError>)
    ensures
        (r is Ok) == (sender@ == account@),
        r is Err ==> r == Err::<(), ContractError>(ContractError::Unauthorized),
{
    match msg {
        SudoMsg::AfterExecute(a) => after_execute(sender, account, &a.msgs, &a.call_info, a.is_authz),
        SudoMsg::PreExecute(p) => pre_execute(sender, account, &p.msgs, &p.call_info, p.is_authz),
    }
}

} // verus!
