//! The four entry points: each selects the ledger routine for its message and
//! hands the message's fields to it.

use vstd::prelude::*;
use cosmwasm_std::{Binary, Env, MessageInfo, Response, StdError};
use cw20_base::msg::InstantiateMsg;
use cw20_base::ContractError;
use crate::amounts::{has_room, room, total, total_fits};
use crate::host::{opt_text, stored, Host, HostView};
use crate::ledger::{
    all_accounts_answer, all_accounts_encoding, all_allowances_answer, all_allowances_encoding,
    allowance_answer, allowance_encoding, balance_answer, balance_encoding, burn_from_outcome,
    burn_outcome, decrease_allowance_outcome, download_logo_answer, download_logo_encoding,
    encode_all_accounts, encode_all_allowances, encode_allowance, encode_balance,
    encode_download_logo, encode_marketing_info, encode_minter, encode_token_info,
    generic_failure, granted, holding, host_failure, identity_key, identity_outcome,
    identity_record, increase_allowance_outcome, instantiate_outcome, is_empty_response,
    ledger_all_accounts, ledger_all_allowances, ledger_allowance, ledger_allowance_record,
    ledger_balance, ledger_balance_amount, ledger_burn, ledger_burn_from,
    ledger_checked_address, ledger_decrease_allowance, ledger_download_logo,
    ledger_empty_response, ledger_error, ledger_generic_error, ledger_increase_allowance,
    ledger_instantiate, ledger_marketing_info, ledger_mint, ledger_minter,
    ledger_opening_amounts, ledger_read, ledger_send, ledger_send_from, ledger_set_identity,
    ledger_supply_amount, ledger_token_info, ledger_transfer, ledger_transfer_from,
    ledger_update_marketing, ledger_upload_logo, ledger_view, marketing_info_answer,
    marketing_info_encoding, mint_outcome, minter_answer, minter_encoding, opening_amounts,
    send_from_outcome, send_outcome, supply, token_info_answer, token_info_encoding,
    transfer_from_outcome, transfer_outcome, update_marketing_outcome, upload_logo_outcome,
    viewed,
};
use crate::msg::{ExecuteMsg, MigrateMsg, QueryMsg};

verus! {

/// The name under which the contract records itself.
pub const CONTRACT_NAME: &'static str = "crates.io:mide";

/// The version under which the contract records itself.
pub const CONTRACT_VERSION: &'static str = "0.1.0";

/// The message of the error that refuses a second identity.
pub const IDENTITY_CONFLICT: &'static str = "contract identity already set";

/// The storage and the result after the attempt to record the identity in
/// `host`: where an identity is there already, the storage as it was and the
/// error that says so; otherwise what the write leaves and returns.
pub open spec fn recorded(host: Host<'_>) -> (Host<'_>, Result<(), StdError>) {
    if stored(host).contains_key(identity_key()) {
        (host, Err(generic_failure(IDENTITY_CONFLICT@)))
    } else {
        identity_outcome(host, CONTRACT_NAME@, CONTRACT_VERSION@)
    }
}

/// What is left and returned once the identity has been recorded with the
/// result `written`: after a failure its error, in the ledger's error type, and
/// the storage as it was; after a success what the ledger's own initialisation
/// leaves and returns.
pub open spec fn initialised(
    host: Host<'_>,
    written: Result<(), StdError>,
    env: Env,
    info: MessageInfo,
    msg: InstantiateMsg,
) -> (Host<'_>, Result<Response, ContractError>) {
    match written {
        Ok(_) => instantiate_outcome(host, env, info, msg),
        Err(e) => (host, Err(host_failure(e))),
    }
}

/// What instantiation leaves and returns: the identity is recorded first, and
/// the rest goes by the result of that.
pub open spec fn instantiated(host: Host<'_>, env: Env, info: MessageInfo, msg: InstantiateMsg) -> (
    Host<'_>,
    Result<Response, ContractError>,
) {
    initialised(recorded(host).0, recorded(host).1, env, info, msg)
}

/// Whether the storage holds an identity record.
pub fn has_identity(host: &Host) -> (r: bool)
    ensures
        r == stored(*host).contains_key(identity_key()),
{
    let key: Vec<u8> = vec![
        99u8, 111u8, 110u8, 116u8, 114u8, 97u8, 99u8, 116u8, 95u8, 105u8, 110u8, 102u8, 111u8,
    ];
    assert(key@ =~= identity_key());
    ledger_read(host, &key).is_some()
}

/// Records the contract's name and version in the storage, once: where the
/// storage holds an identity already, it fails and leaves the storage as it
/// was; on success the storage holds one record more, and every other record
/// as before.
pub fn record_identity(host: &mut Host) -> (r: Result<(), StdError>)
    ensures
        (*final(host), r) == recorded(*old(host)),
        stored(*old(host)).contains_key(identity_key()) ==> r == Err::<(), StdError>(
            generic_failure(IDENTITY_CONFLICT@),
        ) && *final(host) == *old(host),
        r is Ok ==> !stored(*old(host)).contains_key(identity_key()) && stored(*final(host))
            == stored(*old(host)).insert(
            identity_key(),
            identity_record(CONTRACT_NAME@, CONTRACT_VERSION@),
        ),
        r is Err ==> stored(*final(host)) == stored(*old(host)),
{
    if has_identity(host) {
        Err(ledger_generic_error(IDENTITY_CONFLICT))
    } else {
        ledger_set_identity(host, CONTRACT_NAME, CONTRACT_VERSION)
    }
}

/// Whether the initial balances of `msg` sum up within the range of amounts.
/// The ledger's initialisation aborts where it reaches a sum out of that range.
/// The bound is conservative: it also leaves out messages that the ledger
/// refuses before it sums, for their name, symbol, decimals or addresses.
pub open spec fn opening_fits(msg: InstantiateMsg) -> bool {
    total(opening_amounts(msg)) <= u128::MAX
}

/// The second half of instantiation: hands a failure to record the identity
/// back, and after a success lets the ledger initialise the token.
pub fn initialise(
    host: &mut Host,
    written: Result<(), StdError>,
    env: Env,
    info: MessageInfo,
    msg: InstantiateMsg,
) -> (r: Result<Response, ContractError>)
    requires
        written is Ok ==> opening_fits(msg),
    ensures
        (*final(host), r) == initialised(*old(host), written, env, info, msg),
        written is Err ==> r is Err && *final(host) == *old(host),
{
    match written {
        Ok(_) => ledger_instantiate(host, env, info, msg),
        Err(e) => Err(ledger_error(e)),
    }
}

/// Records the contract's identity, then lets the ledger initialise the token.
/// Where the storage holds an identity already, or the write fails, it returns
/// the error in the ledger's error type and the ledger is not called. Where the
/// identity is recorded, the initial balances must sum up within the range of
/// amounts: [`try_instantiate`] tests that first. Whatever the message holds,
/// the storage that the ledger's initialisation starts from holds the records
/// that were there before and, under the identity key, the record of the
/// contract's own name and version. The ledger's initialisation then records
/// its own identity under the same key.
pub fn instantiate(host: &mut Host, env: Env, info: MessageInfo, msg: InstantiateMsg) -> (r: Result<
    Response,
    ContractError,
>)
    requires
        recorded(*old(host)).1 is Ok ==> opening_fits(msg),
    ensures
        (*final(host), r) == instantiated(*old(host), env, info, msg),
        stored(*old(host)).contains_key(identity_key()) ==> r == Err::<Response, ContractError>(
            host_failure(generic_failure(IDENTITY_CONFLICT@)),
        ) && *final(host) == *old(host),
        recorded(*old(host)).1 is Ok ==> stored(recorded(*old(host)).0) == stored(
            *old(host),
        ).insert(identity_key(), identity_record(CONTRACT_NAME@, CONTRACT_VERSION@)),
        recorded(*old(host)).1 is Err ==> r == Err::<Response, ContractError>(
            host_failure(recorded(*old(host)).1->Err_0),
        ) && stored(*final(host)) == stored(*old(host)),
{
    let written = record_identity(host);
    initialise(host, written, env, info, msg)
}

/// Instantiates where the storage holds an identity already, so that nothing
/// is summed, or the initial balances sum up within the range of amounts; and
/// otherwise does nothing and returns `None`.
pub fn try_instantiate(host: &mut Host, env: Env, info: MessageInfo, msg: InstantiateMsg) -> (r:
    Option<Result<Response, ContractError>>)
    ensures
        stored(*old(host)).contains_key(identity_key()) || opening_fits(msg) ==> r is Some && (
            *final(host),
            r->0,
        ) == instantiated(*old(host), env, info, msg),
        !stored(*old(host)).contains_key(identity_key()) && !opening_fits(msg) ==> r is None
            && *final(host) == *old(host),
{
    let amounts = ledger_opening_amounts(&msg);
    if total_fits(&amounts) || has_identity(host) {
        Some(instantiate(host, env, info, msg))
    } else {
        None
    }
}

/// The balance that the ledger holds for `address`, where it can be read.
fn held(host: &Host, address: &String) -> (r: Option<u128>)
    ensures
        r == holding(*host, address@),
{
    match ledger_balance(ledger_view(host), address.clone()) {
        Ok(answer) => Some(ledger_balance_amount(&answer)),
        Err(_) => None,
    }
}

/// The allowance that `spender` has on the caller's balance, where it can be
/// read.
fn allowed(host: &Host, info: &MessageInfo, spender: &String) -> (r: Option<u128>)
    ensures
        r == granted(viewed(*host), *info, spender@),
{
    match ledger_checked_address(ledger_view(host), spender) {
        Some(address) => match ledger_allowance_record(ledger_view(host), info, &address) {
            Some(Some(amount)) => Some(amount),
            Some(None) => Some(0),
            None => None,
        },
        None => None,
    }
}

/// The token's total supply, where it can be read.
fn minted(host: &Host) -> (r: Option<u128>)
    ensures
        r == supply(*host),
{
    match ledger_token_info(ledger_view(host)) {
        Ok(answer) => Some(ledger_supply_amount(&answer)),
        Err(_) => None,
    }
}

/// Whether every sum that the ledger may form for the command stays within the
/// range of amounts: the receiving balance and `amount` for a transfer or a
/// send, also from an allowance; the supply and the receiving balance for a
/// mint; the allowance and `amount` for an increase. The ledger aborts where it
/// reaches a sum out of that range. A balance, supply or allowance that cannot
/// be read sets no bound: the ledger then fails before it adds. The bound is
/// conservative: it also leaves out commands that the ledger refuses before it
/// adds, for want of funds or of the right to mint, and a transfer to oneself.
pub open spec fn within_range(host: Host<'_>, info: MessageInfo, msg: ExecuteMsg) -> bool {
    match msg {
        ExecuteMsg::Transfer { recipient, amount } => room(holding(host, recipient@), amount),
        ExecuteMsg::Send { contract, amount, msg } => room(holding(host, contract@), amount),
        ExecuteMsg::Mint { recipient, amount } => room(supply(host), amount) && room(
            holding(host, recipient@),
            amount,
        ),
        ExecuteMsg::IncreaseAllowance { spender, amount, expires } => room(
            granted(viewed(host), info, spender@),
            amount,
        ),
        ExecuteMsg::TransferFrom { owner, recipient, amount } => room(
            holding(host, recipient@),
            amount,
        ),
        ExecuteMsg::SendFrom { owner, contract, amount, msg } => room(
            holding(host, contract@),
            amount,
        ),
        _ => true,
    }
}

/// Tests [`within_range`] by asking the ledger.
pub fn fits(host: &Host, info: &MessageInfo, msg: &ExecuteMsg) -> (r: bool)
    ensures
        r == within_range(*host, *info, *msg),
{
    match msg {
        ExecuteMsg::Transfer { recipient, amount } => has_room(held(host, recipient), *amount),
        ExecuteMsg::Send { contract, amount, msg: _ } => has_room(held(host, contract), *amount),
        ExecuteMsg::Mint { recipient, amount } => has_room(minted(host), *amount) && has_room(
            held(host, recipient),
            *amount,
        ),
        ExecuteMsg::IncreaseAllowance { spender, amount, expires: _ } => has_room(
            allowed(host, info, spender),
            *amount,
        ),
        ExecuteMsg::TransferFrom { owner: _, recipient, amount } => has_room(
            held(host, recipient),
            *amount,
        ),
        ExecuteMsg::SendFrom { owner: _, contract, amount, msg: _ } => has_room(
            held(host, contract),
            *amount,
        ),
        _ => true,
    }
}

/// What a command leaves and returns: what the ledger routine of the command's
/// variant leaves and returns on the command's fields.
pub open spec fn executed(host: Host<'_>, env: Env, info: MessageInfo, msg: ExecuteMsg) -> (
    Host<'_>,
    Result<Response, ContractError>,
) {
    match msg {
        ExecuteMsg::Transfer { recipient, amount } => transfer_outcome(
            host,
            env,
            info,
            recipient@,
            amount,
        ),
        ExecuteMsg::Burn { amount } => burn_outcome(host, env, info, amount),
        ExecuteMsg::Send { contract, amount, msg } => send_outcome(
            host,
            env,
            info,
            contract@,
            amount,
            msg,
        ),
        ExecuteMsg::Mint { recipient, amount } => mint_outcome(host, env, info, recipient@, amount),
        ExecuteMsg::IncreaseAllowance { spender, amount, expires } => increase_allowance_outcome(
            host,
            env,
            info,
            spender@,
            amount,
            expires,
        ),
        ExecuteMsg::DecreaseAllowance { spender, amount, expires } => decrease_allowance_outcome(
            host,
            env,
            info,
            spender@,
            amount,
            expires,
        ),
        ExecuteMsg::TransferFrom { owner, recipient, amount } => transfer_from_outcome(
            host,
            env,
            info,
            owner@,
            recipient@,
            amount,
        ),
        ExecuteMsg::BurnFrom { owner, amount } => burn_from_outcome(
            host,
            env,
            info,
            owner@,
            amount,
        ),
        ExecuteMsg::SendFrom { owner, contract, amount, msg } => send_from_outcome(
            host,
            env,
            info,
            owner@,
            contract@,
            amount,
            msg,
        ),
        ExecuteMsg::UpdateMarketing { project, description, marketing } => update_marketing_outcome(
            host,
            env,
            info,
            opt_text(project),
            opt_text(description),
            opt_text(marketing),
        ),
        ExecuteMsg::UploadLogo(logo) => upload_logo_outcome(host, env, info, logo),
    }
}

/// Hands a command to the ledger routine of its variant. The sums that the
/// routine forms must stay within the range of amounts: [`try_execute`] tests
/// that first.
pub fn execute(host: &mut Host, env: Env, info: MessageInfo, msg: ExecuteMsg) -> (r: Result<
    Response,
    ContractError,
>)
    requires
        within_range(*old(host), info, msg),
    ensures
        (*final(host), r) == executed(*old(host), env, info, msg),
{
    match msg {
        ExecuteMsg::Transfer { recipient, amount } => ledger_transfer(
            host,
            env,
            info,
            recipient,
            amount,
        ),
        ExecuteMsg::Burn { amount } => ledger_burn(host, env, info, amount),
        ExecuteMsg::Send { contract, amount, msg } => ledger_send(
            host,
            env,
            info,
            contract,
            amount,
            msg,
        ),
        ExecuteMsg::Mint { recipient, amount } => ledger_mint(host, env, info, recipient, amount),
        ExecuteMsg::IncreaseAllowance { spender, amount, expires } => ledger_increase_allowance(
            host,
            env,
            info,
            spender,
            amount,
            expires,
        ),
        ExecuteMsg::DecreaseAllowance { spender, amount, expires } => ledger_decrease_allowance(
            host,
            env,
            info,
            spender,
            amount,
            expires,
        ),
        ExecuteMsg::TransferFrom { owner, recipient, amount } => ledger_transfer_from(
            host,
            env,
            info,
            owner,
            recipient,
            amount,
        ),
        ExecuteMsg::BurnFrom { owner, amount } => ledger_burn_from(host, env, info, owner, amount),
        ExecuteMsg::SendFrom { owner, contract, amount, msg } => ledger_send_from(
            host,
            env,
            info,
            owner,
            contract,
            amount,
            msg,
        ),
        ExecuteMsg::UpdateMarketing { project, description, marketing } => ledger_update_marketing(
            host,
            env,
            info,
            project,
            description,
            marketing,
        ),
        ExecuteMsg::UploadLogo(logo) => ledger_upload_logo(host, env, info, logo),
    }
}

/// Executes the command where [`within_range`] holds, and otherwise does
/// nothing and returns `None`.
pub fn try_execute(host: &mut Host, env: Env, info: MessageInfo, msg: ExecuteMsg) -> (r: Option<
    Result<Response, ContractError>,
>)
    ensures
        within_range(*old(host), info, msg) ==> r is Some && (*final(host), r->0) == executed(
            *old(host),
            env,
            info,
            msg,
        ),
        !within_range(*old(host), info, msg) ==> r is None && *final(host) == *old(host),
{
    if fits(host, &info, &msg) {
        Some(execute(host, env, info, msg))
    } else {
        None
    }
}

/// The answer to a question: the encoding of what the ledger routine of the
/// question's variant returns on the question's fields, or that routine's
/// error.
pub open spec fn answered(view: HostView<'_>, msg: QueryMsg) -> Result<Binary, StdError> {
    match msg {
        QueryMsg::Balance { address } => match balance_answer(view, address@) {
            Ok(answer) => balance_encoding(answer),
            Err(e) => Err(e),
        },
        QueryMsg::TokenInfo {} => match token_info_answer(view) {
            Ok(answer) => token_info_encoding(answer),
            Err(e) => Err(e),
        },
        QueryMsg::Minter {} => match minter_answer(view) {
            Ok(answer) => minter_encoding(answer),
            Err(e) => Err(e),
        },
        QueryMsg::Allowance { owner, spender } => match allowance_answer(view, owner@, spender@) {
            Ok(answer) => allowance_encoding(answer),
            Err(e) => Err(e),
        },
        QueryMsg::AllAllowances { owner, start_after, limit } => match all_allowances_answer(
            view,
            owner@,
            opt_text(start_after),
            limit,
        ) {
            Ok(answer) => all_allowances_encoding(answer),
            Err(e) => Err(e),
        },
        QueryMsg::AllAccounts { start_after, limit } => match all_accounts_answer(
            view,
            opt_text(start_after),
            limit,
        ) {
            Ok(answer) => all_accounts_encoding(answer),
            Err(e) => Err(e),
        },
        QueryMsg::MarketingInfo {} => match marketing_info_answer(view) {
            Ok(answer) => marketing_info_encoding(answer),
            Err(e) => Err(e),
        },
        QueryMsg::DownloadLogo {} => match download_logo_answer(view) {
            Ok(answer) => download_logo_encoding(answer),
            Err(e) => Err(e),
        },
    }
}

/// Hands a question to the ledger routine of its variant and encodes the
/// answer.
pub fn query(view: HostView, _env: Env, msg: QueryMsg) -> (r: Result<Binary, StdError>)
    ensures
        r == answered(view, msg),
{
    match msg {
        QueryMsg::Balance { address } => match ledger_balance(view, address) {
            Ok(answer) => encode_balance(&answer),
            Err(e) => Err(e),
        },
        QueryMsg::TokenInfo {} => match ledger_token_info(view) {
            Ok(answer) => encode_token_info(&answer),
            Err(e) => Err(e),
        },
        QueryMsg::Minter {} => match ledger_minter(view) {
            Ok(answer) => encode_minter(&answer),
            Err(e) => Err(e),
        },
        QueryMsg::Allowance { owner, spender } => match ledger_allowance(view, owner, spender) {
            Ok(answer) => encode_allowance(&answer),
            Err(e) => Err(e),
        },
        QueryMsg::AllAllowances { owner, start_after, limit } => match ledger_all_allowances(
            view,
            owner,
            start_after,
            limit,
        ) {
            Ok(answer) => encode_all_allowances(&answer),
            Err(e) => Err(e),
        },
        QueryMsg::AllAccounts { start_after, limit } => match ledger_all_accounts(
            view,
            start_after,
            limit,
        ) {
            Ok(answer) => encode_all_accounts(&answer),
            Err(e) => Err(e),
        },
        QueryMsg::MarketingInfo {} => match ledger_marketing_info(view) {
            Ok(answer) => encode_marketing_info(&answer),
            Err(e) => Err(e),
        },
        QueryMsg::DownloadLogo {} => match ledger_download_logo(view) {
            Ok(answer) => encode_download_logo(&answer),
            Err(e) => Err(e),
        },
    }
}

/// Accepts a migration message, changes nothing in the storage and succeeds
/// with the empty response.
pub fn migrate(host: &mut Host, _env: Env, _msg: MigrateMsg) -> (r: Result<Response, StdError>)
    ensures
        *final(host) == *old(host),
        stored(*final(host)) == stored(*old(host)),
        r is Ok,
        is_empty_response(r->Ok_0),
{
    Ok(ledger_empty_response())
}

} // verus!
