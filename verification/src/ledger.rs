//! The token ledger's routines, each behind a contract that names what it
//! gives. Nothing in this file is proved: the bodies are the ledger's own.

use vstd::prelude::*;
use cosmwasm_std::{
    Addr, Binary, Env, Event, MessageInfo, Response, StdError, SubMsg, Uint128,
};
use cw20::{
    AllAccountsResponse, AllAllowancesResponse, AllowanceResponse, BalanceResponse,
    DownloadLogoResponse, Logo, MarketingInfoResponse, MinterResponse, TokenInfoResponse,
};
use cw20_base::msg::InstantiateMsg;
use cw20_base::ContractError;
use cw_utils::Expiration;
use crate::amounts::{room, total};
use crate::host::{opt_text, stored, Host, HostView};

verus! {

/// The ledger's error type.
#[verifier::external_type_specification]
#[verifier::external_body]
pub struct LedgerContractError(ContractError);

/// The ledger's initialisation message.
#[verifier::external_type_specification]
#[verifier::external_body]
pub struct LedgerInstantiateMsg(InstantiateMsg);

/// When an allowance ends.
#[verifier::external_type_specification]
#[verifier::external_body]
pub struct LedgerExpiration(Expiration);

/// A logo, as a link or as image data.
#[verifier::external_type_specification]
#[verifier::external_body]
pub struct LedgerLogo(Logo);

/// The answer to a balance query.
#[verifier::external_type_specification]
#[verifier::external_body]
pub struct LedgerBalanceResponse(BalanceResponse);

/// The answer to a token-info query.
#[verifier::external_type_specification]
#[verifier::external_body]
pub struct LedgerTokenInfoResponse(TokenInfoResponse);

/// The minter and its cap.
#[verifier::external_type_specification]
#[verifier::external_body]
pub struct LedgerMinterResponse(MinterResponse);

/// The answer to an allowance query.
#[verifier::external_type_specification]
#[verifier::external_body]
pub struct LedgerAllowanceResponse(AllowanceResponse);

/// One page of allowances.
#[verifier::external_type_specification]
#[verifier::external_body]
pub struct LedgerAllAllowancesResponse(AllAllowancesResponse);

/// One page of accounts.
#[verifier::external_type_specification]
#[verifier::external_body]
pub struct LedgerAllAccountsResponse(AllAccountsResponse);

/// The marketing metadata.
#[verifier::external_type_specification]
#[verifier::external_body]
pub struct LedgerMarketingInfoResponse(MarketingInfoResponse);

/// The logo's data and its media type.
#[verifier::external_type_specification]
#[verifier::external_body]
pub struct LedgerDownloadLogoResponse(DownloadLogoResponse);

/// The key under which the contract's identity is kept: the bytes of
/// `contract_info`.
pub open spec fn identity_key() -> Seq<u8> {
    seq![99u8, 111u8, 110u8, 116u8, 114u8, 97u8, 99u8, 116u8, 95u8, 105u8, 110u8, 102u8, 111u8]
}

/// The bytes that stand in the storage for the identity (`name`, `version`):
/// the ledger's JSON encoding of the pair.
pub uninterp spec fn identity_record(name: Seq<char>, version: Seq<char>) -> Seq<u8>;

/// What `cw2::set_contract_version` leaves and returns.
pub uninterp spec fn identity_outcome(host: Host<'_>, name: Seq<char>, version: Seq<char>) -> (
    Host<'_>,
    Result<(), StdError>,
);

/// `cw2::set_contract_version`: on success the storage holds what it held
/// before and, under [`identity_key`], the record of (`name`, `version`); on
/// failure the storage holds what it held before.
#[verifier::external_body]
pub(crate) fn ledger_set_identity(host: &mut Host, name: &str, version: &str) -> (r: Result<
    (),
    StdError,
>)
    ensures
        (*final(host), r) == identity_outcome(*old(host), name@, version@),
        r is Ok ==> stored(*final(host)) == stored(*old(host)).insert(
            identity_key(),
            identity_record(name@, version@),
        ),
        r is Err ==> stored(*final(host)) == stored(*old(host)),
{
    cw2::set_contract_version(host.deps.storage, name, version)
}

/// The ledger error that wraps a host error.
pub uninterp spec fn host_failure(e: StdError) -> ContractError;

/// `ContractError::from`: the ledger error that wraps the host error `e`.
#[verifier::external_body]
pub(crate) fn ledger_error(e: StdError) -> (r: ContractError)
    ensures
        r == host_failure(e),
{
    ContractError::from(e)
}

/// The messages that a response asks the host to send, in order.
pub uninterp spec fn response_messages(response: Response) -> Seq<SubMsg>;

/// The attributes of a response, each as key and value, in order.
pub uninterp spec fn response_attributes(response: Response) -> Seq<(Seq<char>, Seq<char>)>;

/// The events of a response, in order.
pub uninterp spec fn response_events(response: Response) -> Seq<Event>;

/// The data of a response, where it has any.
pub uninterp spec fn response_data(response: Response) -> Option<Seq<u8>>;

/// Whether a response holds nothing: no message, no attribute, no event and no
/// data.
pub open spec fn is_empty_response(response: Response) -> bool {
    &&& response_messages(response).len() == 0
    &&& response_attributes(response).len() == 0
    &&& response_events(response).len() == 0
    &&& response_data(response) is None
}

/// `Response::default`: the response without messages, attributes, events or
/// data.
#[verifier::external_body]
pub(crate) fn ledger_empty_response() -> (r: Response)
    ensures
        response_messages(r).len() == 0,
        response_attributes(r).len() == 0,
        response_events(r).len() == 0,
        response_data(r) is None,
{
    Response::default()
}

/// `cosmwasm_std::Storage::get`: the record under `key`, where the storage
/// holds one.
#[verifier::external_body]
pub(crate) fn ledger_read(host: &Host, key: &Vec<u8>) -> (r: Option<Vec<u8>>)
    ensures
        r is Some <==> stored(*host).contains_key(key@),
        r is Some ==> r->0@ == stored(*host)[key@],
{
    host.deps.storage.get(key)
}

/// The host error that `cosmwasm_std::StdError::generic_err` makes of a
/// message.
pub uninterp spec fn generic_failure(message: Seq<char>) -> StdError;

/// `cosmwasm_std::StdError::generic_err`: the host's generic error with the
/// message `message`.
#[verifier::external_body]
pub(crate) fn ledger_generic_error(message: &str) -> (r: StdError)
    ensures
        r == generic_failure(message@),
{
    StdError::generic_err(message)
}

/// What `cosmwasm_std::DepsMut::as_ref` returns: the same storage, address
/// validator and querier, for reading.
pub uninterp spec fn viewed(host: Host<'_>) -> HostView<'_>;

/// `cosmwasm_std::DepsMut::as_ref`: the read-only handle on what `host` holds.
#[verifier::external_body]
pub(crate) fn ledger_view<'a>(host: &'a Host<'_>) -> (r: HostView<'a>)
    ensures
        r == viewed(*host),
{
    HostView { deps: host.deps.as_ref() }
}

/// The amount in a balance answer.
pub uninterp spec fn balance_amount(answer: BalanceResponse) -> u128;

/// `cosmwasm_std::Uint128::u128` on the `balance` field of a balance answer.
#[verifier::external_body]
pub(crate) fn ledger_balance_amount(answer: &BalanceResponse) -> (r: u128)
    ensures
        r == balance_amount(*answer),
{
    answer.balance.u128()
}

/// The total supply in a token-info answer.
pub uninterp spec fn supply_amount(answer: TokenInfoResponse) -> u128;

/// `cosmwasm_std::Uint128::u128` on the `total_supply` field of a token-info
/// answer.
#[verifier::external_body]
pub(crate) fn ledger_supply_amount(answer: &TokenInfoResponse) -> (r: u128)
    ensures
        r == supply_amount(*answer),
{
    answer.total_supply.u128()
}

/// What `cosmwasm_std::Api::addr_validate` returns for `text`, where it
/// succeeds.
pub uninterp spec fn checked_address(view: HostView<'_>, text: Seq<char>) -> Option<Addr>;

/// `cosmwasm_std::Api::addr_validate`: the address that `text` spells, where
/// the host's address validator accepts it.
#[verifier::external_body]
pub(crate) fn ledger_checked_address(view: HostView, text: &String) -> (r: Option<Addr>)
    ensures
        r == checked_address(view, text@),
{
    view.deps.api.addr_validate(text).ok()
}

/// The allowance record that the caller of `info` keeps for `spender`: `None`
/// where the record cannot be read; otherwise the amount in it, where there is
/// a record.
pub uninterp spec fn allowance_record(view: HostView<'_>, info: MessageInfo, spender: Addr) -> Option<
    Option<u128>,
>;

/// `cw_storage_plus::Map::may_load` on the ledger's allowances, under the
/// caller and `spender`.
#[verifier::external_body]
pub(crate) fn ledger_allowance_record(view: HostView, info: &MessageInfo, spender: &Addr) -> (r:
    Option<Option<u128>>)
    ensures
        r == allowance_record(view, *info, *spender),
{
    let held = cw20_base::state::ALLOWANCES.may_load(view.deps.storage, (&info.sender, spender));
    held.ok().map(|found| found.map(|record| record.allowance.u128()))
}

/// The amount that an increase of the allowance adds to: what the record of
/// `spender` on the caller's balance holds, zero where there is no record, and
/// `None` where the address validator refuses `spender` or the record cannot
/// be read.
pub open spec fn granted(view: HostView<'_>, info: MessageInfo, spender: Seq<char>) -> Option<
    u128,
> {
    match checked_address(view, spender) {
        Some(address) => match allowance_record(view, info, address) {
            Some(Some(amount)) => Some(amount),
            Some(None) => Some(0u128),
            None => None,
        },
        None => None,
    }
}

/// The initial balances' amounts in an initialisation message, in the
/// message's order.
pub uninterp spec fn opening_amounts(msg: InstantiateMsg) -> Seq<u128>;

/// `cosmwasm_std::Uint128::u128` on the amount of each initial balance of
/// `msg`.
#[verifier::external_body]
pub(crate) fn ledger_opening_amounts(msg: &InstantiateMsg) -> (r: Vec<u128>)
    ensures
        r@ == opening_amounts(*msg),
{
    msg.initial_balances.iter().map(|coin| coin.amount.u128()).collect()
}

/// The balance that the ledger holds for `address`: `None` where the balance
/// query fails.
pub open spec fn holding(host: Host<'_>, address: Seq<char>) -> Option<u128> {
    match balance_answer(viewed(host), address) {
        Ok(answer) => Some(balance_amount(answer)),
        Err(_) => None,
    }
}

/// The token's total supply: `None` where the token-info query fails.
pub open spec fn supply(host: Host<'_>) -> Option<u128> {
    match token_info_answer(viewed(host)) {
        Ok(answer) => Some(supply_amount(answer)),
        Err(_) => None,
    }
}

/// What `cw20_base::contract::instantiate` leaves and returns.
pub uninterp spec fn instantiate_outcome(
    host: Host<'_>,
    env: Env,
    info: MessageInfo,
    msg: InstantiateMsg,
) -> (Host<'_>, Result<Response, ContractError>);

/// `cw20_base::contract::instantiate`: sets up token info, minter, initial
/// balances and marketing metadata. It sums the initial balances with an
/// addition that aborts when the sum leaves the range of amounts.
#[verifier::external_body]
pub(crate) fn ledger_instantiate(
    host: &mut Host,
    env: Env,
    info: MessageInfo,
    msg: InstantiateMsg,
) -> (r: Result<Response, ContractError>)
    requires
        total(opening_amounts(msg)) <= u128::MAX,
    ensures
        (*final(host), r) == instantiate_outcome(*old(host), env, info, msg),
{
    cw20_base::contract::instantiate(host.deps.branch(), env, info, msg)
}

/// What `cw20_base::contract::execute_transfer` leaves and returns.
pub uninterp spec fn transfer_outcome(
    host: Host<'_>,
    env: Env,
    info: MessageInfo,
    recipient: Seq<char>,
    amount: u128,
) -> (Host<'_>, Result<Response, ContractError>);

/// `cw20_base::contract::execute_transfer`: moves `amount` from the caller to `recipient`.
/// It adds `amount` to the recipient's balance with an addition that aborts
/// when the sum leaves the range of amounts.
#[verifier::external_body]
pub(crate) fn ledger_transfer(
    host: &mut Host,
    env: Env,
    info: MessageInfo,
    recipient: String,
    amount: u128,
) -> (r: Result<Response, ContractError>)
    requires
        room(holding(*old(host), recipient@), amount),
    ensures
        (*final(host), r) == transfer_outcome(*old(host), env, info, recipient@, amount),
{
    cw20_base::contract::execute_transfer(
        host.deps.branch(),
        env,
        info,
        recipient,
        Uint128::new(amount),
    )
}

/// What `cw20_base::contract::execute_burn` leaves and returns.
pub uninterp spec fn burn_outcome(
    host: Host<'_>,
    env: Env,
    info: MessageInfo,
    amount: u128,
) -> (Host<'_>, Result<Response, ContractError>);

/// `cw20_base::contract::execute_burn`: destroys `amount` of the caller's balance.
#[verifier::external_body]
pub(crate) fn ledger_burn(
    host: &mut Host,
    env: Env,
    info: MessageInfo,
    amount: u128,
) -> (r: Result<Response, ContractError>)
    ensures
        (*final(host), r) == burn_outcome(*old(host), env, info, amount),
{
    cw20_base::contract::execute_burn(host.deps.branch(), env, info, Uint128::new(amount))
}

/// What `cw20_base::contract::execute_send` leaves and returns.
pub uninterp spec fn send_outcome(
    host: Host<'_>,
    env: Env,
    info: MessageInfo,
    contract: Seq<char>,
    amount: u128,
    msg: Binary,
) -> (Host<'_>, Result<Response, ContractError>);

/// `cw20_base::contract::execute_send`: moves `amount` to the contract
/// `contract` with the payload `msg`. It adds `amount` to that contract's
/// balance with an addition that aborts when the sum leaves the range of
/// amounts.
#[verifier::external_body]
pub(crate) fn ledger_send(
    host: &mut Host,
    env: Env,
    info: MessageInfo,
    contract: String,
    amount: u128,
    msg: Binary,
) -> (r: Result<Response, ContractError>)
    requires
        room(holding(*old(host), contract@), amount),
    ensures
        (*final(host), r) == send_outcome(*old(host), env, info, contract@, amount, msg),
{
    cw20_base::contract::execute_send(
        host.deps.branch(),
        env,
        info,
        contract,
        Uint128::new(amount),
        msg,
    )
}

/// What `cw20_base::contract::execute_mint` leaves and returns.
pub uninterp spec fn mint_outcome(
    host: Host<'_>,
    env: Env,
    info: MessageInfo,
    recipient: Seq<char>,
    amount: u128,
) -> (Host<'_>, Result<Response, ContractError>);

/// `cw20_base::contract::execute_mint`: creates `amount` in `recipient`'s
/// balance. It adds `amount` to the supply and to the recipient's balance with
/// additions that abort when the sum leaves the range of amounts.
#[verifier::external_body]
pub(crate) fn ledger_mint(
    host: &mut Host,
    env: Env,
    info: MessageInfo,
    recipient: String,
    amount: u128,
) -> (r: Result<Response, ContractError>)
    requires
        room(supply(*old(host)), amount),
        room(holding(*old(host), recipient@), amount),
    ensures
        (*final(host), r) == mint_outcome(*old(host), env, info, recipient@, amount),
{
    cw20_base::contract::execute_mint(
        host.deps.branch(),
        env,
        info,
        recipient,
        Uint128::new(amount),
    )
}

/// What `cw20_base::allowances::execute_increase_allowance` leaves and returns.
pub uninterp spec fn increase_allowance_outcome(
    host: Host<'_>,
    env: Env,
    info: MessageInfo,
    spender: Seq<char>,
    amount: u128,
    expires: Option<Expiration>,
) -> (Host<'_>, Result<Response, ContractError>);

/// `cw20_base::allowances::execute_increase_allowance`: raises `spender`'s
/// allowance on the caller's balance, with an addition that aborts when the sum
/// leaves the range of amounts.
#[verifier::external_body]
pub(crate) fn ledger_increase_allowance(
    host: &mut Host,
    env: Env,
    info: MessageInfo,
    spender: String,
    amount: u128,
    expires: Option<Expiration>,
) -> (r: Result<Response, ContractError>)
    requires
        room(granted(viewed(*old(host)), info, spender@), amount),
    ensures
        (*final(host), r) == increase_allowance_outcome(
            *old(host),
            env,
            info,
            spender@,
            amount,
            expires,
        ),
{
    cw20_base::allowances::execute_increase_allowance(
        host.deps.branch(),
        env,
        info,
        spender,
        Uint128::new(amount),
        expires,
    )
}

/// What `cw20_base::allowances::execute_decrease_allowance` leaves and returns.
pub uninterp spec fn decrease_allowance_outcome(
    host: Host<'_>,
    env: Env,
    info: MessageInfo,
    spender: Seq<char>,
    amount: u128,
    expires: Option<Expiration>,
) -> (Host<'_>, Result<Response, ContractError>);

/// `cw20_base::allowances::execute_decrease_allowance`: lowers `spender`'s
/// allowance on the caller's balance.
#[verifier::external_body]
pub(crate) fn ledger_decrease_allowance(
    host: &mut Host,
    env: Env,
    info: MessageInfo,
    spender: String,
    amount: u128,
    expires: Option<Expiration>,
) -> (r: Result<Response, ContractError>)
    ensures
        (*final(host), r) == decrease_allowance_outcome(
            *old(host),
            env,
            info,
            spender@,
            amount,
            expires,
        ),
{
    cw20_base::allowances::execute_decrease_allowance(
        host.deps.branch(),
        env,
        info,
        spender,
        Uint128::new(amount),
        expires,
    )
}

/// What `cw20_base::allowances::execute_transfer_from` leaves and returns.
pub uninterp spec fn transfer_from_outcome(
    host: Host<'_>,
    env: Env,
    info: MessageInfo,
    owner: Seq<char>,
    recipient: Seq<char>,
    amount: u128,
) -> (Host<'_>, Result<Response, ContractError>);

/// `cw20_base::allowances::execute_transfer_from`: moves `amount` from `owner`
/// to `recipient` out of the caller's allowance. It adds `amount` to the
/// recipient's balance with an addition that aborts when the sum leaves the
/// range of amounts.
#[verifier::external_body]
pub(crate) fn ledger_transfer_from(
    host: &mut Host,
    env: Env,
    info: MessageInfo,
    owner: String,
    recipient: String,
    amount: u128,
) -> (r: Result<Response, ContractError>)
    requires
        room(holding(*old(host), recipient@), amount),
    ensures
        (*final(host), r) == transfer_from_outcome(
            *old(host),
            env,
            info,
            owner@,
            recipient@,
            amount,
        ),
{
    cw20_base::allowances::execute_transfer_from(
        host.deps.branch(),
        env,
        info,
        owner,
        recipient,
        Uint128::new(amount),
    )
}

/// What `cw20_base::allowances::execute_burn_from` leaves and returns.
pub uninterp spec fn burn_from_outcome(
    host: Host<'_>,
    env: Env,
    info: MessageInfo,
    owner: Seq<char>,
    amount: u128,
) -> (Host<'_>, Result<Response, ContractError>);

/// `cw20_base::allowances::execute_burn_from`: destroys `amount` of
/// `owner`'s balance out of the caller's allowance.
#[verifier::external_body]
pub(crate) fn ledger_burn_from(
    host: &mut Host,
    env: Env,
    info: MessageInfo,
    owner: String,
    amount: u128,
) -> (r: Result<Response, ContractError>)
    ensures
        (*final(host), r) == burn_from_outcome(*old(host), env, info, owner@, amount),
{
    cw20_base::allowances::execute_burn_from(
        host.deps.branch(),
        env,
        info,
        owner,
        Uint128::new(amount),
    )
}

/// What `cw20_base::allowances::execute_send_from` leaves and returns.
pub uninterp spec fn send_from_outcome(
    host: Host<'_>,
    env: Env,
    info: MessageInfo,
    owner: Seq<char>,
    contract: Seq<char>,
    amount: u128,
    msg: Binary,
) -> (Host<'_>, Result<Response, ContractError>);

/// `cw20_base::allowances::execute_send_from`: moves `amount` from `owner` to
/// the contract `contract` out of the caller's allowance. It adds `amount` to
/// that contract's balance with an addition that aborts when the sum leaves the
/// range of amounts.
#[verifier::external_body]
pub(crate) fn ledger_send_from(
    host: &mut Host,
    env: Env,
    info: MessageInfo,
    owner: String,
    contract: String,
    amount: u128,
    msg: Binary,
) -> (r: Result<Response, ContractError>)
    requires
        room(holding(*old(host), contract@), amount),
    ensures
        (*final(host), r) == send_from_outcome(
            *old(host),
            env,
            info,
            owner@,
            contract@,
            amount,
            msg,
        ),
{
    cw20_base::allowances::execute_send_from(
        host.deps.branch(),
        env,
        info,
        owner,
        contract,
        Uint128::new(amount),
        msg,
    )
}

/// What `cw20_base::contract::execute_update_marketing` leaves and returns.
pub uninterp spec fn update_marketing_outcome(
    host: Host<'_>,
    env: Env,
    info: MessageInfo,
    project: Option<Seq<char>>,
    description: Option<Seq<char>>,
    marketing: Option<Seq<char>>,
) -> (Host<'_>, Result<Response, ContractError>);

/// `cw20_base::contract::execute_update_marketing`: replaces the marketing metadata.
#[verifier::external_body]
pub(crate) fn ledger_update_marketing(
    host: &mut Host,
    env: Env,
    info: MessageInfo,
    project: Option<String>,
    description: Option<String>,
    marketing: Option<String>,
) -> (r: Result<Response, ContractError>)
    ensures
        (*final(host), r) == update_marketing_outcome(
            *old(host),
            env,
            info,
            opt_text(project),
            opt_text(description),
            opt_text(marketing),
        ),
{
    cw20_base::contract::execute_update_marketing(
        host.deps.branch(),
        env,
        info,
        project,
        description,
        marketing,
    )
}

/// What `cw20_base::contract::execute_upload_logo` leaves and returns.
pub uninterp spec fn upload_logo_outcome(
    host: Host<'_>,
    env: Env,
    info: MessageInfo,
    logo: Logo,
) -> (Host<'_>, Result<Response, ContractError>);

/// `cw20_base::contract::execute_upload_logo`: replaces the stored logo.
#[verifier::external_body]
pub(crate) fn ledger_upload_logo(
    host: &mut Host,
    env: Env,
    info: MessageInfo,
    logo: Logo,
) -> (r: Result<Response, ContractError>)
    ensures
        (*final(host), r) == upload_logo_outcome(*old(host), env, info, logo),
{
    cw20_base::contract::execute_upload_logo(host.deps.branch(), env, info, logo)
}

/// What `cw20_base::contract::query_balance` returns.
pub uninterp spec fn balance_answer(
    view: HostView<'_>,
    address: Seq<char>,
) -> Result<BalanceResponse, StdError>;

/// `cw20_base::contract::query_balance`: the balance of `address`.
#[verifier::external_body]
pub(crate) fn ledger_balance(
    view: HostView,
    address: String,
) -> (r: Result<BalanceResponse, StdError>)
    ensures
        r == balance_answer(view, address@),
{
    cw20_base::contract::query_balance(view.deps, address)
}

/// What `cosmwasm_std::to_binary` returns for such an answer.
pub uninterp spec fn balance_encoding(answer: BalanceResponse) -> Result<Binary, StdError>;

/// `cosmwasm_std::to_binary`: the JSON encoding of `answer`.
#[verifier::external_body]
#[allow(deprecated)]
pub(crate) fn encode_balance(answer: &BalanceResponse) -> (r: Result<Binary, StdError>)
    ensures
        r == balance_encoding(*answer),
{
    cosmwasm_std::to_binary(answer)
}

/// What `cw20_base::contract::query_token_info` returns.
pub uninterp spec fn token_info_answer(view: HostView<'_>) -> Result<TokenInfoResponse, StdError>;

/// `cw20_base::contract::query_token_info`: the token's name, symbol, decimals and supply.
#[verifier::external_body]
pub(crate) fn ledger_token_info(view: HostView) -> (r: Result<TokenInfoResponse, StdError>)
    ensures
        r == token_info_answer(view),
{
    cw20_base::contract::query_token_info(view.deps)
}

/// What `cosmwasm_std::to_binary` returns for such an answer.
pub uninterp spec fn token_info_encoding(answer: TokenInfoResponse) -> Result<Binary, StdError>;

/// `cosmwasm_std::to_binary`: the JSON encoding of `answer`.
#[verifier::external_body]
#[allow(deprecated)]
pub(crate) fn encode_token_info(answer: &TokenInfoResponse) -> (r: Result<Binary, StdError>)
    ensures
        r == token_info_encoding(*answer),
{
    cosmwasm_std::to_binary(answer)
}

/// What `cw20_base::contract::query_minter` returns.
pub uninterp spec fn minter_answer(view: HostView<'_>) -> Result<Option<MinterResponse>, StdError>;

/// `cw20_base::contract::query_minter`: the minter and its cap, if there is one.
#[verifier::external_body]
pub(crate) fn ledger_minter(view: HostView) -> (r: Result<Option<MinterResponse>, StdError>)
    ensures
        r == minter_answer(view),
{
    cw20_base::contract::query_minter(view.deps)
}

/// What `cosmwasm_std::to_binary` returns for such an answer.
pub uninterp spec fn minter_encoding(answer: Option<MinterResponse>) -> Result<Binary, StdError>;

/// `cosmwasm_std::to_binary`: the JSON encoding of `answer`.
#[verifier::external_body]
#[allow(deprecated)]
pub(crate) fn encode_minter(answer: &Option<MinterResponse>) -> (r: Result<Binary, StdError>)
    ensures
        r == minter_encoding(*answer),
{
    cosmwasm_std::to_binary(answer)
}

/// What `cw20_base::allowances::query_allowance` returns.
pub uninterp spec fn allowance_answer(
    view: HostView<'_>,
    owner: Seq<char>,
    spender: Seq<char>,
) -> Result<AllowanceResponse, StdError>;

/// `cw20_base::allowances::query_allowance`: what `spender` may spend of `owner`'s balance.
#[verifier::external_body]
pub(crate) fn ledger_allowance(
    view: HostView,
    owner: String,
    spender: String,
) -> (r: Result<AllowanceResponse, StdError>)
    ensures
        r == allowance_answer(view, owner@, spender@),
{
    cw20_base::allowances::query_allowance(view.deps, owner, spender)
}

/// What `cosmwasm_std::to_binary` returns for such an answer.
pub uninterp spec fn allowance_encoding(answer: AllowanceResponse) -> Result<Binary, StdError>;

/// `cosmwasm_std::to_binary`: the JSON encoding of `answer`.
#[verifier::external_body]
#[allow(deprecated)]
pub(crate) fn encode_allowance(answer: &AllowanceResponse) -> (r: Result<Binary, StdError>)
    ensures
        r == allowance_encoding(*answer),
{
    cosmwasm_std::to_binary(answer)
}

/// What `cw20_base::enumerable::query_all_allowances` returns.
pub uninterp spec fn all_allowances_answer(
    view: HostView<'_>,
    owner: Seq<char>,
    start_after: Option<Seq<char>>,
    limit: Option<u32>,
) -> Result<AllAllowancesResponse, StdError>;

/// `cw20_base::enumerable::query_all_allowances`: one page of the allowances that `owner` granted.
#[verifier::external_body]
pub(crate) fn ledger_all_allowances(
    view: HostView,
    owner: String,
    start_after: Option<String>,
    limit: Option<u32>,
) -> (r: Result<AllAllowancesResponse, StdError>)
    ensures
        r == all_allowances_answer(view, owner@, opt_text(start_after), limit),
{
    cw20_base::enumerable::query_all_allowances(view.deps, owner, start_after, limit)
}

/// What `cosmwasm_std::to_binary` returns for such an answer.
pub uninterp spec fn all_allowances_encoding(
    answer: AllAllowancesResponse,
) -> Result<Binary, StdError>;

/// `cosmwasm_std::to_binary`: the JSON encoding of `answer`.
#[verifier::external_body]
#[allow(deprecated)]
pub(crate) fn encode_all_allowances(answer: &AllAllowancesResponse) -> (r: Result<Binary, StdError>)
    ensures
        r == all_allowances_encoding(*answer),
{
    cosmwasm_std::to_binary(answer)
}

/// What `cw20_base::enumerable::query_all_accounts` returns.
pub uninterp spec fn all_accounts_answer(
    view: HostView<'_>,
    start_after: Option<Seq<char>>,
    limit: Option<u32>,
) -> Result<AllAccountsResponse, StdError>;

/// `cw20_base::enumerable::query_all_accounts`: one page of the accounts that hold a balance.
#[verifier::external_body]
pub(crate) fn ledger_all_accounts(
    view: HostView,
    start_after: Option<String>,
    limit: Option<u32>,
) -> (r: Result<AllAccountsResponse, StdError>)
    ensures
        r == all_accounts_answer(view, opt_text(start_after), limit),
{
    cw20_base::enumerable::query_all_accounts(view.deps, start_after, limit)
}

/// What `cosmwasm_std::to_binary` returns for such an answer.
pub uninterp spec fn all_accounts_encoding(answer: AllAccountsResponse) -> Result<Binary, StdError>;

/// `cosmwasm_std::to_binary`: the JSON encoding of `answer`.
#[verifier::external_body]
#[allow(deprecated)]
pub(crate) fn encode_all_accounts(answer: &AllAccountsResponse) -> (r: Result<Binary, StdError>)
    ensures
        r == all_accounts_encoding(*answer),
{
    cosmwasm_std::to_binary(answer)
}

/// What `cw20_base::contract::query_marketing_info` returns.
pub uninterp spec fn marketing_info_answer(
    view: HostView<'_>,
) -> Result<MarketingInfoResponse, StdError>;

/// `cw20_base::contract::query_marketing_info`: the marketing metadata.
#[verifier::external_body]
pub(crate) fn ledger_marketing_info(view: HostView) -> (r: Result<MarketingInfoResponse, StdError>)
    ensures
        r == marketing_info_answer(view),
{
    cw20_base::contract::query_marketing_info(view.deps)
}

/// What `cosmwasm_std::to_binary` returns for such an answer.
pub uninterp spec fn marketing_info_encoding(
    answer: MarketingInfoResponse,
) -> Result<Binary, StdError>;

/// `cosmwasm_std::to_binary`: the JSON encoding of `answer`.
#[verifier::external_body]
#[allow(deprecated)]
pub(crate) fn encode_marketing_info(answer: &MarketingInfoResponse) -> (r: Result<Binary, StdError>)
    ensures
        r == marketing_info_encoding(*answer),
{
    cosmwasm_std::to_binary(answer)
}

/// What `cw20_base::contract::query_download_logo` returns.
pub uninterp spec fn download_logo_answer(
    view: HostView<'_>,
) -> Result<DownloadLogoResponse, StdError>;

/// `cw20_base::contract::query_download_logo`: the stored logo.
#[verifier::external_body]
pub(crate) fn ledger_download_logo(view: HostView) -> (r: Result<DownloadLogoResponse, StdError>)
    ensures
        r == download_logo_answer(view),
{
    cw20_base::contract::query_download_logo(view.deps)
}

/// What `cosmwasm_std::to_binary` returns for such an answer.
pub uninterp spec fn download_logo_encoding(
    answer: DownloadLogoResponse,
) -> Result<Binary, StdError>;

/// `cosmwasm_std::to_binary`: the JSON encoding of `answer`.
#[verifier::external_body]
#[allow(deprecated)]
pub(crate) fn encode_download_logo(answer: &DownloadLogoResponse) -> (r: Result<Binary, StdError>)
    ensures
        r == download_logo_encoding(*answer),
{
    cosmwasm_std::to_binary(answer)
}

} // verus!
