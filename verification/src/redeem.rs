use vstd::prelude::*;
use vstd::string::StringExecFns;

use crate::decimal::{dec_chars, u32_to_decimal};

verus! {

/// The one correlation tag this program ever issues with its single
/// child-contract creation request; the completion callback must present
/// it back.
pub const INSTANTIATE_TOKEN_REPLY_ID: u64 = 1;

/// The redeem program's errors.
#[derive(Clone, Debug, PartialEq, Eq)]
pub enum ContractError {
    /// The caller is not the owner.
    Unauthorized,
    /// Reserved, never produced.
    CustomError { val: String },
    /// Reserved, never produced.
    InvalidRedemptionAmount { denom: String },
    /// The declared maximum supply is zero.
    InvalidMaxTokens,
    /// The completion callback presented an unknown correlation tag.
    InvalidTokenReplyId,
    /// A child contract is already linked; a duplicate or late callback.
    Cw721AlreadyLinked,
    /// No child contract is linked yet; provisioning has not completed.
    Uninitialized,
    /// The token-id counter has reached the declared maximum supply.
    MaxTokensExceed,
}

/// The whole durable state of one redeem program instance.
#[derive(Clone, Debug, PartialEq, Eq)]
pub struct Config {
    /// The declared owner identity.
    pub owner: String,
    /// The child non-fungible-token contract, once provisioning has
    /// completed; absent until then, set exactly once.
    pub cw721_address: Option<String>,
    /// The maximum supply: token ids stay strictly below it.
    pub max_tokens: u32,
    pub name: String,
    pub symbol: String,
    /// The next unused token id; starts at 1 and grows by exactly 1 per
    /// successful mint.
    pub unused_token_id: u32,
}

/// The parameters the redeem program is created with.
#[derive(Clone, Debug, PartialEq, Eq)]
pub struct InstantiateMsg {
    pub owner: String,
    pub max_tokens: u32,
    pub name: String,
    pub symbol: String,
    /// The stored code the child contract is created from.
    pub token_code_id: u64,
}

/// The child-contract creation request that initialization enqueues: the
/// host creates the contract and, only on success, delivers a completion
/// callback carrying the tag.
#[derive(Clone, Debug, PartialEq, Eq)]
pub struct InstantiateChildMsg {
    pub code_id: u64,
    /// The child's declared name: the program's name with a marker
    /// suffix.
    pub name: String,
    pub symbol: String,
    /// The address allowed to mint on the child: this program itself.
    pub minter: String,
    pub label: String,
    /// The correlation tag the completion callback must present.
    pub reply_tag: u64,
}

/// The mint instruction a successful mint enqueues to the child
/// contract.
#[derive(Clone, Debug, PartialEq, Eq)]
pub struct MintMsg {
    pub contract_addr: String,
    /// The decimal text of the allocated token id.
    pub token_id: String,
    pub owner: String,
    pub token_uri: String,
}

/// The commands of the redeem program.
pub enum ExecuteMsg {
    Mint { uri: String },
}

/// The read-only requests of the redeem program.
pub enum QueryMsg {
    GetConfig,
}

/// A migration message; migration is reserved and does nothing.
pub enum MigrateMsg {
    /// The only shape a migration request can take; it carries nothing.
    Reserved,
}

/// The redeem program's configuration, as the query reports it.
#[derive(Clone, Debug, PartialEq, Eq)]
pub struct ConfigResponse {
    pub owner: String,
    pub cw721_address: Option<String>,
    pub max_tokens: u32,
    pub name: String,
    pub symbol: String,
    pub unused_token_id: u32,
}

/// The marker suffix of the child contract's declared name.
pub open spec fn child_name_suffix() -> Seq<char> {
    " cw721_base"@
}

/// Create the program's state and enqueue the one child-contract
/// creation request; fails only on a zero maximum supply.
pub fn instantiate(self_address: String, msg: InstantiateMsg) -> (r: Result<
    (Config, InstantiateChildMsg),
    ContractError,
>)
    ensures
        msg.max_tokens == 0 ==> r == Err::<(Config, InstantiateChildMsg), ContractError>(
            ContractError::InvalidMaxTokens,
        ),
        msg.max_tokens > 0 ==> (r matches Ok((config, child)) && {
            &&& config.owner@ == msg.owner@
            &&& config.cw721_address is None
            &&& config.max_tokens == msg.max_tokens
            &&& config.name@ == msg.name@
            &&& config.symbol@ == msg.symbol@
            &&& config.unused_token_id == 1
            &&& child.code_id == msg.token_code_id
            &&& child.name@ == msg.name@ + child_name_suffix()
            &&& child.symbol@ == msg.symbol@
            &&& child.minter@ == self_address@
            &&& child.label@ == msg.name@
            &&& child.reply_tag == INSTANTIATE_TOKEN_REPLY_ID
        }),
{
    if msg.max_tokens == 0 {
        return Err(ContractError::InvalidMaxTokens);
    }
    let child_name = msg.name.clone().concat(" cw721_base");
    let config = Config {
        owner: msg.owner,
        cw721_address: None,
        max_tokens: msg.max_tokens,
        name: msg.name.clone(),
        symbol: msg.symbol.clone(),
        unused_token_id: 1,
    };
    let child = InstantiateChildMsg {
        code_id: msg.token_code_id,
        name: child_name,
        symbol: msg.symbol,
        minter: self_address,
        label: msg.name,
        reply_tag: INSTANTIATE_TOKEN_REPLY_ID,
    };
    Ok((config, child))
}

/// Why a mint fails, if it does: the child contract must be linked and
/// the counter must still be below the maximum supply.
pub open spec fn mint_error(c: Config) -> Option<ContractError> {
    if c.cw721_address is None {
        Some(ContractError::Uninitialized)
    } else if c.unused_token_id >= c.max_tokens {
        Some(ContractError::MaxTokensExceed)
    } else {
        None
    }
}

/// What `execute_mint` promises: on failure nothing changes and the
/// reason is exactly `mint_error`; on success the mint instruction names
/// the child contract, carries the counter's decimal text as the token
/// id, and the counter advances by exactly 1.
pub open spec fn mint_post(
    pre: Config,
    post: Config,
    sender: Seq<char>,
    uri: String,
    r: Result<MintMsg, ContractError>,
) -> bool {
    &&& post.owner == pre.owner
    &&& post.cw721_address == pre.cw721_address
    &&& post.max_tokens == pre.max_tokens
    &&& post.name == pre.name
    &&& post.symbol == pre.symbol
    &&& match r {
        Ok(msg) => {
            &&& mint_error(pre) is None
            &&& post.unused_token_id == pre.unused_token_id + 1
            &&& msg.contract_addr@ == pre.cw721_address->Some_0@
            &&& msg.token_id@ == dec_chars(pre.unused_token_id as nat)
            &&& msg.owner@ == sender
            &&& msg.token_uri == uri
        },
        Err(e) => {
            &&& Some(e) == mint_error(pre)
            &&& post.unused_token_id == pre.unused_token_id
        },
    }
}

/// Mint the next token against the monotone counter: the child contract
/// must be linked, the counter below the maximum supply; the instruction
/// and the counter's advance belong to the same atomic unit.
pub fn execute_mint(config: &mut Config, sender: &String, uri: String) -> (r: Result<
    MintMsg,
    ContractError,
>)
    ensures
        mint_post(*old(config), *final(config), sender@, uri, r),
{
    let child = match &config.cw721_address {
        None => {
            return Err(ContractError::Uninitialized);
        },
        Some(addr) => addr.clone(),
    };
    if config.unused_token_id >= config.max_tokens {
        return Err(ContractError::MaxTokensExceed);
    }
    let msg = MintMsg {
        contract_addr: child,
        token_id: u32_to_decimal(config.unused_token_id),
        owner: sender.clone(),
        token_uri: uri,
    };
    config.unused_token_id = config.unused_token_id + 1;
    Ok(msg)
}

/// The configuration a successful mint leaves behind: only the counter
/// moves, by exactly 1.
pub open spec fn mint_next(c: Config) -> Config {
    Config { unused_token_id: (c.unused_token_id + 1) as u32, ..c }
}

/// The token-id counter grows by exactly 1 per successful mint, and once
/// it reaches the maximum supply the next mint is rejected — so a supply
/// of `max_tokens` bounds the ids ever handed out below it.
pub proof fn lemma_mint_counter(c: Config)
    requires
        mint_error(c) is None,
    ensures
        mint_next(c).unused_token_id == c.unused_token_id + 1,
        mint_next(c).unused_token_id == c.max_tokens ==> mint_error(mint_next(c)) == Some(
            ContractError::MaxTokensExceed,
        ),
{
}

/// Why a completion callback is rejected, if it is: at most one may ever
/// be accepted, and it must carry the one tag this program issues.
pub open spec fn reply_error(c: Config, reply_id: u64) -> Option<ContractError> {
    if c.cw721_address is Some {
        Some(ContractError::Cw721AlreadyLinked)
    } else if reply_id != INSTANTIATE_TOKEN_REPLY_ID {
        Some(ContractError::InvalidTokenReplyId)
    } else {
        None
    }
}

/// What `reply` promises: on failure nothing changes and the reason is
/// exactly `reply_error`; on success the child's address is linked and
/// everything else stays.
pub open spec fn reply_post(
    pre: Config,
    post: Config,
    reply_id: u64,
    contract_address: String,
    r: Result<(), ContractError>,
) -> bool {
    &&& post.owner == pre.owner
    &&& post.max_tokens == pre.max_tokens
    &&& post.name == pre.name
    &&& post.symbol == pre.symbol
    &&& post.unused_token_id == pre.unused_token_id
    &&& match r {
        Ok(()) => {
            &&& reply_error(pre, reply_id) is None
            &&& post.cw721_address == Some(contract_address)
        },
        Err(e) => {
            &&& Some(e) == reply_error(pre, reply_id)
            &&& post.cw721_address == pre.cw721_address
        },
    }
}

/// Accept the completion callback of the child-contract creation
/// request: validate the tag, link the newly created child's address,
/// and become ready to mint. Accepted at most once, ever.
pub fn reply(config: &mut Config, reply_id: u64, contract_address: String) -> (r: Result<
    (),
    ContractError,
>)
    ensures
        reply_post(*old(config), *final(config), reply_id, contract_address, r),
{
    if config.cw721_address.is_some() {
        return Err(ContractError::Cw721AlreadyLinked);
    }
    if reply_id != INSTANTIATE_TOKEN_REPLY_ID {
        return Err(ContractError::InvalidTokenReplyId);
    }
    config.cw721_address = Some(contract_address);
    Ok(())
}

/// A completion is accepted exactly once: whatever tag a later callback
/// carries, it fails with `Cw721AlreadyLinked`; and before the first
/// completion a mismatched tag fails with `InvalidTokenReplyId`.
pub proof fn lemma_completion_exactly_once(
    c: Config,
    addr: String,
    first_id: u64,
    later_id: u64,
)
    ensures
        reply_error(c, first_id) is None ==> reply_error(
            Config { cw721_address: Some(addr), ..c },
            later_id,
        ) == Some(ContractError::Cw721AlreadyLinked),
        c.cw721_address is None && first_id != INSTANTIATE_TOKEN_REPLY_ID ==> reply_error(
            c,
            first_id,
        ) == Some(ContractError::InvalidTokenReplyId),
{
}

/// Run one command against the state.
pub fn execute(config: &mut Config, sender: &String, msg: ExecuteMsg) -> (r: Result<
    MintMsg,
    ContractError,
>)
    ensures
        match msg {
            ExecuteMsg::Mint { uri } => mint_post(*old(config), *final(config), sender@, uri, r),
        },
{
    match msg {
        ExecuteMsg::Mint { uri } => execute_mint(config, sender, uri),
    }
}

/// Report the configuration.
pub fn query_config(config: &Config) -> (r: ConfigResponse)
    ensures
        r.owner@ == config.owner@,
        r.cw721_address is Some <==> config.cw721_address is Some,
        config.cw721_address is Some ==> r.cw721_address->Some_0@ == config.cw721_address->Some_0@,
        r.max_tokens == config.max_tokens,
        r.name@ == config.name@,
        r.symbol@ == config.symbol@,
        r.unused_token_id == config.unused_token_id,
{
    ConfigResponse {
        owner: config.owner.clone(),
        cw721_address: match &config.cw721_address {
            Some(a) => Some(a.clone()),
            None => None,
        },
        max_tokens: config.max_tokens,
        name: config.name.clone(),
        symbol: config.symbol.clone(),
        unused_token_id: config.unused_token_id,
    }
}

/// Answer one read-only request.
pub fn query(config: &Config, msg: QueryMsg) -> (r: ConfigResponse)
    ensures
        match msg {
            QueryMsg::GetConfig => {
                &&& r.owner@ == config.owner@
                &&& (r.cw721_address is Some <==> config.cw721_address is Some)
                &&& (config.cw721_address is Some ==> r.cw721_address->Some_0@
                    == config.cw721_address->Some_0@)
                &&& r.max_tokens == config.max_tokens
                &&& r.name@ == config.name@
                &&& r.symbol@ == config.symbol@
                &&& r.unused_token_id == config.unused_token_id
            },
        },
{
    match msg {
        QueryMsg::GetConfig => query_config(config),
    }
}

/// Migration is reserved and changes nothing.
pub fn migrate(msg: MigrateMsg) -> (r: Result<(), ContractError>)
    ensures
        r == Ok::<(), ContractError>(()),
{
    let _ = msg;
    Ok(())
}

} // verus!
