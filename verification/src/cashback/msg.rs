//! The cashback token's request and answer shapes, the contract-status
//! levels, and the fixed-block response padding.

use vstd::prelude::*;
use crate::types::{Error, ResponseStatus, SecretContract};
use crate::cashback::transaction_history::{RichTx, Tx};
use crate::cashback::viewing_key::ViewingKey;

verus! {

/// The three-level kill switch.  `NormalRun` permits every handler; the two
/// stopped levels block every handler except the admin-only status change,
/// and are treated identically by the shared gate.
#[derive(PartialEq, Eq, Structural, Clone, Copy, Debug)]
pub enum ContractStatusLevel {
    NormalRun,
    StopAllButRedeems,
    StopAll,
}

pub fn status_level_to_u8(status_level: ContractStatusLevel) -> (r: u8)
    ensures
        r == (match status_level {
            ContractStatusLevel::NormalRun => 0u8,
            ContractStatusLevel::StopAllButRedeems => 1u8,
            ContractStatusLevel::StopAll => 2u8,
        }),
{
    match status_level {
        ContractStatusLevel::NormalRun => 0,
        ContractStatusLevel::StopAllButRedeems => 1,
        ContractStatusLevel::StopAll => 2,
    }
}

pub fn u8_to_status_level(status_level: u8) -> (r: Result<ContractStatusLevel, Error>)
    ensures
        r == (match status_level {
            0u8 => Ok::<ContractStatusLevel, Error>(ContractStatusLevel::NormalRun),
            1u8 => Ok(ContractStatusLevel::StopAllButRedeems),
            2u8 => Ok(ContractStatusLevel::StopAll),
            _ => Err(Error::InvalidStatusLevel),
        }),
{
    match status_level {
        0 => Ok(ContractStatusLevel::NormalRun),
        1 => Ok(ContractStatusLevel::StopAllButRedeems),
        2 => Ok(ContractStatusLevel::StopAll),
        _ => Err(Error::InvalidStatusLevel),
    }
}

/// Pads `message` with spaces up to a multiple of `block_size`, so that an
/// encoded answer's length leaks nothing about its payload.
pub fn space_pad(block_size: usize, message: &mut Vec<u8>)
    requires
        block_size > 0,
        old(message)@.len() + block_size <= usize::MAX,
    ensures
        final(message)@.len() as int % (block_size as int) == 0,
        old(message)@.len() <= final(message)@.len() < old(message)@.len() + block_size,
        final(message)@.subrange(0, old(message)@.len() as int) == old(message)@,
        forall|i: int|
            old(message)@.len() <= i < final(message)@.len() ==> final(message)@[i] == 32u8,
{
    let len = message.len();
    let surplus = len % block_size;
    if surplus == 0 {
        proof {
            assert(message@.subrange(0, len as int) =~= message@);
        }
        return ;
    }
    let missing = block_size - surplus;
    let mut i: usize = 0;
    while i < missing
        invariant
            i <= missing,
            len + missing <= usize::MAX,
            message@.len() == len + i,
            message@.subrange(0, len as int) =~= old(message)@,
            forall|j: int| len <= j < len + i ==> message@[j] == 32u8,
        decreases missing - i,
    {
        let ghost pre = message@;
        message.push(32u8);
        proof {
            assert(message@.subrange(0, len as int) =~= pre.subrange(0, len as int));
        }
        i = i + 1;
    }
    proof {
        vstd::arithmetic::div_mod::lemma_fundamental_div_mod(len as int, block_size as int);
        assert((len + missing) as int == (block_size as int) * ((len as int / block_size as int)
            + 1)) by (nonlinear_arith)
            requires
                (len as int) == (block_size as int) * (len as int / block_size as int) + (
                surplus as int),
                missing == block_size - surplus,
        ;
        vstd::arithmetic::div_mod::lemma_mod_multiples_basic(
            (len as int / block_size as int) + 1,
            block_size as int,
        );
    }
}

pub struct InitialBalance {
    pub address: String,
    pub amount: u128,
}

pub struct InitMsg {
    pub initial_balances: Option<Vec<InitialBalance>>,
    pub prng_seed: Vec<u8>,
    pub master: SecretContract,
    pub sefi: SecretContract,
}

/// Optional configuration values an instantiator can override; every value
/// defaults to the more private choice.
pub struct InitConfig {
    /// Whether the total supply may be answered publicly.
    public_total_supply: Option<bool>,
}

impl InitConfig {
    pub closed spec fn spec_public_total_supply(self) -> bool {
        match self.public_total_supply {
            Some(b) => b,
            None => false,
        }
    }

    pub fn new(public_total_supply: Option<bool>) -> (r: InitConfig)
        ensures
            r.spec_public_total_supply() == (match public_total_supply {
                Some(b) => b,
                None => false,
            }),
    {
        InitConfig { public_total_supply }
    }

    pub fn public_total_supply(&self) -> (r: bool)
        ensures
            r == self.spec_public_total_supply(),
    {
        match self.public_total_supply {
            Some(b) => b,
            None => false,
        }
    }
}

pub enum HandleMsg {
    Transfer { recipient: String, amount: u128, memo: Option<String>, padding: Option<String> },
    Send {
        recipient: String,
        amount: u128,
        msg: Option<Vec<u8>>,
        memo: Option<String>,
        padding: Option<String>,
    },
    Burn { amount: u128, memo: Option<String>, padding: Option<String> },
    RegisterReceive { code_hash: String, padding: Option<String> },
    CreateViewingKey { entropy: String, padding: Option<String> },
    SetViewingKey { key: String, padding: Option<String> },
    IncreaseAllowance {
        spender: String,
        amount: u128,
        expiration: Option<u64>,
        padding: Option<String>,
    },
    DecreaseAllowance {
        spender: String,
        amount: u128,
        expiration: Option<u64>,
        padding: Option<String>,
    },
    TransferFrom {
        owner: String,
        recipient: String,
        amount: u128,
        memo: Option<String>,
        padding: Option<String>,
    },
    SendFrom {
        owner: String,
        recipient: String,
        amount: u128,
        msg: Option<Vec<u8>>,
        memo: Option<String>,
        padding: Option<String>,
    },
    BurnFrom { owner: String, amount: u128, memo: Option<String>, padding: Option<String> },
    Mint { recipient: String, amount: u128, memo: Option<String>, padding: Option<String> },
    AddMinters { minters: Vec<String>, padding: Option<String> },
    RemoveMinters { minters: Vec<String>, padding: Option<String> },
    SetMinters { minters: Vec<String>, padding: Option<String> },
    ChangeAdmin { address: String, padding: Option<String> },
    SetContractStatus { level: ContractStatusLevel, padding: Option<String> },
    SetSefi { address: String, hash: String },
    SetMaster { address: String, hash: String },
    NotifyAllocation { amount: u128 },
    SelfCallback { message: HookMsg },
}

/// The deferred action a self-callback carries.
pub enum HookMsg {
    Burn { owner: String, amount: u128, memo: Option<String> },
}

pub enum HandleAnswer {
    Transfer { status: ResponseStatus },
    Send { status: ResponseStatus },
    Burn { status: ResponseStatus },
    RegisterReceive { status: ResponseStatus },
    CreateViewingKey { key: ViewingKey },
    SetViewingKey { status: ResponseStatus },
    IncreaseAllowance { spender: String, owner: String, allowance: u128 },
    DecreaseAllowance { spender: String, owner: String, allowance: u128 },
    TransferFrom { status: ResponseStatus },
    SendFrom { status: ResponseStatus },
    BurnFrom { status: ResponseStatus },
    Mint { status: ResponseStatus },
    AddMinters { status: ResponseStatus },
    RemoveMinters { status: ResponseStatus },
    SetMinters { status: ResponseStatus },
    ChangeAdmin { status: ResponseStatus },
    SetContractStatus { status: ResponseStatus },
    SetSefi { status: ResponseStatus },
    SetMaster { status: ResponseStatus },
}

pub enum QueryMsg {
    TokenInfo {},
    Allowance { owner: String, spender: String, key: String },
    Balance { address: String, key: String },
    TransferHistory { address: String, key: String, page: Option<u32>, page_size: u32 },
    TransactionHistory { address: String, key: String, page: Option<u32>, page_size: u32 },
    Minters {},
    RewardBalance {},
}

/// The addresses whose viewing keys may authenticate a query.
pub open spec fn validation_addresses(m: QueryMsg) -> Seq<String> {
    match m {
        QueryMsg::Balance { address, .. } => seq![address],
        QueryMsg::TransferHistory { address, .. } => seq![address],
        QueryMsg::TransactionHistory { address, .. } => seq![address],
        QueryMsg::Allowance { owner, spender, .. } => seq![owner, spender],
        _ => Seq::empty(),
    }
}

/// The key offered by a query.
pub open spec fn validation_key(m: QueryMsg) -> Seq<char> {
    match m {
        QueryMsg::Balance { key, .. } => key@,
        QueryMsg::TransferHistory { key, .. } => key@,
        QueryMsg::TransactionHistory { key, .. } => key@,
        QueryMsg::Allowance { key, .. } => key@,
        _ => Seq::empty(),
    }
}

impl QueryMsg {
    /// Whether answering the query needs viewing-key authentication.
    pub open spec fn requires_auth(self) -> bool {
        self is Balance || self is TransferHistory || self is TransactionHistory
            || self is Allowance
    }

    pub fn get_validation_params(&self) -> (r: (Vec<String>, ViewingKey))
        requires
            self.requires_auth(),
        ensures
            r.0@ == validation_addresses(*self),
            r.1.0@ == validation_key(*self),
    {
        match self {
            QueryMsg::Balance { address, key } => (
                vec![address.clone()],
                ViewingKey(key.clone()),
            ),
            QueryMsg::TransferHistory { address, key, .. } => (
                vec![address.clone()],
                ViewingKey(key.clone()),
            ),
            QueryMsg::TransactionHistory { address, key, .. } => (
                vec![address.clone()],
                ViewingKey(key.clone()),
            ),
            QueryMsg::Allowance { owner, spender, key } => (
                vec![owner.clone(), spender.clone()],
                ViewingKey(key.clone()),
            ),
            _ => vstd::pervasive::unreached(),
        }
    }
}

pub enum QueryAnswer {
    TokenInfo { name: String, symbol: String, decimals: u8, total_supply: Option<u128> },
    Allowance { spender: String, owner: String, allowance: u128, expiration: Option<u64> },
    Balance { amount: u128 },
    TransferHistory { txs: Vec<Tx>, total: Option<u64> },
    TransactionHistory { txs: Vec<RichTx>, total: Option<u64> },
    ViewingKeyError { msg: String },
    Minters { minters: Vec<String> },
    RewardBalance { balance: u128 },
}

/// The wire shape of the CreateViewingKey answer, for callers that decode
/// only the issued key.
pub struct CreateViewingKeyResponse {
    pub key: String,
}

} // verus!
