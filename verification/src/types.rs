//! Plain-value types shared by every contract: the calling environment, a
//! reference to another contract, outbound message intents, and the error
//! kinds surfaced to callers.

use vstd::prelude::*;

verus! {

/// A reference to another contract on the chain: its address together with
/// the code hash needed to call it.
pub struct SecretContract {
    pub address: String,
    pub contract_hash: String,
}

impl SecretContract {
    pub fn clone_ref(&self) -> (r: SecretContract)
        ensures
            r == *self,
    {
        SecretContract { address: self.address.clone(), contract_hash: self.contract_hash.clone() }
    }
}

/// What the host tells a contract about the call being executed: who sent the
/// message, the current block, and the contract's own identity.
pub struct Env {
    pub message_sender: String,
    pub block_height: u64,
    pub block_time: u64,
    pub contract_address: String,
    pub contract_code_hash: String,
}

/// The outcome reported in a handler's answer.
#[derive(PartialEq, Eq, Structural, Clone, Copy, Debug)]
pub enum ResponseStatus {
    Success,
    Failure,
}

/// An outbound message a handler asks the host to dispatch.  The host
/// serialises and delivers these as follow-up calls; each may execute later
/// and fail independently of the call that produced it.  `H` is the
/// contract's own deferred-action payload, carried by `SelfCallback`.
pub enum OutMsg<H> {
    /// Transfer `amount` of the token at `token` to `recipient`.
    Snip20Transfer { token: SecretContract, recipient: String, amount: u128 },
    /// Register this contract's receive hook with `token`.
    RegisterReceive { token: SecretContract, code_hash: String },
    /// Set this contract's viewing key with `token`.
    SetViewingKey { token: SecretContract, key: String },
    /// Ask `master` to settle this reward source's allocation.
    UpdateAllocation { master: SecretContract, spy_addr: String, spy_hash: String },
    /// Tell the reward target how much newly settled reward was sent.
    NotifyAllocation { spy: SecretContract, amount: u128 },
    /// A message this contract addresses to itself, to sequence the deferred
    /// action strictly after the messages queued before it.
    SelfCallback { contract_addr: String, code_hash: String, msg: H },
    /// The receive hook a registered recipient asked to be called with.
    ReceiverCallback {
        receiver: String,
        receiver_hash: String,
        sender: String,
        from: String,
        amount: u128,
        memo: Option<String>,
        msg: Option<Vec<u8>>,
    },
}

/// What a handler hands back to the host: the outbound messages to queue and
/// the answer to encode for the caller.
pub struct Response<H, A> {
    pub messages: Vec<OutMsg<H>>,
    pub data: Option<A>,
}

/// The error kinds a handler can surface.  Every error is terminal for the
/// call that raised it; the host discards the call's state changes.
#[derive(PartialEq, Eq, Structural, Clone, Copy, Debug)]
pub enum Error {
    /// The caller fails an admin, minter, master or self-callback gate.
    Unauthorized,
    /// A debit asks for more than the account holds.
    InsufficientFunds { balance: u128, required: u128 },
    /// A delegated spend asks for more than the allowance grants.
    InsufficientAllowance { allowance: u128, required: u128 },
    /// A mint would push the total supply past the 128-bit range.
    SupplyOverflow,
    /// A credit would push a single balance past the 128-bit range.
    BalanceOverflow,
    /// A mutating call arrived while the contract is stopped.
    ContractStopped,
    /// An upstream reward source answered with an unexpected shape.
    UpstreamContractError,
    /// A stored status byte does not name a status level.
    InvalidStatusLevel,
    /// A redeem asks for more than the accumulated reward balance.
    InsufficientRewards { balance: u128, required: u128 },
}

} // verus!
